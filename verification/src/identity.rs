use vstd::prelude::*;
use vstd::bytes::{spec_u32_from_le_bytes, u32_from_le_bytes};

use crate::errors::{GenError, SymbolName};

verus! {

/// The three artifact-identifying values read from fixed symbol locations
/// in the analyzed binary: a 128-bit unique identifier, an age counter and
/// a link timestamp. Immutable once extracted.
#[derive(Debug, PartialEq, Eq)]
pub struct ArtifactIdentity {
    pub guid: Vec<u8>,
    pub age: u32,
    pub timestamp: u32,
}

impl ArtifactIdentity {
    /// The identifier is always exactly 16 bytes.
    pub open spec fn wf(self) -> bool {
        self.guid@.len() == 16
    }
}

/// Assembles the artifact identity from three fixed-width reads.
///
/// Each argument is the outcome of one host read: `None` when the symbol that
/// names the read location could not be found, `Some(bytes)` otherwise. The
/// timestamp and age are 4-byte little-endian integers; the identifier is a
/// raw 16-byte value. A missing symbol is reported in lookup order (metadata
/// header, then age, then identifier); a read of the wrong width is an
/// `IoFailure`.
pub fn extract_identity(
    timestamp_bytes: Option<Vec<u8>>,
    age_bytes: Option<Vec<u8>>,
    guid_bytes: Option<Vec<u8>>,
) -> (r: Result<ArtifactIdentity, GenError>)
    ensures
        timestamp_bytes is None ==> r == Err::<ArtifactIdentity, GenError>(
            GenError::MissingSymbol(SymbolName::CoffHeader),
        ),
        timestamp_bytes is Some && age_bytes is None ==> r == Err::<ArtifactIdentity, GenError>(
            GenError::MissingSymbol(SymbolName::PdbAge),
        ),
        timestamp_bytes is Some && age_bytes is Some && guid_bytes is None ==> r == Err::<
            ArtifactIdentity,
            GenError,
        >(GenError::MissingSymbol(SymbolName::PdbGuid)),
        timestamp_bytes is Some && age_bytes is Some && guid_bytes is Some ==> ({
            let t = timestamp_bytes->Some_0;
            let a = age_bytes->Some_0;
            let g = guid_bytes->Some_0;
            if t@.len() != 4 || a@.len() != 4 || g@.len() != 16 {
                r == Err::<ArtifactIdentity, GenError>(GenError::IoFailure)
            } else {
                r matches Ok(id) && id.timestamp == spec_u32_from_le_bytes(t@) && id.age
                    == spec_u32_from_le_bytes(a@) && id.guid@ == g@ && id.wf()
            }
        }),
{
    let ts = match timestamp_bytes {
        Some(v) => v,
        None => {
            return Err(GenError::MissingSymbol(SymbolName::CoffHeader));
        },
    };
    let age = match age_bytes {
        Some(v) => v,
        None => {
            return Err(GenError::MissingSymbol(SymbolName::PdbAge));
        },
    };
    let guid = match guid_bytes {
        Some(v) => v,
        None => {
            return Err(GenError::MissingSymbol(SymbolName::PdbGuid));
        },
    };
    if ts.len() != 4 || age.len() != 4 || guid.len() != 16 {
        return Err(GenError::IoFailure);
    }
    let timestamp = u32_from_le_bytes(ts.as_slice());
    let age_value = u32_from_le_bytes(age.as_slice());
    Ok(ArtifactIdentity { guid, age: age_value, timestamp })
}

} // verus!
