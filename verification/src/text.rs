use vstd::prelude::*;
use vstd::string::*;
use vstd::slice::slice_subrange;
use vstd::utf8::{decode_utf8, valid_utf8};

verus! {

/// A raw section name with its trailing padding bytes removed.
pub open spec fn trim_trailing_nuls(s: Seq<u8>) -> Seq<u8>
    decreases s.len(),
{
    if s.len() > 0 && s[s.len() - 1] == 0u8 {
        trim_trailing_nuls(s.drop_last())
    } else {
        s
    }
}

/// What a raw fixed-width section name decodes to: its bytes without the
/// trailing padding when they are valid text, a sentinel otherwise.
pub open spec fn spec_section_name(raw: Seq<u8>) -> Seq<char> {
    let t = trim_trailing_nuls(raw);
    if valid_utf8(t) {
        decode_utf8(t)
    } else {
        "<invalid>"@
    }
}

/// Relies on std's str::from_utf8: it returns a decoded slice exactly when
/// the bytes are a valid UTF-8 encoding.
#[verifier::external_body]
fn bytes_to_str(b: &[u8]) -> (r: Option<&str>)
    ensures
        r is Some <==> valid_utf8(b@),
        r matches Some(s) ==> s@ == decode_utf8(b@),
{
    std::str::from_utf8(b).ok()
}

/// Decodes a fixed-width section-name buffer: trailing null padding is
/// trimmed, and bytes that are not valid text yield a sentinel name instead
/// of failing the whole resolution.
pub fn decode_section_name(raw: &Vec<u8>) -> (r: String)
    ensures
        r@ == spec_section_name(raw@),
{
    let mut end: usize = raw.len();
    proof {
        assert(raw@.take(end as int) =~= raw@);
    }
    while end > 0 && raw[end - 1] == 0u8
        invariant
            end <= raw.len(),
            trim_trailing_nuls(raw@) == trim_trailing_nuls(raw@.take(end as int)),
        decreases end,
    {
        proof {
            assert(raw@.take(end as int).last() == 0u8);
            assert(raw@.take(end as int).drop_last() =~= raw@.take(end - 1));
        }
        end = end - 1;
    }
    proof {
        assert(trim_trailing_nuls(raw@.take(end as int)) =~= raw@.take(end as int));
    }
    let trimmed = slice_subrange(raw.as_slice(), 0, end);
    match bytes_to_str(trimmed) {
        Some(s) => s.to_owned(),
        None => "<invalid>".to_owned(),
    }
}

/// The character for one decimal digit.
pub open spec fn digit_char(d: int) -> char {
    if d == 0 {
        '0'
    } else if d == 1 {
        '1'
    } else if d == 2 {
        '2'
    } else if d == 3 {
        '3'
    } else if d == 4 {
        '4'
    } else if d == 5 {
        '5'
    } else if d == 6 {
        '6'
    } else if d == 7 {
        '7'
    } else if d == 8 {
        '8'
    } else {
        '9'
    }
}

/// The usual decimal rendering of a non-negative integer.
pub open spec fn spec_decimal(n: int) -> Seq<char>
    recommends
        n >= 0,
    decreases n,
{
    if n < 10 {
        seq![digit_char(n)]
    } else {
        spec_decimal(n / 10).push(digit_char(n % 10))
    }
}

fn digit_str(d: u64) -> (r: &'static str)
    requires
        d < 10,
    ensures
        r@ =~= seq![digit_char(d as int)],
{
    proof {
        reveal_strlit("0");
        reveal_strlit("1");
        reveal_strlit("2");
        reveal_strlit("3");
        reveal_strlit("4");
        reveal_strlit("5");
        reveal_strlit("6");
        reveal_strlit("7");
        reveal_strlit("8");
        reveal_strlit("9");
    }
    match d {
        0 => "0",
        1 => "1",
        2 => "2",
        3 => "3",
        4 => "4",
        5 => "5",
        6 => "6",
        7 => "7",
        8 => "8",
        _ => "9",
    }
}

/// Renders a counter in decimal, for the suffix of a split range's name.
pub fn decimal_string(n: u64) -> (r: String)
    ensures
        r@ == spec_decimal(n as int),
    decreases n,
{
    if n < 10 {
        digit_str(n).to_owned()
    } else {
        let mut s = decimal_string(n / 10);
        s.append(digit_str(n % 10));
        proof {
            assert(s@ =~= spec_decimal(n as int));
        }
        s
    }
}

/// The symbol name for the `i`-th address range of a function: the first
/// range keeps the display name, later ranges get a numbered suffix so the
/// names stay unique within the module.
pub open spec fn spec_part_name(name: Seq<char>, i: int) -> Seq<char> {
    if i == 0 {
        name
    } else {
        name + "_part"@ + spec_decimal(i + 1)
    }
}

/// The name used for the `i`-th address range of the function called `name`.
pub fn part_name(name: &String, i: usize) -> (r: String)
    requires
        i < usize::MAX,
    ensures
        r@ == spec_part_name(name@, i as int),
{
    if i == 0 {
        name.clone()
    } else {
        let mut s = name.clone();
        s.append("_part");
        let num = decimal_string((i + 1) as u64);
        s.append(num.as_str());
        proof {
            assert(s@ =~= spec_part_name(name@, i as int));
        }
        s
    }
}

/// The position of the last occurrence of `c` in `s`, or -1 when absent.
pub open spec fn last_pos(s: Seq<char>, c: char) -> int
    decreases s.len(),
{
    if s.len() == 0 {
        -1
    } else if s.last() == c {
        s.len() - 1
    } else {
        last_pos(s.drop_last(), c)
    }
}

fn last_char_pos(s: &str, c: char) -> (r: Option<usize>)
    ensures
        r is None ==> last_pos(s@, c) == -1,
        r matches Some(i) ==> last_pos(s@, c) == i && i < s@.len(),
{
    let n = s.unicode_len();
    let mut j: usize = n;
    proof {
        assert(s@.take(j as int) =~= s@);
    }
    while j > 0
        invariant
            j <= s@.len(),
            n == s@.len(),
            last_pos(s@, c) == last_pos(s@.take(j as int), c),
        decreases j,
    {
        let ch = s.get_char(j - 1);
        proof {
            assert(s@.take(j as int).last() == s@[j - 1]);
            assert(s@.take(j as int).drop_last() =~= s@.take(j - 1));
        }
        if ch == c {
            return Some(j - 1);
        }
        j = j - 1;
    }
    None
}

/// The filename with the analysis project suffix removed.
pub open spec fn spec_strip_project_suffix(f: Seq<char>) -> Seq<char> {
    if f.len() >= 5 && f.subrange(f.len() - 5, f.len() as int) == ".bndb"@ {
        f.take(f.len() - 5)
    } else {
        f
    }
}

/// The filename with its extension replaced by the container's canonical
/// one. An extension is a final dot strictly after the first character of
/// the last path component; when there is none, the extension is appended.
pub open spec fn spec_with_pdb_extension(f: Seq<char>) -> Seq<char> {
    let slash = last_pos(f, '/');
    let dot = last_pos(f, '.');
    if dot > slash + 1 {
        f.take(dot) + ".pdb"@
    } else {
        f + ".pdb"@
    }
}

/// The output artifact name: the input binary's filename, with any analysis
/// project suffix stripped and the container's extension substituted.
pub open spec fn spec_output_name(f: Seq<char>) -> Seq<char> {
    spec_with_pdb_extension(spec_strip_project_suffix(f))
}

/// Derives the output artifact's filename from the input binary's filename.
pub fn output_name(filename: &String) -> (r: String)
    ensures
        r@ == spec_output_name(filename@),
{
    let f = filename.as_str();
    let n = f.unicode_len();
    let stripped: &str = if n >= 5 && f.get_char(n - 5) == '.' && f.get_char(n - 4) == 'b'
        && f.get_char(n - 3) == 'n' && f.get_char(n - 2) == 'd' && f.get_char(n - 1) == 'b' {
        proof {
            reveal_strlit(".bndb");
            assert(f@.subrange(n - 5, n as int) =~= ".bndb"@);
        }
        f.substring_char(0, n - 5)
    } else {
        proof {
            reveal_strlit(".bndb");
            if n >= 5 && f@.subrange(n - 5, n as int) == ".bndb"@ {
                assert(f@[n - 5] == '.' && f@[n - 4] == 'b' && f@[n - 3] == 'n' && f@[n - 2] == 'd'
                    && f@[n - 1] == 'b') by {
                    assert(f@.subrange(n - 5, n as int)[0] == '.');
                    assert(f@.subrange(n - 5, n as int)[1] == 'b');
                    assert(f@.subrange(n - 5, n as int)[2] == 'n');
                    assert(f@.subrange(n - 5, n as int)[3] == 'd');
                    assert(f@.subrange(n - 5, n as int)[4] == 'b');
                }
            }
        }
        f
    };
    let slash = last_char_pos(stripped, '/');
    let dot = last_char_pos(stripped, '.');
    let keep_to: usize = match (dot, slash) {
        (Some(d), None) => if d > 0 {
            d
        } else {
            stripped.unicode_len()
        },
        (Some(d), Some(sl)) => if d > sl && d - sl > 1 {
            d
        } else {
            stripped.unicode_len()
        },
        _ => stripped.unicode_len(),
    };
    let mut out = stripped.substring_char(0, keep_to).to_owned();
    out.append(".pdb");
    proof {
        assert(stripped@.take(stripped@.len() as int) =~= stripped@);
        assert(out@ =~= spec_output_name(filename@));
    }
    out
}

/// The synthetic compilation-module name derived from a section name.
pub open spec fn spec_module_name(section: Seq<char>) -> Seq<char> {
    section + "_module"@
}

/// The synthetic object path derived from a section name. No such file
/// exists; the container format requires a source association.
pub open spec fn spec_object_path(section: Seq<char>) -> Seq<char> {
    "/fake/path/"@ + section + ".obj"@
}

/// The module name for the section called `section`.
pub fn module_name(section: &String) -> (r: String)
    ensures
        r@ == spec_module_name(section@),
{
    let mut s = section.clone();
    s.append("_module");
    s
}

/// The synthetic object path for the section called `section`.
pub fn object_path(section: &String) -> (r: String)
    ensures
        r@ == spec_object_path(section@),
{
    let mut s = "/fake/path/".to_owned();
    s.append(section.as_str());
    s.append(".obj");
    proof {
        assert(s@ =~= spec_object_path(section@));
    }
    s
}

} // verus!
