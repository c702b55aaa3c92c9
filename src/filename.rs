//! Derivation of the local file name under which a fetched clip is stored:
//! a 64-bit XXH3 hash of the downloader's proposed name in lowercase hex,
//! followed by the proposed name's extension.
use vstd::prelude::*;

verus! {

/// The lowercase hexadecimal digit for a value below sixteen.
pub open spec fn hex_digit(d: nat) -> char {
    if d < 10 {
        ((d + 48) as u8) as char
    } else {
        ((d + 87) as u8) as char
    }
}

/// The lowercase hexadecimal rendering of `n`, without leading zeros
/// (zero is rendered as a single `0`).
pub open spec fn lower_hex(n: nat) -> Seq<char>
    decreases n,
{
    if n < 16 {
        seq![hex_digit(n)]
    } else {
        lower_hex(n / 16).push(hex_digit(n % 16))
    }
}

/// XXH3 (64-bit, default secret, seed zero) of the UTF-8 bytes of `s`.
pub uninterp spec fn xxh3_of(s: Seq<char>) -> u64;

/// The extension of a path as `std::path::Path::extension` finds it,
/// or the empty sequence where it finds none.
pub uninterp spec fn path_extension_of(s: Seq<char>) -> Seq<char>;

/// The name built from a hash and an extension: the hash in lowercase hex,
/// then `.` and the extension where the extension is not empty.
pub open spec fn name_from_parts_spec(hash: u64, ext: Seq<char>) -> Seq<char> {
    if ext.len() == 0 {
        lower_hex(hash as nat)
    } else {
        lower_hex(hash as nat) + seq!['.'] + ext
    }
}

/// The obfuscated local name for a proposed file name.
pub open spec fn obfuscated_name(raw: Seq<char>) -> Seq<char> {
    name_from_parts_spec(xxh3_of(raw), path_extension_of(raw))
}

/// Relies on xxhash_rust::xxh3::xxh3_64: the hash of the string's bytes,
/// a function of those bytes alone.
#[verifier::external_body]
fn xxh3_hash(s: &str) -> (r: u64)
    ensures
        r == xxh3_of(s@),
{
    xxhash_rust::xxh3::xxh3_64(s.as_bytes())
}

/// Relies on std::path::Path::extension: the text after the final `.` of
/// the path's file name, if any; an extension taken from a `str` is valid
/// UTF-8, so the conversion back to `str` does not fail.
#[verifier::external_body]
fn path_extension(s: &str) -> (r: String)
    ensures
        r@ == path_extension_of(s@),
{
    std::path::Path::new(s).extension().and_then(|e| e.to_str()).unwrap_or("").to_string()
}

/// The one-character string holding the hex digit of `d`.
fn hex_digit_str(d: u64) -> (r: &'static str)
    requires
        d < 16,
    ensures
        r@ == seq![hex_digit(d as nat)],
{
    let r = match d {
        0 => "0",
        1 => "1",
        2 => "2",
        3 => "3",
        4 => "4",
        5 => "5",
        6 => "6",
        7 => "7",
        8 => "8",
        9 => "9",
        10 => "a",
        11 => "b",
        12 => "c",
        13 => "d",
        14 => "e",
        _ => "f",
    };
    proof {
        reveal_strlit("0");
        reveal_strlit("1");
        reveal_strlit("2");
        reveal_strlit("3");
        reveal_strlit("4");
        reveal_strlit("5");
        reveal_strlit("6");
        reveal_strlit("7");
        reveal_strlit("8");
        reveal_strlit("9");
        reveal_strlit("a");
        reveal_strlit("b");
        reveal_strlit("c");
        reveal_strlit("d");
        reveal_strlit("e");
        reveal_strlit("f");
    }
    assert(r@ =~= seq![hex_digit(d as nat)]);
    r
}

/// Renders `n` in lowercase hexadecimal without leading zeros.
pub fn to_lower_hex(n: u64) -> (r: String)
    ensures
        r@ == lower_hex(n as nat),
    decreases n,
{
    if n < 16 {
        String::from_str(hex_digit_str(n))
    } else {
        let mut s = to_lower_hex(n / 16);
        s.append(hex_digit_str(n % 16));
        s
    }
}

/// Builds the stored name from a hash value and an extension.
pub fn name_from_parts(hash: u64, ext: &str) -> (r: String)
    ensures
        r@ == name_from_parts_spec(hash, ext@),
{
    let mut name = to_lower_hex(hash);
    if ext.unicode_len() > 0 {
        name.append(".");
        name.append(ext);
        proof {
            reveal_strlit(".");
        }
        assert(name@ =~= lower_hex(hash as nat) + seq!['.'] + ext@);
    }
    name
}

/// The obfuscated local name for the downloader's proposed file name.
pub fn obfuscated_filename(raw: &str) -> (r: String)
    ensures
        r@ == obfuscated_name(raw@),
{
    let hash = xxh3_hash(raw);
    let ext = path_extension(raw);
    name_from_parts(hash, ext.as_str())
}

/// The text of a byte sequence as `String::from_utf8_lossy` decodes it.
pub uninterp spec fn utf8_lossy_of(b: Seq<u8>) -> Seq<char>;

/// A text with leading and trailing white space removed, as `str::trim` does.
pub uninterp spec fn trim_of(s: Seq<char>) -> Seq<char>;

/// The proposed file name that the downloader printed: its output decoded
/// and trimmed.
pub open spec fn printed_name(stdout: Seq<u8>) -> Seq<char> {
    trim_of(utf8_lossy_of(stdout))
}

/// Relies on std::string::String::from_utf8_lossy: the bytes decoded as
/// UTF-8, invalid sequences replaced, a function of the bytes alone.
#[verifier::external_body]
fn decode_lossy(b: &[u8]) -> (r: String)
    ensures
        r@ == utf8_lossy_of(b@),
{
    String::from_utf8_lossy(b).into_owned()
}

/// Relies on str::trim: the text without leading and trailing white space.
#[verifier::external_body]
fn trim_text(s: &str) -> (r: String)
    ensures
        r@ == trim_of(s@),
{
    s.trim().to_string()
}

/// The local name for the file that the downloader announced on its
/// standard output when asked for the name it would write.
pub fn filename_from_output(stdout: &[u8]) -> (r: String)
    ensures
        r@ == obfuscated_name(printed_name(stdout@)),
{
    let text = decode_lossy(stdout);
    let raw = trim_text(text.as_str());
    obfuscated_filename(raw.as_str())
}

/// No lowercase hex rendering holds a `.`.
pub proof fn lemma_lower_hex_has_no_dot(n: nat)
    ensures
        !lower_hex(n).contains('.'),
    decreases n,
{
    if n >= 16 {
        lemma_lower_hex_has_no_dot(n / 16);
        assert forall|i: int| 0 <= i < lower_hex(n).len() implies lower_hex(n)[i] != '.' by {
            if i < lower_hex(n / 16).len() {
                assert(lower_hex(n)[i] == lower_hex(n / 16)[i]);
            }
        }
    }
}

/// The obfuscated name depends on the proposed name alone: equal proposed
/// names always give equal stored names.
pub proof fn lemma_obfuscation_deterministic(a: Seq<char>, b: Seq<char>)
    requires
        a == b,
    ensures
        obfuscated_name(a) == obfuscated_name(b),
{
}

/// Where the proposed name has an extension, the obfuscated name ends with
/// `.` and that extension, after a hex part that holds no `.`; where it has
/// none, the obfuscated name holds no `.` at all.
pub proof fn lemma_extension_preserved(raw: Seq<char>)
    ensures
        ({
            let ext = path_extension_of(raw);
            let name = obfuscated_name(raw);
            let hex = lower_hex(xxh3_of(raw) as nat);
            &&& ext.len() > 0 ==> name == hex + seq!['.'] + ext && !hex.contains('.')
            &&& ext.len() == 0 ==> !name.contains('.')
        }),
{
    lemma_lower_hex_has_no_dot(xxh3_of(raw) as nat);
}

} // verus!
