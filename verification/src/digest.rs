//! SHA-512 digests of file contents and their comparison with the hex text
//! that the registry declares.

use sha2::{Digest, Sha512};
use vstd::prelude::*;
use vstd::string::{is_ascii_spec_bytes, StringExecFns, StringSliceAdditionalSpecFns};
use vstd::utf8::is_ascii_chars;

verus! {

/// The SHA-512 digest of `data`, as `sha2` computes it.
pub uninterp spec fn sha512_digest(data: Seq<u8>) -> Seq<u8>;

/// Calls `sha2::Sha512::digest`. The result is the SHA-512 digest of `data`,
/// a function of the bytes alone.
#[verifier::external_body]
pub(crate) fn sha512(data: &[u8]) -> (digest: Vec<u8>)
    ensures
        digest@ == sha512_digest(data@),
{
    Sha512::digest(data).to_vec()
}

/// The lower-case hex digit for a value below sixteen.
pub open spec fn hex_digit(nibble: int) -> char {
    if nibble < 10 {
        (48 + nibble) as char
    } else {
        (87 + nibble) as char
    }
}

/// The lower-case hex text of `bytes`: two digits for each byte, the high
/// half first.
pub open spec fn hex_text(bytes: Seq<u8>) -> Seq<char> {
    Seq::new(
        2 * bytes.len(),
        |i: int|
            if i % 2 == 0 {
                hex_digit(bytes[i / 2] as int / 16)
            } else {
                hex_digit(bytes[i / 2] as int % 16)
            },
    )
}

/// `c` with an ASCII capital letter made small, and any other character
/// unchanged.
pub open spec fn ascii_lower(c: char) -> char {
    if 'A' <= c <= 'Z' {
        (c as int + 32) as char
    } else {
        c
    }
}

/// Two texts are equal up to the case of their ASCII letters.
pub open spec fn same_ignoring_case(a: Seq<char>, b: Seq<char>) -> bool {
    &&& a.len() == b.len()
    &&& forall|i: int| 0 <= i < a.len() ==> ascii_lower(a[i]) == ascii_lower(b[i])
}

/// The digest `digest` is the one that the hex text `declared` names, in
/// either case of the letters.
pub open spec fn digest_declared(digest: Seq<u8>, declared: Seq<char>) -> bool {
    same_ignoring_case(hex_text(digest), declared)
}

/// The hex digit for a value below sixteen, as an ASCII byte.
fn hex_digit_byte(nibble: u8) -> (digit: u8)
    requires
        nibble < 16,
    ensures
        digit as char == hex_digit(nibble as int),
        digit < 128,
{
    if nibble < 10 {
        48 + nibble
    } else {
        87 + nibble
    }
}

/// The lower-case hex digit for a value below sixteen, as text.
fn hex_digit_str(nibble: u8) -> (digit: &'static str)
    requires
        nibble < 16,
    ensures
        digit@ == seq![hex_digit(nibble as int)],
{
    proof {
        reveal_strlit("0");
        reveal_strlit("1");
        reveal_strlit("2");
        reveal_strlit("3");
        reveal_strlit("4");
        reveal_strlit("5");
        reveal_strlit("6");
        reveal_strlit("7");
        reveal_strlit("8");
        reveal_strlit("9");
        reveal_strlit("a");
        reveal_strlit("b");
        reveal_strlit("c");
        reveal_strlit("d");
        reveal_strlit("e");
        reveal_strlit("f");
    }
    let digit = match nibble {
        0 => "0",
        1 => "1",
        2 => "2",
        3 => "3",
        4 => "4",
        5 => "5",
        6 => "6",
        7 => "7",
        8 => "8",
        9 => "9",
        10 => "a",
        11 => "b",
        12 => "c",
        13 => "d",
        14 => "e",
        _ => "f",
    };
    assert(digit@ =~= seq![hex_digit(nibble as int)]);
    digit
}

/// The lower-case hex text of `bytes`.
pub fn hex_of(bytes: &[u8]) -> (text: String)
    ensures
        text@ == hex_text(bytes@),
{
    let mut text = String::new();
    let mut i: usize = 0;
    assert(text@ =~= hex_text(bytes@.take(0)));
    while i < bytes.len()
        invariant
            0 <= i <= bytes@.len(),
            text@ == hex_text(bytes@.take(i as int)),
        decreases bytes@.len() - i,
    {
        let byte = bytes[i];
        let ghost before = text@;
        text.append(hex_digit_str(byte / 16));
        text.append(hex_digit_str(byte % 16));
        assert(text@ =~= hex_text(bytes@.take(i + 1))) by {
            assert forall|k: int| 0 <= k < 2 * i implies hex_text(bytes@.take(i + 1))[k]
                == before[k] by {
                assert(bytes@.take(i + 1)[k / 2] == bytes@.take(i as int)[k / 2]);
            }
        }
        i += 1;
    }
    assert(bytes@.take(bytes@.len() as int) =~= bytes@);
    text
}

/// An ASCII byte with a capital letter made small.
fn ascii_lower_byte(byte: u8) -> (lowered: u8)
    requires
        byte < 128,
    ensures
        lowered as char == ascii_lower(byte as char),
        lowered < 128,
{
    if 65 <= byte && byte <= 90 {
        byte + 32
    } else {
        byte
    }
}

/// Whether `declared` is the hex text of `digest`, in either case of the
/// letters.
pub fn digest_matches(digest: &[u8], declared: &str) -> (matches: bool)
    ensures
        matches == digest_declared(digest@, declared@),
{
    if !declared.is_ascii() {
        proof {
            let i = choose|i: int|
                0 <= i < declared@.len() && !('\0' <= #[trigger] declared@[i] <= '\u{7f}');
            if same_ignoring_case(hex_text(digest@), declared@) {
                assert(ascii_lower(hex_text(digest@)[i]) == ascii_lower(declared@[i]));
            }
        }
        return false;
    }
    let text = declared.as_bytes();
    proof {
        is_ascii_spec_bytes(declared);
    }
    if text.len() % 2 != 0 || text.len() / 2 != digest.len() {
        return false;
    }
    let mut i: usize = 0;
    while i < digest.len()
        invariant
            0 <= i <= digest@.len(),
            text@.len() == 2 * digest@.len(),
            text@.len() <= usize::MAX,
            text@.len() == declared@.len(),
            is_ascii_chars(declared@),
            forall|k: int| 0 <= k < text@.len() ==> text@[k] == declared@[k] as u8,
            forall|k: int|
                0 <= k < 2 * i ==> ascii_lower(hex_text(digest@)[k]) == ascii_lower(declared@[k]),
        decreases digest@.len() - i,
    {
        let byte = digest[i];
        let high = hex_digit_byte(byte / 16);
        let low = hex_digit_byte(byte % 16);
        let first = text[2 * i];
        let second = text[2 * i + 1];
        let same_high = ascii_lower_byte(first) == ascii_lower_byte(high);
        let same_low = ascii_lower_byte(second) == ascii_lower_byte(low);
        if !same_high || !same_low {
            return false;
        }
        i += 1;
    }
    true
}

/// Whether the SHA-512 digest of `bytes` is the one that `declared` names.
pub fn verify_sha512(bytes: &[u8], declared: &str) -> (matches: bool)
    ensures
        matches == digest_declared(sha512_digest(bytes@), declared@),
{
    let digest = sha512(bytes);
    digest_matches(digest.as_slice(), declared)
}

/// The lower-case hex text of the SHA-512 digest of `bytes`.
pub fn digest_text(bytes: &[u8]) -> (text: String)
    ensures
        text@ == hex_text(sha512_digest(bytes@)),
{
    let digest = sha512(bytes);
    hex_of(digest.as_slice())
}

} // verus!
