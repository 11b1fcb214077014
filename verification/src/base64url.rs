//! The base64url alphabet of RFC 4648, unpadded, as JSON web keys use it.
use vstd::prelude::*;

verus! {

/// The six bits that a character of the alphabet stands for.
pub open spec fn sextet(c: char) -> Option<int> {
    if 'A' <= c <= 'Z' {
        Some(c as int - 'A' as int)
    } else if 'a' <= c <= 'z' {
        Some(c as int - 'a' as int + 26)
    } else if '0' <= c <= '9' {
        Some(c as int - '0' as int + 52)
    } else if c == '-' {
        Some(62)
    } else if c == '_' {
        Some(63)
    } else {
        None
    }
}

/// The value of the character at an index, where the text is base64url.
pub open spec fn sextet_at(text: Seq<char>, i: int) -> int {
    sextet(text[i]).unwrap()
}

/// Text is base64url where every character is of the alphabet, no character
/// is left over on its own, and the bits that fill up the last character are
/// zero.
pub open spec fn is_base64url(text: Seq<char>) -> bool {
    let n = text.len() as int;
    &&& forall|i: int| 0 <= i < n ==> (#[trigger] sextet(text[i])) is Some
    &&& n % 4 != 1
    &&& n % 4 == 2 ==> sextet_at(text, n - 1) % 16 == 0
    &&& n % 4 == 3 ==> sextet_at(text, n - 1) % 4 == 0
}

/// The byte at an index: every four characters carry three bytes.
pub open spec fn octet_at(text: Seq<char>, i: int) -> int {
    let first = i / 3 * 4;
    if i % 3 == 0 {
        sextet_at(text, first) * 4 + sextet_at(text, first + 1) / 16
    } else if i % 3 == 1 {
        sextet_at(text, first + 1) % 16 * 16 + sextet_at(text, first + 2) / 4
    } else {
        sextet_at(text, first + 2) % 4 * 64 + sextet_at(text, first + 3)
    }
}

/// The bytes that base64url text carries.
pub open spec fn octets(text: Seq<char>) -> Seq<u8> {
    Seq::new((text.len() * 3 / 4) as nat, |i: int| octet_at(text, i) as u8)
}

/// What a text decodes to, where it is base64url.
pub open spec fn decoded(text: Seq<char>) -> Option<Seq<u8>> {
    if is_base64url(text) {
        Some(octets(text))
    } else {
        None
    }
}

fn value(c: char) -> (value: Option<u8>)
    ensures
        value is Some <==> sextet(c) is Some,
        value matches Some(v) ==> v as int == sextet(c).unwrap() && v < 64,
{
    if 'A' <= c && c <= 'Z' {
        Some((c as u32 - 'A' as u32) as u8)
    } else if 'a' <= c && c <= 'z' {
        Some((c as u32 - 'a' as u32 + 26) as u8)
    } else if '0' <= c && c <= '9' {
        Some((c as u32 - '0' as u32 + 52) as u8)
    } else if c == '-' {
        Some(62)
    } else if c == '_' {
        Some(63)
    } else {
        None
    }
}

/// The values of all characters, where each is of the alphabet.
fn values(text: &str) -> (values: Option<Vec<u8>>)
    ensures
        values is Some <==> forall|i: int|
            0 <= i < text@.len() ==> (#[trigger] sextet(text@[i])) is Some,
        values matches Some(v) ==> {
            &&& v@.len() == text@.len()
            &&& forall|i: int|
                0 <= i < text@.len() ==> #[trigger] v@[i] as int == sextet_at(text@, i) && v@[i]
                    < 64
        },
{
    let mut out: Vec<u8> = Vec::new();
    for c in it: text.chars()
        invariant
            it.seq() == text@,
            out@.len() == it.index(),
            forall|i: int|
                0 <= i < out@.len() ==> (#[trigger] sextet(text@[i])) is Some,
            forall|i: int|
                0 <= i < out@.len() ==> #[trigger] out@[i] as int == sextet_at(text@, i) && out@[i]
                    < 64,
    {
        match value(c) {
            Some(v) => out.push(v),
            None => {
                assert(sextet(text@[it.index() as int]) is None);
                return None;
            },
        }
    }
    Some(out)
}

/// Decode base64url text.
pub fn decode(text: &str) -> (bytes: Option<Vec<u8>>)
    ensures
        match bytes {
            Some(bytes) => decoded(text@) == Some(bytes@),
            None => decoded(text@) is None,
        },
{
    let six = match values(text) {
        Some(six) => six,
        None => return None,
    };
    let n = six.len();
    let rest: usize = n % 4;
    if rest == 1 {
        return None;
    }
    if rest == 2 && six[n - 1] % 16 != 0 {
        return None;
    }
    if rest == 3 && six[n - 1] % 4 != 0 {
        return None;
    }
    let count: usize = n / 4 * 3 + if rest == 0 { 0 } else { rest - 1 };
    let mut out: Vec<u8> = Vec::new();
    let mut i: usize = 0;
    while i < count
        invariant
            i <= count,
            out@.len() == i,
            n == six@.len(),
            n == text@.len(),
            rest == n % 4,
            rest != 1,
            count == n * 3 / 4,
            forall|j: int|
                0 <= j < n ==> #[trigger] six@[j] as int == sextet_at(text@, j) && six@[j] < 64,
            forall|j: int| 0 <= j < i ==> #[trigger] out@[j] == octet_at(text@, j) as u8,
        decreases count - i,
    {
        let first: usize = i / 3 * 4;
        let octet: u8 = if i % 3 == 0 {
            six[first] * 4 + six[first + 1] / 16
        } else if i % 3 == 1 {
            six[first + 1] % 16 * 16 + six[first + 2] / 4
        } else {
            six[first + 2] % 4 * 64 + six[first + 3]
        };
        out.push(octet);
        i += 1;
    }
    assert(out@ =~= octets(text@));
    Some(out)
}

} // verus!
