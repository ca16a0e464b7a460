use vstd::prelude::*;
use rand::Rng;
use crate::text::{ascii_chars, ascii_to_string};

verus! {

/// An ASCII letter or digit.
pub open spec fn is_alphanumeric(b: u8) -> bool {
    (65 <= b <= 90) || (97 <= b <= 122) || (48 <= b <= 57)
}

/// A lower-case hexadecimal digit.
pub open spec fn is_lower_hex(b: u8) -> bool {
    (48 <= b <= 57) || (97 <= b <= 102)
}

/// Where the hyphenated text of a UUID has its hyphens.
pub open spec fn is_uuid_hyphen_pos(i: int) -> bool {
    i == 8 || i == 13 || i == 18 || i == 23
}

/// Text made of ASCII letters and digits alone.
pub open spec fn alphanumeric_text(s: Seq<char>) -> bool {
    forall|i: int| 0 <= i < s.len() ==> #[trigger] s[i] == (s[i] as u8) as char && is_alphanumeric(s[i] as u8)
}

/// Text made of lower-case hex digits alone.
pub open spec fn hex_text(s: Seq<char>) -> bool {
    forall|i: int| 0 <= i < s.len() ==> #[trigger] s[i] == (s[i] as u8) as char && is_lower_hex(s[i] as u8)
}

/// The length of a generated token: a UUID's 32 hex digits.
pub const TOKEN_LEN: usize = 32;

/// Relies on rand's `Alphanumeric` distribution: each draw is one of the
/// ASCII letters and digits.
#[verifier::external_body]
fn random_alphanumeric() -> (b: u8)
    ensures
        is_alphanumeric(b),
{
    rand::thread_rng().sample(rand::distributions::Alphanumeric)
}

/// Relies on uuid's `Uuid::new_v4` and its `Display`, which writes the
/// lower-case hyphenated form: 36 characters, hyphens at 8, 13, 18 and 23,
/// hex digits elsewhere.
#[verifier::external_body]
fn new_uuid_text() -> (r: Vec<u8>)
    ensures
        uuid_text_shape(r@),
{
    uuid::Uuid::new_v4().to_string().into_bytes()
}

/// A random public id of `size` ASCII letters and digits.
pub fn generate_file_id(size: usize) -> (r: String)
    ensures
        r@.len() == size,
        alphanumeric_text(r@),
{
    let mut out: Vec<u8> = Vec::new();
    let mut i: usize = 0;
    while i < size
        invariant
            i <= size,
            out@.len() == i,
            forall|k: int| 0 <= k < i ==> is_alphanumeric(#[trigger] out@[k]),
        decreases size - i,
    {
        out.push(random_alphanumeric());
        i += 1;
    }
    let ghost bytes = out@;
    let r = ascii_to_string(out);
    assert forall|k: int| 0 <= k < size implies #[trigger] r@[k] == (r@[k] as u8) as char
        && is_alphanumeric(r@[k] as u8) by {
        assert(r@[k] == ascii_chars(bytes)[k]);
        assert(is_alphanumeric(bytes[k]));
    }
    r
}

/// The hyphenated text of a UUID: 36 bytes, hyphens at 8, 13, 18 and 23,
/// lower-case hex digits elsewhere.
pub open spec fn uuid_text_shape(t: Seq<u8>) -> bool {
    &&& t.len() == 36
    &&& forall|i: int|
        0 <= i < 36 ==> if is_uuid_hyphen_pos(i) {
            t[i] == 45u8
        } else {
            is_lower_hex(#[trigger] t[i])
        }
}

/// The hex digits of a UUID's hyphenated text, in order, without the hyphens.
pub open spec fn uuid_hex(t: Seq<u8>) -> Seq<u8> {
    t.subrange(0, 8) + t.subrange(9, 13) + t.subrange(14, 18) + t.subrange(19, 23) + t.subrange(
        24,
        36,
    )
}

/// Appends `text[start..end]` to `out`.
fn push_range(out: &mut Vec<u8>, text: &Vec<u8>, start: usize, end: usize)
    requires
        start <= end <= text@.len(),
    ensures
        final(out)@ == old(out)@ + text@.subrange(start as int, end as int),
{
    let ghost before = out@;
    let mut i: usize = start;
    while i < end
        invariant
            start <= i <= end <= text@.len(),
            out@ == before + text@.subrange(start as int, i as int),
        decreases end - i,
    {
        out.push(text[i]);
        i += 1;
        assert(text@.subrange(start as int, i as int) =~= text@.subrange(start as int, i - 1)
            + seq![text@[i - 1]]);
    }
}

/// The token that a UUID's hyphenated text stands for: its 32 hex digits.
pub fn token_from_uuid_text(text: &Vec<u8>) -> (r: String)
    requires
        uuid_text_shape(text@),
    ensures
        r@ == ascii_chars(uuid_hex(text@)),
        r@.len() == TOKEN_LEN,
        hex_text(r@),
{
    let mut out: Vec<u8> = Vec::new();
    push_range(&mut out, text, 0, 8);
    push_range(&mut out, text, 9, 13);
    push_range(&mut out, text, 14, 18);
    push_range(&mut out, text, 19, 23);
    push_range(&mut out, text, 24, 36);
    let ghost t = text@;
    assert(out@ =~= uuid_hex(t));
    assert forall|k: int| 0 <= k < 32 implies is_lower_hex(#[trigger] out@[k]) by {
        let src: int = if k < 8 {
            k
        } else if k < 12 {
            k + 1
        } else if k < 16 {
            k + 2
        } else if k < 20 {
            k + 3
        } else {
            k + 4
        };
        assert(out@[k] == t[src]);
        assert(!is_uuid_hyphen_pos(src));
        assert(is_lower_hex(t[src]));
    }
    let ghost bytes = out@;
    let r = ascii_to_string(out);
    assert forall|k: int| 0 <= k < TOKEN_LEN implies #[trigger] r@[k] == (r@[k] as u8) as char
        && is_lower_hex(r@[k] as u8) by {
        assert(r@[k] == ascii_chars(bytes)[k]);
        assert(is_lower_hex(bytes[k]));
    }
    r
}

/// A random token of `TOKEN_LEN` lower-case hex digits: a fresh UUID without
/// its hyphens. Storage ids and secrets are such tokens.
pub fn generate_token() -> (r: String)
    ensures
        r@.len() == TOKEN_LEN,
        hex_text(r@),
{
    let text = new_uuid_text();
    token_from_uuid_text(&text)
}

} // verus!
