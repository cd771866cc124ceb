//! Text in JSON.

use vstd::prelude::*;
use vstd::utf8::encode_utf8;

verus! {

/// `serde_json::Error`, carried through and never looked into.
#[verifier::external_type_specification]
#[verifier::external_body]
pub struct ExJsonError(serde_json::Error);

/// The lower-case hexadecimal digit of a number below sixteen.
pub open spec fn hex_digit(n: int) -> u8 {
    if n < 10 {
        (0x30 + n) as u8
    } else {
        (0x57 + n) as u8
    }
}

/// How a byte of a text is written inside a JSON string: quotes, backslashes and control
/// characters are escaped, and every other byte stands for itself.
pub open spec fn escaped_byte(b: u8) -> Seq<u8> {
    if b == 0x22 || b == 0x5c {
        seq![0x5c, b]
    } else if b == 0x08 {
        seq![0x5c, 0x62]
    } else if b == 0x09 {
        seq![0x5c, 0x74]
    } else if b == 0x0a {
        seq![0x5c, 0x6e]
    } else if b == 0x0c {
        seq![0x5c, 0x66]
    } else if b == 0x0d {
        seq![0x5c, 0x72]
    } else if b < 0x20 {
        seq![0x5c, 0x75, 0x30, 0x30, hex_digit(b as int / 16), hex_digit(b as int % 16)]
    } else {
        seq![b]
    }
}

pub open spec fn escaped(bytes: Seq<u8>) -> Seq<u8>
    decreases bytes.len(),
{
    if bytes.len() == 0 {
        Seq::empty()
    } else {
        escaped(bytes.drop_last()) + escaped_byte(bytes.last())
    }
}

/// A text as a JSON string.
pub open spec fn json_string(text: Seq<char>) -> Seq<u8> {
    seq![0x22u8] + escaped(encode_utf8(text)) + seq![0x22u8]
}

/// `serde_json::to_vec` of a text: it writes the text's bytes between quotes, with the escapes of
/// `escaped_byte`, and does not fail, since writing to a vector does not.
#[verifier::external_body]
pub(crate) fn json_text(text: &str) -> (r: Result<Vec<u8>, serde_json::Error>)
    ensures
        r is Ok,
        r->Ok_0@ == json_string(text@),
{
    serde_json::to_vec(text)
}

/// The texts of a list, as sequences of characters.
pub open spec fn texts(list: Seq<String>) -> Seq<Seq<char>> {
    list.map_values(|s: String| s@)
}

/// The list of texts that `json` writes, where it writes one: what `serde_json::from_str` makes of
/// it.
pub uninterp spec fn listed_texts(json: Seq<char>) -> Option<Seq<Seq<char>>>;

/// `serde_json::from_str` to a list of texts: the list that the JSON text writes, or an error where
/// it writes none.  The list depends on the text alone; which texts write one is left to
/// `serde_json`.
#[verifier::external_body]
pub(crate) fn read_texts(json: &str) -> (r: Result<Vec<String>, serde_json::Error>)
    ensures
        match r {
            Ok(list) => listed_texts(json@) == Some(texts(list@)),
            Err(_) => listed_texts(json@) is None,
        },
{
    serde_json::from_str(json)
}

/// Appends the bytes of a text.
pub fn push_text(bytes: &mut Vec<u8>, text: &str)
    ensures
        final(bytes)@ == old(bytes)@ + encode_utf8(text@),
{
    push_bytes(bytes, text.as_bytes());
}

/// Appends bytes.
pub fn push_bytes(bytes: &mut Vec<u8>, more: &[u8])
    ensures
        final(bytes)@ == old(bytes)@ + more@,
{
    let mut i: usize = 0;
    assert(old(bytes)@ + more@.take(0) == old(bytes)@);
    while i < more.len()
        invariant
            i <= more@.len(),
            bytes@ == old(bytes)@ + more@.take(i as int),
        decreases more@.len() - i,
    {
        bytes.push(more[i]);
        assert(old(bytes)@ + more@.take(i + 1) == (old(bytes)@ + more@.take(i as int)).push(
            more@[i as int],
        ));
        i += 1;
    }
    assert(more@.take(more@.len() as int) == more@);
}

/// The object `{"error":text}`.
pub open spec fn error_object(text: Seq<char>) -> Seq<u8> {
    encode_utf8("{\"error\":"@) + json_string(text) + encode_utf8("}"@)
}

/// An error as a JSON object.
pub fn error_json(text: &str) -> (r: Vec<u8>)
    ensures
        r@ == error_object(text@),
{
    let mut body: Vec<u8> = Vec::new();
    push_text(&mut body, "{\"error\":");
    assert(body@ == encode_utf8("{\"error\":"@));
    push_string(&mut body, text);
    push_text(&mut body, "}");
    body
}

/// Appends a text as a JSON string.
pub fn push_string(bytes: &mut Vec<u8>, text: &str)
    ensures
        final(bytes)@ == old(bytes)@ + json_string(text@),
{
    match json_text(text) {
        Ok(encoded) => push_bytes(bytes, encoded.as_slice()),
        Err(_) => {},
    }
}

/// Texts are escaped byte by byte: printable bytes stay, and what is escaped begins with a backslash
/// and holds no quote that is not behind one.
pub proof fn law_escaped(a: Seq<u8>, b: u8)
    ensures
        escaped(a.push(b)) == escaped(a) + escaped_byte(b),
        b >= 0x20 && b != 0x22 && b != 0x5c ==> escaped_byte(b) == seq![b],
        b < 0x20 || b == 0x22 || b == 0x5c ==> escaped_byte(b).len() >= 2 && escaped_byte(b)[0]
            == 0x5c,
        b == 0x22 || b == 0x5c ==> escaped_byte(b) == seq![0x5cu8, b],
        escaped(Seq::empty()) == Seq::<u8>::empty(),
{
    assert(a.push(b).drop_last() == a);
}

} // verus!
