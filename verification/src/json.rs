//! JSON text that is safe to embed in markup: strings are written as JSON
//! and every `<`, `>` and `&` leaves as a `\u00XX` escape.

use vstd::prelude::*;
use vstd::utf8::encode_utf8;

verus! {

/// `serde_json::Error`: why a value could not be written as JSON. It is
/// carried through as it is; nothing is known of what it holds.
#[verifier::external_type_specification]
#[verifier::external_body]
pub struct ExJsonError(serde_json::Error);

/// The byte that writes the hexadecimal digit `n`, in lower case.
pub open spec fn hex_digit(n: u8) -> u8
    recommends
        n < 16,
{
    if n < 10 {
        (0x30 + n) as u8
    } else {
        (0x61 + n - 10) as u8
    }
}

/// What one byte of a string is written as inside a JSON string literal:
/// `\"` and `\\` for the quote and the backslash; `\b`, `\t`, `\n`, `\f`
/// and `\r` for the control characters that have a short form; `\u00XX`,
/// with lower-case digits, for every other byte below `0x20`; the byte
/// itself for any other.
pub open spec fn json_escaped_byte(b: u8) -> Seq<u8> {
    if b == 0x22 {
        seq![0x5c, 0x22]
    } else if b == 0x5c {
        seq![0x5c, 0x5c]
    } else if b == 0x08 {
        seq![0x5c, 0x62]
    } else if b == 0x09 {
        seq![0x5c, 0x74]
    } else if b == 0x0a {
        seq![0x5c, 0x6e]
    } else if b == 0x0c {
        seq![0x5c, 0x66]
    } else if b == 0x0d {
        seq![0x5c, 0x72]
    } else if b < 0x20 {
        seq![0x5c, 0x75, 0x30, 0x30, hex_digit(b / 16), hex_digit(b % 16)]
    } else {
        seq![b]
    }
}

/// `bytes` with every byte written as it stands inside a JSON string
/// literal, in order.
pub open spec fn json_escaped(bytes: Seq<u8>) -> Seq<u8>
    decreases bytes.len(),
{
    if bytes.len() == 0 {
        Seq::empty()
    } else {
        json_escaped(bytes.drop_last()) + json_escaped_byte(bytes.last())
    }
}

/// The bytes of the compact JSON string literal that stands for `text`: a
/// quote, the UTF-8 bytes of the text with those escaped that JSON does not
/// take as they are, and a quote.
pub open spec fn json_string_encoding(text: Seq<char>) -> Seq<u8> {
    seq![0x22u8] + json_escaped(encode_utf8(text)) + seq![0x22u8]
}

/// `serde_json::to_vec` on a string slice. It writes into a vector of its
/// own, which takes every byte, so it succeeds on every string; the bytes
/// are the JSON string literal for `value`.
#[verifier::external_body]
pub(crate) fn json_string(value: &str) -> (res: Result<Vec<u8>, serde_json::Error>)
    ensures
        res is Ok,
        res matches Ok(bytes) ==> bytes@ == json_string_encoding(value@),
{
    serde_json::to_vec(value)
}

/// The text that the `Display` of a `serde_json::Error` writes for `err`.
pub uninterp spec fn json_error_description(err: serde_json::Error) -> Seq<char>;

/// `to_string` on a `serde_json::Error`: the text that its `Display`
/// writes, which depends on the error alone.
#[verifier::external_body]
pub(crate) fn json_error_text(err: &serde_json::Error) -> (res: String)
    ensures
        res@ == json_error_description(*err),
{
    err.to_string()
}

/// The byte `<`.
pub const LESS_THAN: u8 = 0x3c;

/// The byte `>`.
pub const GREATER_THAN: u8 = 0x3e;

/// The byte `&`.
pub const AMPERSAND: u8 = 0x26;

/// Whether `b` is one of the bytes that open or close markup: `<`, `>`, `&`.
pub open spec fn is_markup_byte(b: u8) -> bool {
    b == LESS_THAN || b == GREATER_THAN || b == AMPERSAND
}

/// What one byte is written as: `\u003c`, `\u003e` and `\u0026` for `<`, `>`
/// and `&`, the byte itself for any other.
pub open spec fn escaped_byte(b: u8) -> Seq<u8> {
    if b == LESS_THAN {
        seq![0x5c, 0x75, 0x30, 0x30, 0x33, 0x63]
    } else if b == GREATER_THAN {
        seq![0x5c, 0x75, 0x30, 0x30, 0x33, 0x65]
    } else if b == AMPERSAND {
        seq![0x5c, 0x75, 0x30, 0x30, 0x32, 0x36]
    } else {
        seq![b]
    }
}

/// `bytes` with every markup byte replaced by its escape, in order.
pub open spec fn escaped_markup(bytes: Seq<u8>) -> Seq<u8>
    decreases bytes.len(),
{
    if bytes.len() == 0 {
        Seq::empty()
    } else {
        escaped_markup(bytes.drop_last()) + escaped_byte(bytes.last())
    }
}

/// Whether no byte of `bytes` is a markup byte.
pub open spec fn markup_free(bytes: Seq<u8>) -> bool {
    forall|i: int| 0 <= i < bytes.len() ==> !is_markup_byte(#[trigger] bytes[i])
}

/// No `<`, `>` or `&` is left in escaped text, whatever went in.
pub proof fn lemma_escaped_markup_is_markup_free(bytes: Seq<u8>)
    ensures
        markup_free(escaped_markup(bytes)),
    decreases bytes.len(),
{
    if bytes.len() > 0 {
        lemma_escaped_markup_is_markup_free(bytes.drop_last());
        let head = escaped_markup(bytes.drop_last());
        let tail = escaped_byte(bytes.last());
        assert(markup_free(tail));
        assert forall|i: int| 0 <= i < (head + tail).len() implies !is_markup_byte(
            #[trigger] (head + tail)[i],
        ) by {
            if i < head.len() {
                assert((head + tail)[i] == head[i]);
            } else {
                assert((head + tail)[i] == tail[i - head.len()]);
            }
        }
    }
}

/// Text without markup bytes is left as it is.
pub proof fn lemma_escaped_markup_keeps_plain_text(bytes: Seq<u8>)
    requires
        markup_free(bytes),
    ensures
        escaped_markup(bytes) == bytes,
    decreases bytes.len(),
{
    if bytes.len() > 0 {
        assert(!is_markup_byte(bytes[bytes.len() - 1]));
        assert forall|i: int| 0 <= i < bytes.drop_last().len() implies !is_markup_byte(
            #[trigger] bytes.drop_last()[i],
        ) by {
            assert(bytes.drop_last()[i] == bytes[i]);
        }
        lemma_escaped_markup_keeps_plain_text(bytes.drop_last());
        assert(escaped_markup(bytes) =~= bytes);
    }
}

/// Replaces each `<`, `>` and `&` in `bytes` by its six-byte escape.
pub fn escape_markup(bytes: &[u8]) -> (res: Vec<u8>)
    ensures
        res@ == escaped_markup(bytes@),
{
    let mut res: Vec<u8> = Vec::new();
    let mut i: usize = 0;
    while i < bytes.len()
        invariant
            i <= bytes.len(),
            res@ == escaped_markup(bytes@.take(i as int)),
        decreases bytes.len() - i,
    {
        let b: u8 = bytes[i];
        proof {
            assert(bytes@.take(i + 1).drop_last() =~= bytes@.take(i as int));
            assert(bytes@.take(i + 1).last() == b);
        }
        let ghost before = res@;
        if b == LESS_THAN || b == GREATER_THAN || b == AMPERSAND {
            res.push(0x5c);
            res.push(0x75);
            res.push(0x30);
            res.push(0x30);
            if b == AMPERSAND {
                res.push(0x32);
                res.push(0x36);
            } else if b == LESS_THAN {
                res.push(0x33);
                res.push(0x63);
            } else {
                res.push(0x33);
                res.push(0x65);
            }
        } else {
            res.push(b);
        }
        assert(res@ =~= before + escaped_byte(b));
        i += 1;
    }
    assert(bytes@.take(i as int) =~= bytes@);
    res
}

/// Writes `value` as a JSON string literal in which no `<`, `>` or `&`
/// stands: each is written as its `\u00XX` escape. Every string can be
/// written.
pub fn to_vec(value: &str) -> (res: Result<Vec<u8>, serde_json::Error>)
    ensures
        res matches Ok(bytes) && bytes@ == escaped_markup(json_string_encoding(value@)),
{
    match json_string(value) {
        Ok(plain) => Ok(escape_markup(plain.as_slice())),
        Err(err) => Err(err),
    }
}

} // verus!
