//! The wire format between this system and the renderer: one length-prefixed
//! frame goes out, and text comes back until the renderer closes the
//! connection.

use crate::error::RenderingError;
use crate::json::{
    escaped_markup, json_string, json_string_encoding, lemma_escaped_markup_is_markup_free,
    markup_free,
};
use vstd::prelude::*;
use vstd::string::*;
use vstd::utf8::encode_utf8;

verus! {

/// The part of a request target that the renderer routes on.
#[derive(Debug, Clone, PartialEq, Eq)]
pub struct RequestUrl {
    pub path: String,
    pub query: Option<String>,
}

/// The metadata that precedes the payload in a frame.
#[derive(Debug, Clone, PartialEq, Eq)]
pub struct RequestEnvelope {
    /// Tells the calls apart in diagnostics; the protocol does not depend on it.
    pub request_id: String,
    /// The renderer module for this call alone, if one was asked for.
    pub request_renderer: Option<String>,
    pub url: RequestUrl,
}

/// The characters of an optional string slice.
pub open spec fn optional_str(text: Option<&str>) -> Option<Seq<char>> {
    match text {
        Some(t) => Some(t@),
        None => None,
    }
}

impl RequestUrl {
    /// Copies a path and a query, if there is one.
    pub fn new(path: &str, query: Option<&str>) -> (res: RequestUrl)
        ensures
            res.path@ == path@,
            optional_text(res.query) == optional_str(query),
    {
        RequestUrl {
            path: path.to_owned(),
            query: match query {
                Some(query) => Some(query.to_owned()),
                None => None,
            },
        }
    }
}

/// The characters of an optional text.
pub open spec fn optional_text(text: Option<String>) -> Option<Seq<char>> {
    match text {
        Some(t) => Some(t@),
        None => None,
    }
}

/// The text of a JSON value, or `null` where there is no value.
pub open spec fn json_or_null(value: Option<Seq<u8>>) -> Seq<u8> {
    match value {
        Some(v) => v,
        None => encode_utf8("null"@),
    }
}

/// The compact JSON object that carries a request's metadata, made of the
/// JSON texts of its four values: `requestId`, `requestRenderer` and `url`,
/// the last an object of `path` and `query`.
pub open spec fn envelope_bytes(
    request_id: Seq<u8>,
    request_renderer: Option<Seq<u8>>,
    path: Seq<u8>,
    query: Option<Seq<u8>>,
) -> Seq<u8> {
    encode_utf8("{\"requestId\":"@) + request_id + encode_utf8(",\"requestRenderer\":"@)
        + json_or_null(request_renderer) + encode_utf8(",\"url\":{\"path\":"@) + path
        + encode_utf8(",\"query\":"@) + json_or_null(query) + encode_utf8("}}"@)
}

/// The JSON string literal for a text, if there is one.
pub open spec fn json_optional_string(text: Option<Seq<char>>) -> Option<Seq<u8>> {
    match text {
        Some(t) => Some(json_string_encoding(t)),
        None => None,
    }
}

/// The compact JSON object that carries a request's metadata: each text as
/// a JSON string literal, `null` for a text that is not there.
pub open spec fn envelope_json(
    request_id: Seq<char>,
    request_renderer: Option<Seq<char>>,
    path: Seq<char>,
    query: Option<Seq<char>>,
) -> Seq<u8> {
    envelope_bytes(
        json_string_encoding(request_id),
        json_optional_string(request_renderer),
        json_string_encoding(path),
        json_optional_string(query),
    )
}

/// The bytes of an optional vector.
pub open spec fn optional_vec(bytes: Option<Vec<u8>>) -> Option<Seq<u8>> {
    match bytes {
        Some(b) => Some(b@),
        None => None,
    }
}

/// The bytes of an optional slice.
pub open spec fn optional_bytes(bytes: Option<&[u8]>) -> Option<Seq<u8>> {
    match bytes {
        Some(b) => Some(b@),
        None => None,
    }
}

/// Appends `bytes` to `out`.
fn append_bytes(out: &mut Vec<u8>, bytes: &[u8])
    ensures
        final(out)@ == old(out)@ + bytes@,
{
    let mut i: usize = 0;
    while i < bytes.len()
        invariant
            i <= bytes.len(),
            out@ == old(out)@ + bytes@.take(i as int),
        decreases bytes.len() - i,
    {
        out.push(bytes[i]);
        assert(bytes@.take(i + 1) =~= bytes@.take(i as int).push(bytes@[i as int]));
        i += 1;
    }
    assert(bytes@.take(i as int) =~= bytes@);
}

/// Appends the UTF-8 bytes of `text` to `out`.
fn append_text(out: &mut Vec<u8>, text: &str)
    ensures
        final(out)@ == old(out)@ + encode_utf8(text@),
{
    append_bytes(out, text.as_bytes());
}

/// Appends the text of a JSON value, or `null` where there is none.
fn append_json_or_null(out: &mut Vec<u8>, value: Option<&[u8]>)
    ensures
        final(out)@ == old(out)@ + json_or_null(optional_bytes(value)),
{
    match value {
        Some(bytes) => append_bytes(out, bytes),
        None => append_text(out, "null"),
    }
}

/// Writes the metadata of a request as a compact JSON object, given the JSON
/// texts of its values: `requestId`, `requestRenderer` and `url`, the last
/// with `path` and `query`. A value that is not there is written as `null`.
pub fn write_envelope(
    request_id: &[u8],
    request_renderer: Option<&[u8]>,
    path: &[u8],
    query: Option<&[u8]>,
) -> (res: Vec<u8>)
    ensures
        res@ == envelope_bytes(
            request_id@,
            optional_bytes(request_renderer),
            path@,
            optional_bytes(query),
        ),
{
    let mut out: Vec<u8> = Vec::new();
    append_text(&mut out, "{\"requestId\":");
    append_bytes(&mut out, request_id);
    append_text(&mut out, ",\"requestRenderer\":");
    append_json_or_null(&mut out, request_renderer);
    append_text(&mut out, ",\"url\":{\"path\":");
    append_bytes(&mut out, path);
    append_text(&mut out, ",\"query\":");
    append_json_or_null(&mut out, query);
    append_text(&mut out, "}}");
    out
}

/// The JSON string literal for `text`, if there is a text.
fn json_optional(text: &Option<String>) -> (res: Result<Option<Vec<u8>>, serde_json::Error>)
    ensures
        res matches Ok(bytes) && optional_vec(bytes) == json_optional_string(optional_text(*text)),
{
    match text {
        Some(t) => match json_string(t.as_str()) {
            Ok(bytes) => Ok(Some(bytes)),
            Err(err) => Err(err),
        },
        None => Ok(None),
    }
}

/// The slice of an optional vector.
fn as_optional_slice(bytes: &Option<Vec<u8>>) -> (res: Option<&[u8]>)
    ensures
        optional_bytes(res) == optional_vec(*bytes),
{
    match bytes {
        Some(b) => Some(b.as_slice()),
        None => None,
    }
}

impl RequestEnvelope {
    /// The bytes that stand for this envelope in a frame.
    pub open spec fn json(&self) -> Seq<u8> {
        envelope_json(
            self.request_id@,
            optional_text(self.request_renderer),
            self.url.path@,
            optional_text(self.url.query),
        )
    }

    /// Writes the envelope as a compact JSON object, each of its texts as a
    /// JSON string literal. Every envelope can be written.
    pub fn to_json(&self) -> (res: Result<Vec<u8>, serde_json::Error>)
        ensures
            res matches Ok(bytes) && bytes@ == self.json(),
    {
        let request_id = match json_string(self.request_id.as_str()) {
            Ok(bytes) => bytes,
            Err(err) => {
                return Err(err);
            },
        };
        let request_renderer = match json_optional(&self.request_renderer) {
            Ok(bytes) => bytes,
            Err(err) => {
                return Err(err);
            },
        };
        let path = match json_string(self.url.path.as_str()) {
            Ok(bytes) => bytes,
            Err(err) => {
                return Err(err);
            },
        };
        let query = match json_optional(&self.url.query) {
            Ok(bytes) => bytes,
            Err(err) => {
                return Err(err);
            },
        };
        Ok(
            write_envelope(
                request_id.as_slice(),
                as_optional_slice(&request_renderer),
                path.as_slice(),
                as_optional_slice(&query),
            ),
        )
    }
}

/// One more than the largest length that a frame's header can carry.
pub const LENGTH_LIMIT: u64 = 0x1_0000_0000;

/// The four bytes of `n`, most significant first.
pub open spec fn big_endian(n: nat) -> Seq<u8>
    recommends
        n < LENGTH_LIMIT,
{
    seq![
        (n / 0x100_0000) as u8,
        (n / 0x1_0000 % 0x100) as u8,
        (n / 0x100 % 0x100) as u8,
        (n % 0x100) as u8,
    ]
}

/// The number that four bytes stand for, most significant first.
pub open spec fn big_endian_value(bytes: Seq<u8>) -> nat
    recommends
        bytes.len() == 4,
{
    (bytes[0] as nat) * 0x100_0000 + (bytes[1] as nat) * 0x1_0000 + (bytes[2] as nat) * 0x100
        + (bytes[3] as nat)
}

/// What the header says of a part that is `len` bytes long: the low 32 bits
/// of its length.
pub open spec fn length_field(len: nat) -> Seq<u8> {
    big_endian(len % (LENGTH_LIMIT as nat))
}

/// A frame: the length of the metadata, the length of the payload, the
/// metadata, the payload.
pub open spec fn frame_bytes(meta: Seq<u8>, data: Seq<u8>) -> Seq<u8> {
    length_field(meta.len()) + length_field(data.len()) + meta + data
}

/// The metadata and the payload of a frame, where `frame` is one: eight bytes
/// of header, then exactly as many bytes as the header announces.
pub open spec fn frame_parts(frame: Seq<u8>) -> Option<(Seq<u8>, Seq<u8>)> {
    if frame.len() < 8 {
        None
    } else {
        let meta_len = big_endian_value(frame.subrange(0, 4));
        let data_len = big_endian_value(frame.subrange(4, 8));
        if frame.len() == 8 + meta_len + data_len {
            Some(
                (
                    frame.subrange(8, 8 + meta_len as int),
                    frame.subrange(8 + meta_len as int, frame.len() as int),
                ),
            )
        } else {
            None
        }
    }
}

/// Four bytes written most significant first read back as the same number.
pub proof fn lemma_big_endian_round_trip(n: nat)
    requires
        n < LENGTH_LIMIT,
    ensures
        big_endian(n).len() == 4,
        big_endian_value(big_endian(n)) == n,
{
}

/// The four parts of a concatenation, cut out again where they were joined.
proof fn lemma_parts_of_concat(a: Seq<u8>, b: Seq<u8>, c: Seq<u8>, d: Seq<u8>)
    requires
        a.len() == 4,
        b.len() == 4,
    ensures
        (a + b + c + d).len() == 8 + c.len() + d.len(),
        (a + b + c + d).subrange(0, 4) == a,
        (a + b + c + d).subrange(4, 8) == b,
        (a + b + c + d).subrange(8, 8 + c.len() as int) == c,
        (a + b + c + d).subrange(8 + c.len() as int, (a + b + c + d).len() as int) == d,
{
    let all = a + b + c + d;
    assert(all.subrange(0, 4) =~= a);
    assert(all.subrange(4, 8) =~= b);
    assert(all.subrange(8, 8 + c.len() as int) =~= c);
    assert(all.subrange(8 + c.len() as int, all.len() as int) =~= d);
}

/// A frame whose two parts are each shorter than 4 GiB splits into the parts
/// that it was made of.
pub proof fn lemma_frame_round_trip(meta: Seq<u8>, data: Seq<u8>)
    requires
        meta.len() < LENGTH_LIMIT,
        data.len() < LENGTH_LIMIT,
    ensures
        frame_parts(frame_bytes(meta, data)) == Some((meta, data)),
{
    let meta_field = length_field(meta.len());
    let data_field = length_field(data.len());
    assert(meta_field == big_endian(meta.len())) by {
        assert(meta.len() % (LENGTH_LIMIT as nat) == meta.len());
    }
    assert(data_field == big_endian(data.len())) by {
        assert(data.len() % (LENGTH_LIMIT as nat) == data.len());
    }
    assert(meta_field.len() == 4 && big_endian_value(meta_field) == meta.len()) by {
        lemma_big_endian_round_trip(meta.len());
    }
    assert(data_field.len() == 4 && big_endian_value(data_field) == data.len()) by {
        lemma_big_endian_round_trip(data.len());
    }
    lemma_parts_of_concat(meta_field, data_field, meta, data);
    let frame = meta_field + data_field + meta + data;
    assert(frame_bytes(meta, data) == frame);
    assert(frame_parts(frame) == Some((meta, data)));
}

/// A frame whose payload was escaped splits into the metadata and that
/// payload again, and the payload holds no `<`, `>` or `&`: markup in what
/// the caller sent cannot be taken for markup of the renderer.
pub proof fn lemma_escaped_payload_round_trip(meta: Seq<u8>, payload: Seq<u8>)
    requires
        meta.len() < LENGTH_LIMIT,
        escaped_markup(payload).len() < LENGTH_LIMIT,
    ensures
        frame_parts(frame_bytes(meta, escaped_markup(payload))) == Some(
            (meta, escaped_markup(payload)),
        ),
        markup_free(escaped_markup(payload)),
{
    lemma_frame_round_trip(meta, escaped_markup(payload));
    lemma_escaped_markup_is_markup_free(payload);
}

/// Appends the header field for a part of `len` bytes.
fn append_length(out: &mut Vec<u8>, len: usize)
    ensures
        final(out)@ == old(out)@ + length_field(len as nat),
{
    let low: u64 = (len as u64) % LENGTH_LIMIT;
    out.push((low / 0x100_0000) as u8);
    out.push((low / 0x1_0000 % 0x100) as u8);
    out.push((low / 0x100 % 0x100) as u8);
    out.push((low % 0x100) as u8);
    assert(out@ =~= old(out)@ + length_field(len as nat));
}

/// Builds the frame that carries `meta` and `data`: both lengths as 32-bit
/// big-endian numbers, then the two parts. A length that does not fit in 32
/// bits is cut to its low 32 bits.
pub fn encode_frame(meta: &[u8], data: &[u8]) -> (res: Vec<u8>)
    ensures
        res@ == frame_bytes(meta@, data@),
{
    let mut out: Vec<u8> = Vec::new();
    append_length(&mut out, meta.len());
    append_length(&mut out, data.len());
    append_bytes(&mut out, meta);
    append_bytes(&mut out, data);
    assert(out@ =~= frame_bytes(meta@, data@));
    out
}

/// Reads the four bytes of `bytes` from `at` on as a big-endian number.
fn read_length(bytes: &[u8], at: usize) -> (res: u64)
    requires
        at + 4 <= bytes.len(),
    ensures
        res == big_endian_value(bytes@.subrange(at as int, at + 4)),
        res < LENGTH_LIMIT,
{
    let b0: u64 = bytes[at] as u64;
    let b1: u64 = bytes[at + 1] as u64;
    let b2: u64 = bytes[at + 2] as u64;
    let b3: u64 = bytes[at + 3] as u64;
    b0 * 0x100_0000 + b1 * 0x1_0000 + b2 * 0x100 + b3
}

/// Copies `bytes[from..to]`.
fn copy_range(bytes: &[u8], from: usize, to: usize) -> (res: Vec<u8>)
    requires
        from <= to <= bytes.len(),
    ensures
        res@ == bytes@.subrange(from as int, to as int),
{
    let mut out: Vec<u8> = Vec::new();
    let mut i: usize = from;
    while i < to
        invariant
            from <= i <= to <= bytes.len(),
            out@ == bytes@.subrange(from as int, i as int),
        decreases to - i,
    {
        out.push(bytes[i]);
        assert(bytes@.subrange(from as int, i + 1) =~= bytes@.subrange(from as int, i as int).push(
            bytes@[i as int],
        ));
        i += 1;
    }
    out
}

/// Splits a frame into its metadata and its payload, as the renderer does.
/// Gives `None` for bytes that are no frame.
pub fn split_frame(frame: &[u8]) -> (res: Option<(Vec<u8>, Vec<u8>)>)
    ensures
        match res {
            Some((meta, data)) => frame_parts(frame@) == Some((meta@, data@)),
            None => frame_parts(frame@) is None,
        },
{
    if frame.len() < 8 {
        return None;
    }
    let meta_len: u64 = read_length(frame, 0);
    let data_len: u64 = read_length(frame, 4);
    let rest: u64 = (frame.len() - 8) as u64;
    if rest < meta_len || rest - meta_len != data_len {
        return None;
    }
    let split: usize = 8 + meta_len as usize;
    let meta = copy_range(frame, 8, split);
    let data = copy_range(frame, split, frame.len());
    Some((meta, data))
}

/// Whether a response reports an exception: it begins with `ERROR:`.
pub open spec fn is_error_response(response: Seq<char>) -> bool {
    response.len() >= 6 && response.subrange(0, 6) == "ERROR:"@
}

/// The description of the exception in a response that reports one:
/// everything after the marker.
pub open spec fn exception_description(response: Seq<char>) -> Seq<char>
    recommends
        is_error_response(response),
{
    response.subrange(6, response.len() as int)
}

/// Where the first `:` of `text` stands; the length of `text` if it has none.
pub open spec fn first_colon(text: Seq<char>) -> int
    decreases text.len(),
{
    if text.len() == 0 {
        0
    } else if text[0] == ':' {
        0
    } else {
        1 + first_colon(text.drop_first())
    }
}

/// In a response that reports an exception the description is what follows
/// the first colon, and the word before that colon is `ERROR`.
pub proof fn lemma_description_follows_first_colon(response: Seq<char>)
    requires
        is_error_response(response),
    ensures
        first_colon(response) == 5,
        response.subrange(0, first_colon(response)) == "ERROR"@,
        exception_description(response) == response.subrange(
            first_colon(response) + 1,
            response.len() as int,
        ),
{
    reveal_strlit("ERROR:");
    reveal_strlit("ERROR");
    let marker = response.subrange(0, 6);
    assert(marker[0] == 'E' && marker[1] == 'R' && marker[2] == 'R' && marker[3] == 'O'
        && marker[4] == 'R' && marker[5] == ':');
    let r1 = response.drop_first();
    let r2 = r1.drop_first();
    let r3 = r2.drop_first();
    let r4 = r3.drop_first();
    let r5 = r4.drop_first();
    assert(r5[0] == marker[5]);
    assert(r4[0] == marker[4]);
    assert(r3[0] == marker[3]);
    assert(r2[0] == marker[2]);
    assert(r1[0] == marker[1]);
    assert(response[0] == marker[0]);
    assert(first_colon(r5) == 0);
    assert(first_colon(r4) == 1);
    assert(first_colon(r3) == 2);
    assert(first_colon(r2) == 3);
    assert(first_colon(r1) == 4);
    assert(response.subrange(0, 5) =~= "ERROR"@);
}

/// Whether `result` is what `response` means: the exception that it reports,
/// with the description that follows the marker, or else the response itself
/// as the rendered output.
pub open spec fn decodes_to(response: String, result: Result<String, RenderingError>) -> bool {
    if is_error_response(response@) {
        result matches Err(RenderingError::JsExceptionDuringRendering(description))
            && description@ == exception_description(response@)
    } else {
        result == Ok::<String, RenderingError>(response)
    }
}

/// Whether `text` begins with `ERROR:`.
fn has_error_marker(text: &str, len: usize) -> (res: bool)
    requires
        len == text@.len(),
    ensures
        res == is_error_response(text@),
{
    proof {
        reveal_strlit("ERROR:");
    }
    if len < 6 {
        return false;
    }
    let res = text.get_char(0) == 'E' && text.get_char(1) == 'R' && text.get_char(2) == 'R'
        && text.get_char(3) == 'O' && text.get_char(4) == 'R' && text.get_char(5) == ':';
    proof {
        let marker = text@.subrange(0, 6);
        if res {
            assert(marker =~= "ERROR:"@);
        } else {
            assert(marker[0] == text@[0] && marker[1] == text@[1] && marker[2] == text@[2]
                && marker[3] == text@[3] && marker[4] == text@[4] && marker[5] == text@[5]);
        }
    }
    res
}

/// Reads what the renderer sent back. Text that begins with `ERROR:` reports
/// an exception, described by what follows the marker; any other text is the
/// rendered output and is handed on as it is.
pub fn decode_response(response: String) -> (res: Result<String, RenderingError>)
    ensures
        decodes_to(response, res),
{
    let len = response.as_str().unicode_len();
    if has_error_marker(response.as_str(), len) {
        let description = String::from_str(response.as_str().substring_char(6, len));
        Err(RenderingError::JsExceptionDuringRendering(description))
    } else {
        Ok(response)
    }
}

} // verus!
