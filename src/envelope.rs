use vstd::prelude::*;
use vstd::utf8::*;

use vstd::string::StringExecFns;

verus! {

/// Capacity of the receive buffer: a longer datagram keeps only its first
/// `CAPACITY` bytes.
pub const CAPACITY: usize = 2048;

/// Whether the characters form one complete JSON value, as rustc_serialize's
/// parser judges them.
pub uninterp spec fn is_json(s: Seq<char>) -> bool;

/// The JSON string literal that rustc_serialize's encoder writes for `s`.
pub uninterp spec fn json_quoted(s: Seq<char>) -> Seq<char>;

/// Most `[` and `{` that a text may hold for the parser to be run on it.
pub const MAX_OPENERS: usize = 256;

/// Longest run of consecutive ASCII digits that a text may hold for the
/// parser to be run on it.
pub const MAX_DIGIT_RUN: usize = 19;

pub open spec fn is_digit_byte(b: u8) -> bool {
    48 <= b <= 57
}

pub open spec fn is_opener_byte(b: u8) -> bool {
    b == 91 || b == 123
}

/// How many ASCII digits end just before position `i`.
pub open spec fn digit_run(b: Seq<u8>, i: int) -> nat
    decreases i,
{
    if i <= 0 || !is_digit_byte(b[i - 1]) {
        0
    } else {
        digit_run(b, i - 1) + 1
    }
}

/// How many `[` and `{` stand before position `i`.
pub open spec fn openers(b: Seq<u8>, i: int) -> nat
    decreases i,
{
    if i <= 0 {
        0
    } else {
        openers(b, i - 1) + if is_opener_byte(b[i - 1]) {
            1nat
        } else {
            0nat
        }
    }
}

/// Whether the parser may be run on a text with these UTF-8 bytes. It reads
/// an exponent's digits into a `usize` unchecked, so a run of digits longer
/// than `MAX_DIGIT_RUN` may overflow it; and it recurses once per `[` or `{`,
/// so the count of those, and the length, are bounded. In UTF-8 an ASCII byte
/// only ever stands for that ASCII character.
pub open spec fn parse_safe(b: Seq<u8>) -> bool {
    &&& b.len() <= CAPACITY
    &&& openers(b, b.len() as int) <= MAX_OPENERS
    &&& forall|i: int| 0 <= i <= b.len() ==> #[trigger] digit_run(b, i) <= MAX_DIGIT_RUN
}

/// Decides `parse_safe` on the bytes of a text.
pub fn is_parse_safe(b: &[u8]) -> (r: bool)
    ensures
        r == parse_safe(b@),
{
    if b.len() > CAPACITY {
        return false;
    }
    let mut run: usize = 0;
    let mut count: usize = 0;
    let mut runs_ok = true;
    let mut i: usize = 0;
    while i < b.len()
        invariant
            b@.len() <= CAPACITY,
            i <= b@.len(),
            run == digit_run(b@, i as int),
            count == openers(b@, i as int),
            count <= i,
            run <= i,
            runs_ok == (forall|k: int| 0 <= k <= i ==> #[trigger] digit_run(b@, k) <= MAX_DIGIT_RUN),
        decreases b@.len() - i,
    {
        let c = b[i];
        if 48 <= c && c <= 57 {
            run = run + 1;
        } else {
            run = 0;
        }
        if c == 91 || c == 123 {
            count = count + 1;
        }
        if run > MAX_DIGIT_RUN {
            runs_ok = false;
        }
        i = i + 1;
        proof {
            assert(run == digit_run(b@, i as int));
            assert(count == openers(b@, i as int));
            if runs_ok {
                assert forall|k: int| 0 <= k <= i implies #[trigger] digit_run(b@, k)
                    <= MAX_DIGIT_RUN by {
                    if k == i {
                    }
                }
            } else {
                assert(!(forall|k: int| 0 <= k <= i ==> #[trigger] digit_run(b@, k)
                    <= MAX_DIGIT_RUN)) by {
                    if run > MAX_DIGIT_RUN {
                        assert(digit_run(b@, i as int) > MAX_DIGIT_RUN);
                    }
                }
            }
        }
    }
    runs_ok && count <= MAX_OPENERS
}

/// Relies on `rustc_serialize::json::Json::from_str`: `Ok` exactly when the
/// text parses as one JSON value with nothing after it. Run only where
/// `parse_safe` holds, where its exponent arithmetic cannot overflow and its
/// recursion stays shallow.
#[verifier::external_body]
fn parses_as_json(s: &str) -> (r: bool)
    requires
        parse_safe(encode_utf8(s@)),
    ensures
        r == is_json(s@),
{
    rustc_serialize::json::Json::from_str(s).is_ok()
}

/// Whether no character of `s` needs escaping in a JSON string: no `"`, no
/// backslash, no control character (below U+0020, or U+007F).
pub open spec fn is_plain_text(s: Seq<char>) -> bool {
    forall|i: int|
        0 <= i < s.len() ==> {
            let c = #[trigger] s[i];
            c != '"' && c != '\\' && (c as u32) >= 0x20 && (c as u32) != 0x7f
        }
}

/// `s` between double quotes.
pub open spec fn quoted(s: Seq<char>) -> Seq<char> {
    seq!['"'] + s + seq!['"']
}

/// Relies on rustc_serialize's `Display` for `Json::String`, which writes
/// the text between quotes through `escape_str`: that escapes only `"`,
/// backslash and the control characters, and copies every other byte.
#[verifier::external_body]
fn quote_json(s: &str) -> (r: String)
    ensures
        r@ == json_quoted(s@),
        is_plain_text(s@) ==> r@ == quoted(s@),
{
    rustc_serialize::json::Json::String(s.to_string()).to_string()
}

/// Relies on `std::str::from_utf8`: `Ok` exactly when the bytes are valid
/// UTF-8, and then the text they encode.
#[verifier::external_body]
fn utf8_text(b: &[u8]) -> (r: Option<String>)
    ensures
        r is Some <==> valid_utf8(b@),
        r matches Some(s) ==> s@ == decode_utf8(b@),
{
    match std::str::from_utf8(b) {
        Ok(s) => Some(s.to_string()),
        Err(_) => None,
    }
}

/// The bytes of a datagram that fit in the receive buffer.
pub open spec fn truncated(datagram: Seq<u8>) -> Seq<u8> {
    if datagram.len() <= CAPACITY {
        datagram
    } else {
        datagram.take(CAPACITY as int)
    }
}

/// The body placed in the envelope when the payload is not valid UTF-8.
pub open spec fn fallback_body() -> Seq<char> {
    seq!['{', '}']
}

/// The text of a datagram: its kept bytes decoded as UTF-8, or `{}` when they
/// are not valid UTF-8.
pub open spec fn body_of(datagram: Seq<u8>) -> Seq<char> {
    if valid_utf8(truncated(datagram)) {
        decode_utf8(truncated(datagram))
    } else {
        fallback_body()
    }
}

/// The JSON value that stands for a body: the body itself when the parser
/// may be run on it and accepts it, else the body as a JSON string.
pub open spec fn msg_value(body: Seq<char>) -> Seq<char> {
    if parse_safe(encode_utf8(body)) && is_json(body) {
        body
    } else {
        json_quoted(body)
    }
}

/// `{"src":` then the quoted sender, `,"msg":` then the message value, `}`.
pub open spec fn envelope_layout(src_value: Seq<char>, msg: Seq<char>) -> Seq<char> {
    seq!['{', '"', 's', 'r', 'c', '"', ':'] + src_value + seq![',', '"', 'm', 's', 'g', '"', ':']
        + msg + seq!['}']
}

/// The message of a datagram: the value of its decoded text, or `{}` when its
/// kept bytes are not valid UTF-8.
pub open spec fn msg_of(datagram: Seq<u8>) -> Seq<char> {
    if valid_utf8(truncated(datagram)) {
        msg_value(decode_utf8(truncated(datagram)))
    } else {
        fallback_body()
    }
}

/// The envelope for a datagram received from the host whose address text is
/// `src`.
pub open spec fn envelope_text(src: Seq<char>, datagram: Seq<u8>) -> Seq<char> {
    envelope_layout(json_quoted(src), msg_of(datagram))
}

/// The kept bytes of a datagram, at most `CAPACITY` of them.
pub fn truncate(datagram: &[u8]) -> (r: Vec<u8>)
    ensures
        r@ == truncated(datagram@),
{
    let n: usize = if datagram.len() <= CAPACITY {
        datagram.len()
    } else {
        CAPACITY
    };
    let mut r: Vec<u8> = Vec::new();
    let mut i: usize = 0;
    while i < n
        invariant
            n <= datagram.len(),
            n == truncated(datagram@).len(),
            i <= n,
            r@ == datagram@.take(i as int),
        decreases n - i,
    {
        r.push(datagram[i]);
        i = i + 1;
    }
    assert(r@ =~= truncated(datagram@));
    r
}

/// The text of a datagram: the kept bytes decoded as UTF-8, or `{}`.
pub fn decode_body(datagram: &[u8]) -> (r: String)
    ensures
        r@ == body_of(datagram@),
{
    let kept = truncate(datagram);
    match utf8_text(kept.as_slice()) {
        Some(s) => s,
        None => {
            let r = "{}".to_string();
            proof {
                reveal_strlit("{}");
                assert(r@ =~= fallback_body());
            }
            r
        },
    }
}

/// Lays out an envelope from the sender's quoted address and the message
/// value.
pub fn layout_envelope(src_value: &str, msg: &str) -> (r: String)
    ensures
        r@ == envelope_layout(src_value@, msg@),
{
    let mut r = "{\"src\":".to_string();
    r.append(src_value);
    r.append(",\"msg\":");
    r.append(msg);
    r.append("}");
    proof {
        reveal_strlit("{\"src\":");
        reveal_strlit(",\"msg\":");
        reveal_strlit("}");
        assert(r@ =~= envelope_layout(src_value@, msg@));
    }
    r
}

/// The JSON value for a decoded body: the body when it is safe to parse and
/// parses as JSON, else the body as a JSON string.
pub fn message_value(body: &str) -> (r: String)
    ensures
        r@ == msg_value(body@),
        !is_json(body@) && is_plain_text(body@) ==> r@ == quoted(body@),
{
    if is_parse_safe(body.as_bytes()) && parses_as_json(body) {
        body.to_string()
    } else {
        quote_json(body)
    }
}

/// The envelope for `datagram` received from the host whose address text is
/// `src`.
pub fn envelope(src: &str, datagram: &[u8]) -> (r: String)
    ensures
        r@ == envelope_text(src@, datagram@),
        is_plain_text(src@) ==> r@ == envelope_layout(quoted(src@), msg_of(datagram@)),
        is_plain_text(src@) && !valid_utf8(truncated(datagram@)) ==> r@ == envelope_layout(
            quoted(src@),
            fallback_body(),
        ),
        is_plain_text(src@) && valid_utf8(truncated(datagram@)) && is_plain_text(
            body_of(datagram@),
        ) && !is_json(body_of(datagram@)) ==> r@ == envelope_layout(
            quoted(src@),
            quoted(body_of(datagram@)),
        ),
{
    let kept = truncate(datagram);
    let src_value = quote_json(src);
    match utf8_text(kept.as_slice()) {
        Some(body) => {
            let msg = message_value(body.as_str());
            layout_envelope(src_value.as_str(), msg.as_str())
        },
        None => {
            let msg = "{}".to_string();
            proof {
                reveal_strlit("{}");
                assert(msg@ =~= fallback_body());
            }
            layout_envelope(src_value.as_str(), msg.as_str())
        },
    }
}

/// A text that fits in the buffer comes back whole: the envelope of its UTF-8
/// bytes carries the sender and the text itself, verbatim when it is JSON and
/// as a JSON string otherwise.
pub proof fn lemma_round_trip(src: Seq<char>, m: Seq<char>)
    requires
        encode_utf8(m).len() <= CAPACITY,
    ensures
        body_of(encode_utf8(m)) == m,
        envelope_text(src, encode_utf8(m)) == envelope_layout(json_quoted(src), msg_value(m)),
        parse_safe(encode_utf8(m)) && is_json(m) ==> envelope_text(src, encode_utf8(m))
            == envelope_layout(json_quoted(src), m),
        !is_json(m) ==> envelope_text(src, encode_utf8(m)) == envelope_layout(
            json_quoted(src),
            json_quoted(m),
        ),
{
    encode_utf8_valid_utf8(m);
    encode_utf8_decode_utf8(m);
}

/// A payload whose kept bytes are not valid UTF-8 still gives an envelope,
/// with `{}` as its body.
pub proof fn lemma_decode_failure_fallback(src: Seq<char>, d: Seq<u8>)
    requires
        !valid_utf8(truncated(d)),
    ensures
        body_of(d) == fallback_body(),
        envelope_text(src, d) == envelope_layout(json_quoted(src), fallback_body()),
{
}

/// Only the first `CAPACITY` bytes of a payload count: one that is longer
/// gives the same envelope as its first `CAPACITY` bytes.
pub proof fn lemma_truncation(src: Seq<char>, d: Seq<u8>)
    requires
        d.len() > CAPACITY,
    ensures
        truncated(d) == d.take(CAPACITY as int),
        truncated(d).len() == CAPACITY,
        body_of(d) == body_of(d.take(CAPACITY as int)),
        msg_of(d) == msg_of(d.take(CAPACITY as int)),
        envelope_text(src, d) == envelope_text(src, d.take(CAPACITY as int)),
{
}

} // verus!
