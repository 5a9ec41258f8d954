use crate::error::{CommandResult, Error};
use crate::text::{
    decode_text, eq_ignore_ascii_case, equals_ignoring_ascii_case, has_prefix, is_white_space,
    lemma_trim_unchanged, lemma_trim_white_space, starts_with, trim, trimmed,
};
use vstd::prelude::*;
use vstd::utf8::{decode_utf8, valid_utf8};

verus! {

/// The byte that wakes the device before a frame is sent (carriage return).
pub const WAKE_BYTE: u8 = 13;

/// The byte with which the device signals that it accepts a frame (`>`).
pub const PROMPT_BYTE: u8 = 62;

/// The frame that queries `key`: `*key=?#` and a carriage return.
pub open spec fn get_frame_spec(key: Seq<char>) -> Seq<char> {
    seq!['*'] + key + seq!['=', '?', '#', '\r']
}

/// The frame that sets `key` to `value`: `*key=value#` and a carriage return.
pub open spec fn set_frame_spec(key: Seq<char>, value: Seq<char>) -> Seq<char> {
    seq!['*'] + key + seq!['='] + value + seq!['#', '\r']
}

/// The device's rejection sentinel, in lower case.
pub open spec fn block_item() -> Seq<char> {
    seq!['b', 'l', 'o', 'c', 'k', ' ', 'i', 't', 'e', 'm']
}

/// How a decoded reply reads, given the frame that was sent.
pub ghost enum ReplyShape {
    /// The reply does not begin with the echo of the frame.
    Mismatch,
    /// Nothing but white space follows the echo.
    Empty,
    /// The device answered `*block item#` (in any ASCII case).
    Blocked,
    /// The device answered `*payload#`; holds the payload.
    Value(Seq<char>),
    /// Something else follows the echo; holds it, trimmed.
    Malformed(Seq<char>),
}

/// What follows the echo of `frame` in `text`, trimmed.
pub open spec fn remainder(text: Seq<char>, frame: Seq<char>) -> Seq<char> {
    trim(text.subrange(frame.len() as int, text.len() as int))
}

/// Whether `p` is wrapped in `*` ... `#`.
pub open spec fn is_wrapped(p: Seq<char>) -> bool {
    p.len() >= 2 && p[0] == '*' && p.last() == '#'
}

/// The text between the `*` and `#` of a wrapped reply.
pub open spec fn unwrapped(p: Seq<char>) -> Seq<char> {
    p.subrange(1, p.len() - 1)
}

/// The shape of the reply `text` to `frame`.
pub open spec fn reply_shape(text: Seq<char>, frame: Seq<char>) -> ReplyShape {
    if !starts_with(text, frame) {
        ReplyShape::Mismatch
    } else {
        let p = remainder(text, frame);
        if p.len() == 0 {
            ReplyShape::Empty
        } else if is_wrapped(p) {
            if eq_ignore_ascii_case(unwrapped(p), block_item()) {
                ReplyShape::Blocked
            } else {
                ReplyShape::Value(unwrapped(p))
            }
        } else {
            ReplyShape::Malformed(p)
        }
    }
}

/// Whether `r` is the outcome that a reply `text` of the given shape calls for.
pub open spec fn answers(r: CommandResult, text: Seq<char>, shape: ReplyShape) -> bool {
    match shape {
        ReplyShape::Mismatch => r matches Err(Error::ResponseUnexpectedFormat(raw)) && raw@ == text,
        ReplyShape::Empty => r matches Ok(None),
        ReplyShape::Blocked => r matches Err(Error::ResponseBlockItem),
        ReplyShape::Value(v) => r matches Ok(Some(s)) && s@ == v,
        ReplyShape::Malformed(p) => r matches Err(Error::ResponseUnexpectedFormat(raw)) && raw@ == p,
    }
}

/// The outcome of the raw reply bytes `bytes` to `frame`.
pub open spec fn reply_outcome(r: CommandResult, bytes: Seq<u8>, frame: Seq<char>) -> bool {
    if valid_utf8(bytes) {
        answers(r, decode_utf8(bytes), reply_shape(decode_utf8(bytes), frame))
    } else {
        r matches Err(Error::ResponseInvalidString { .. })
    }
}

/// Builds the frame that queries `key`.
pub fn get_frame(key: &str) -> (r: String)
    ensures
        r@ == get_frame_spec(key@),
{
    let mut frame = String::from_str("*");
    frame.append(key);
    frame.append("=?#\r");
    proof {
        reveal_strlit("*");
        reveal_strlit("=?#\r");
    }
    assert(frame@ =~= get_frame_spec(key@));
    frame
}

/// Builds the frame that sets `key` to `value`.
pub fn set_frame(key: &str, value: &str) -> (r: String)
    ensures
        r@ == set_frame_spec(key@, value@),
{
    let mut frame = String::from_str("*");
    frame.append(key);
    frame.append("=");
    frame.append(value);
    frame.append("#\r");
    proof {
        reveal_strlit("*");
        reveal_strlit("=");
        reveal_strlit("#\r");
    }
    assert(frame@ =~= set_frame_spec(key@, value@));
    frame
}

/// Interprets the decoded reply `text` to `frame`: the device echoes the frame,
/// then answers with nothing (acknowledged), `*payload#`, or `*Block item#`.
pub fn parse_reply(text: &str, frame: &str) -> (r: CommandResult)
    ensures
        answers(r, text@, reply_shape(text@, frame@)),
{
    if !has_prefix(text, frame) {
        return Err(Error::ResponseUnexpectedFormat(String::from_str(text)));
    }
    let n = text.unicode_len();
    let f = frame.unicode_len();
    let rest = text.substring_char(f, n);
    let p = trimmed(rest);
    assert(p@ == remainder(text@, frame@));
    let m = p.unicode_len();
    if m == 0 {
        Ok(None)
    } else if m >= 2 && p.get_char(0) == '*' && p.get_char(m - 1) == '#' {
        let inner = p.substring_char(1, m - 1);
        let sentinel = "block item";
        proof {
            reveal_strlit("block item");
        }
        assert(sentinel@ =~= block_item());
        if equals_ignoring_ascii_case(inner, sentinel) {
            Err(Error::ResponseBlockItem)
        } else {
            Ok(Some(String::from_str(inner)))
        }
    } else {
        Err(Error::ResponseUnexpectedFormat(String::from_str(p)))
    }
}

/// Decodes the bytes gathered after `frame` was sent and interprets them.
pub fn read_response(bytes: &[u8], frame: &str) -> (r: CommandResult)
    ensures
        reply_outcome(r, bytes@, frame@),
{
    match decode_text(bytes) {
        Ok(text) => parse_reply(text, frame),
        Err(e) => Err(Error::ResponseInvalidString { source: e }),
    }
}

/// A reply that does not begin with the echo of the frame sent is reported as
/// `ResponseUnexpectedFormat`, carrying the whole decoded reply.
pub proof fn echo_mismatch_is_unexpected_format(r: CommandResult, bytes: Seq<u8>, frame: Seq<char>)
    requires
        valid_utf8(bytes),
        !starts_with(decode_utf8(bytes), frame),
        reply_outcome(r, bytes, frame),
    ensures
        r matches Err(Error::ResponseUnexpectedFormat(raw)) && raw@ == decode_utf8(bytes),
{
}

/// The echo followed by `*block item#`, in any ASCII case, is the device's
/// rejection: `ResponseBlockItem`, never a success.
pub proof fn block_item_is_rejection(
    r: CommandResult,
    frame: Seq<char>,
    sentinel: Seq<char>,
)
    requires
        eq_ignore_ascii_case(sentinel, block_item()),
        answers(
            r,
            frame + seq!['*'] + sentinel + seq!['#'],
            reply_shape(frame + seq!['*'] + sentinel + seq!['#'], frame),
        ),
    ensures
        r matches Err(Error::ResponseBlockItem),
{
    let text = frame + seq!['*'] + sentinel + seq!['#'];
    let rest = seq!['*'] + sentinel + seq!['#'];
    assert(text.subrange(0, frame.len() as int) =~= frame);
    assert(text.subrange(frame.len() as int, text.len() as int) =~= rest);
    assert(!is_white_space(rest[0]));
    assert(!is_white_space(rest.last()));
    lemma_trim_unchanged(rest);
    assert(unwrapped(rest) =~= sentinel);
}

/// The echo followed by nothing but white space is an acknowledgement with no
/// value: `Ok(None)`.
pub proof fn bare_echo_is_acknowledgement(r: CommandResult, frame: Seq<char>, tail: Seq<char>)
    requires
        forall|i: int| 0 <= i < tail.len() ==> is_white_space(#[trigger] tail[i]),
        answers(r, frame + tail, reply_shape(frame + tail, frame)),
    ensures
        r matches Ok(None),
{
    let text = frame + tail;
    assert(text.subrange(0, frame.len() as int) =~= frame);
    assert(text.subrange(frame.len() as int, text.len() as int) =~= tail);
    lemma_trim_white_space(tail);
}

} // verus!
