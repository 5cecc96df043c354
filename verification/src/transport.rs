//! Framed line transport: how one chat line becomes one newline-terminated
//! wire frame, and how one raw line read from the wire is validated, decoded
//! and judged against the termination sentinel. The blocking socket reads and
//! writes around these steps are the caller's business; everything decided
//! about the bytes themselves is decided, and proved, here.

use crate::sentinel::{is_sentinel, trim_spec};
use crate::strutil::push_char;
use crate::transform::{
    decode_spec, encode_spec, is_authentic_spec, is_printable_ascii, lemma_encode_authentic,
    Crypto,
};
use vstd::prelude::*;
use vstd::string::{StrSliceExecFns, StringExecFns};

verus! {

/// A line as the receive loop first sees it, with the trailing frame
/// terminator (or whatever single character ended the read) removed.
pub open spec fn chop_last(s: Seq<char>) -> Seq<char> {
    if s.len() > 0 {
        s.drop_last()
    } else {
        s
    }
}

/// A decoded line with the line terminator the sender's operator typed
/// removed, when one is there: what the receiving side displays.
pub open spec fn strip_newline(s: Seq<char>) -> Seq<char> {
    if s.len() > 0 && s.last() == '\n' {
        s.drop_last()
    } else {
        s
    }
}

/// What examining one raw wire line yields.
pub enum RecvOutcome {
    /// Nothing was read; the caller should read again.
    Retry,
    /// The line does not carry the integrity marker: foreign input, to be
    /// discarded with a warning and never decoded or displayed.
    Tampered,
    /// An authentic line, decoded; `stop` is set exactly when the decoded
    /// text is the termination sentinel.
    Shown { text: String, stop: bool },
}

/// One pass of the send loop's computation: the operator's line encoded and
/// framed for the wire, and whether that line was the termination sentinel.
pub fn send_step(input: &String, key: &String) -> (r: (String, bool))
    ensures
        r.0@ == encode_spec(input@).push('\n'),
        r.1 == (trim_spec(input@) == "STOP"@),
{
    let stop = is_sentinel(input);
    let mut wire = input.encrypt(key.clone());
    push_char(&mut wire, '\n');
    (wire, stop)
}

/// One pass of the receive loop's computation on a raw line read from the
/// wire, together with the byte count the read reported. A zero-length read
/// is retried; a line without the marker is discarded undecoded; an authentic
/// line is decoded, stripped of the line terminator its sender's operator
/// typed, and judged against the termination sentinel.
pub fn recv_step(raw: &String, bytes: usize, key: &String) -> (r: RecvOutcome)
    ensures
        bytes == 0 ==> r is Retry,
        bytes != 0 && !is_authentic_spec(chop_last(raw@)) ==> r is Tampered,
        bytes != 0 && is_authentic_spec(chop_last(raw@)) ==> ({
            &&& r matches RecvOutcome::Shown { text, stop }
            &&& text@ == strip_newline(decode_spec(chop_last(raw@)))
            &&& stop == (trim_spec(text@) == "STOP"@)
        }),
{
    if bytes == 0 {
        return RecvOutcome::Retry;
    }
    let n: usize = raw.as_str().unicode_len();
    let body: String = if n > 0 {
        String::from_str(raw.as_str().substring_char(0, n - 1))
    } else {
        raw.clone()
    };
    proof {
        assert(body@ =~= chop_last(raw@));
    }
    if !body.check_string() {
        return RecvOutcome::Tampered;
    }
    let decoded = body.decrypt(key.clone());
    let m: usize = decoded.as_str().unicode_len();
    let text: String = if m > 0 && decoded.as_str().get_char(m - 1) == '\n' {
        String::from_str(decoded.as_str().substring_char(0, m - 1))
    } else {
        decoded
    };
    proof {
        assert(text@ =~= strip_newline(decode_spec(chop_last(raw@))));
    }
    let stop = is_sentinel(&text);
    RecvOutcome::Shown { text, stop }
}

/// Law: a line typed at one side comes back out of the other side's receive
/// logic as exactly that line, with the added line terminator stripped. For
/// every printable-ASCII text (which cannot contain the terminator itself),
/// the operator's line is the text plus a newline; chopping the frame
/// terminator recovers the encoded line, that line is authentic, and
/// decoding and stripping yield the text that was typed.
pub proof fn lemma_frame_round_trip(s: Seq<char>)
    requires
        forall|i: int| 0 <= i < s.len() ==> is_printable_ascii(#[trigger] s[i]),
    ensures
        chop_last(encode_spec(s.push('\n')).push('\n')) == encode_spec(s.push('\n')),
        is_authentic_spec(encode_spec(s.push('\n'))),
        strip_newline(decode_spec(encode_spec(s.push('\n')))) == s,
{
    let line = s.push('\n');
    assert(chop_last(encode_spec(line).push('\n')) =~= encode_spec(line));
    lemma_encode_authentic(line);
    assert(decode_spec(encode_spec(line)) =~= line);
    assert(strip_newline(line) =~= s);
}

} // verus!
