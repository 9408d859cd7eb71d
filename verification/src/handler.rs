//! Framing between the local terminal and the remote exec channel.
//!
//! Outgoing keystrokes are split at escape-event boundaries and text-encoded
//! for the transport; incoming transport messages are decoded and classified
//! into the action the session must take.

use vstd::prelude::*;
use crate::escape::Escape;
use crate::escape::ascii_char;

verus! {

/// The text encoding of a byte sequence on the transport.
pub uninterp spec fn b64_of(bytes: Seq<u8>) -> Seq<char>;

/// The bytes a piece of transport text decodes to, when it is well formed.
pub uninterp spec fn b64_decoded(text: Seq<char>) -> Seq<u8>;

/// Relies on base64's standard engine (`Engine::encode`): the encoding is a
/// function of the bytes alone; four output characters for every started
/// group of three input bytes.
#[verifier::external_body]
fn b64_encode(bytes: &[u8]) -> (r: String)
    ensures
        r@ == b64_of(bytes@),
        r@.len() == 4 * ((bytes@.len() + 2) / 3),
{
    base64::Engine::encode(&base64::engine::general_purpose::STANDARD, bytes)
}

/// Relies on base64's standard engine (`Engine::decode`): decoding is a
/// function of the text alone, and malformed text is reported, not decoded.
#[verifier::external_body]
fn b64_decode(text: &str) -> (r: Result<Vec<u8>, ()>)
    ensures
        r matches Ok(v) ==> v@ == b64_decoded(text@),
{
    match base64::Engine::decode(&base64::engine::general_purpose::STANDARD, text.as_bytes()) {
        Ok(v) => Ok(v),
        Err(_) => Err(()),
    }
}

/// The events that stand for a completed escape sequence: the scanner has
/// withheld the escape byte, so the frame ends one byte short of the cursor.
pub open spec fn withholds_escape_byte(e: Escape) -> bool {
    match e {
        Escape::DecreaseVerbosity => true,
        Escape::Help => true,
        Escape::IncreaseVerbosity => true,
        Escape::Itself => true,
        Escape::Suspend => true,
        Escape::Terminate => true,
        Escape::Invalid => false,
        Escape::Literal => false,
        Escape::NoEscape => false,
    }
}

/// The bytes forwarded to the remote side for one classified segment of the
/// read buffer: ordinary data runs whole; a recognised escape sequence loses
/// its escape byte and its command byte; an invalid sequence is delivered as
/// data with the withheld escape byte re-inserted ahead of it.
pub open spec fn frame_spec(e: Escape, esc: char, buf: Seq<u8>, sent: int, pos: int) -> Seq<u8> {
    if withholds_escape_byte(e) {
        buf.subrange(sent, pos - 1)
    } else if e == Escape::Invalid {
        seq![esc as u8] + buf.subrange(sent, pos)
    } else {
        buf.subrange(sent, pos)
    }
}

/// Runtime twin of `withholds_escape_byte`.
fn is_withholding(e: Escape) -> (b: bool)
    ensures
        b == withholds_escape_byte(e),
{
    matches!(
        e,
        Escape::DecreaseVerbosity
        | Escape::Help
        | Escape::IncreaseVerbosity
        | Escape::Itself
        | Escape::Suspend
        | Escape::Terminate
    )
}

/// Copies `buffer[from..to]` out of the read buffer.
fn copy_range(buffer: &[u8; 4096], from: usize, to: usize) -> (r: Vec<u8>)
    requires
        from <= to <= 4096,
    ensures
        r@ == buffer@.subrange(from as int, to as int),
{
    let mut r: Vec<u8> = Vec::new();
    let mut i: usize = from;
    proof {
        assert(buffer@.len() == 4096);
    }
    while i < to
        invariant
            from <= i <= to <= 4096,
            buffer@.len() == 4096,
            r@ == buffer@.subrange(from as int, i as int),
        decreases to - i,
    {
        r.push(buffer[i]);
        proof {
            assert(r@ =~= buffer@.subrange(from as int, i as int + 1));
        }
        i = i + 1;
    }
    r
}

/// The frame for one scanned segment, as `frame_spec` describes: `sent` is
/// the cursor after the previous segment, `pos` the cursor after this one.
pub fn frame_bytes(e: Escape, esc: char, buffer: &[u8; 4096], sent: usize, pos: usize) -> (r: Vec<
    u8,
>)
    requires
        sent <= pos <= 4096,
        withholds_escape_byte(e) ==> sent < pos,
        ascii_char(esc),
    ensures
        r@ == frame_spec(e, esc, buffer@, sent as int, pos as int),
{
    if is_withholding(e) {
        copy_range(buffer, sent, pos - 1)
    } else if matches!(e, Escape::Invalid) {
        let mut r: Vec<u8> = Vec::new();
        r.push(esc as u8);
        let mut rest = copy_range(buffer, sent, pos);
        r.append(&mut rest);
        proof {
            assert(r@ =~= frame_spec(e, esc, buffer@, sent as int, pos as int));
        }
        r
    } else {
        copy_range(buffer, sent, pos)
    }
}

/// The transport text for one scanned segment: the frame of `frame_spec`,
/// text-encoded for the channel.
pub fn frame_message(e: Escape, esc: char, buffer: &[u8; 4096], sent: usize, pos: usize) -> (m:
    String)
    requires
        sent <= pos <= 4096,
        withholds_escape_byte(e) ==> sent < pos,
        ascii_char(esc),
    ensures
        m@ == b64_of(frame_spec(e, esc, buffer@, sent as int, pos as int)),
{
    let bytes = frame_bytes(e, esc, buffer, sent, pos);
    b64_encode(bytes.as_slice())
}

/// Whether the reader loop goes on after an event: only `Terminate` ends it.
pub fn continues_reading(e: Escape) -> (b: bool)
    ensures
        b == (e != Escape::Terminate),
{
    !matches!(e, Escape::Terminate)
}

/// An inbound transport message, as the duplex channel delivers it.
pub enum RemoteMessage {
    Text(String),
    Binary(Vec<u8>),
    Ping(Vec<u8>),
    Pong(Vec<u8>),
    Close,
}

/// What the session does with one inbound message.
pub enum RemoteAction {
    /// Write these decoded bytes to the local terminal, in receipt order.
    Output(Vec<u8>),
    /// Answer a ping with this payload.
    Pong(Vec<u8>),
    /// The remote side closed: the session ends.
    Close,
    /// Nothing to do.
    Ignore,
    /// A protocol violation: the session ends as a transport failure.
    Malformed,
}

/// Classifies one inbound message: text is decoded and written out, `Ping`
/// is answered with `Pong`, a close frame ends the session, and anything the
/// protocol does not allow is a transport failure.
pub fn handle_remote(msg: RemoteMessage) -> (a: RemoteAction)
    ensures
        match msg {
            RemoteMessage::Text(t) => (a matches RemoteAction::Output(v) && v@ == b64_decoded(t@))
                || (a is Malformed),
            RemoteMessage::Binary(_) => a is Malformed,
            RemoteMessage::Ping(d) => a matches RemoteAction::Pong(p) && p@ == d@,
            RemoteMessage::Pong(_) => a is Ignore,
            RemoteMessage::Close => a is Close,
        },
{
    match msg {
        RemoteMessage::Text(t) => match b64_decode(t.as_str()) {
            Ok(v) => RemoteAction::Output(v),
            Err(_) => RemoteAction::Malformed,
        },
        RemoteMessage::Binary(_) => RemoteAction::Malformed,
        RemoteMessage::Ping(d) => RemoteAction::Pong(d),
        RemoteMessage::Pong(_) => RemoteAction::Ignore,
        RemoteMessage::Close => RemoteAction::Close,
    }
}

} // verus!
