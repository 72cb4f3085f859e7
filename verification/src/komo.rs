use vstd::prelude::*;
use vstd::utf8::{decode_utf8, valid_utf8};

verus! {

/// The name of the socket on which the bar subscribes to the window manager's events.
pub const SOCK_NAME: &'static str = "komorebi-switcher.sock";

/// The name of that socket in a debug build, so that a debug bar and a released one can run
/// side by side.
pub const SOCK_NAME_DEBUG: &'static str = "komorebi-switcher-debug.sock";

/// How reading one notification from the subscription socket ended.
#[derive(Clone, Copy, Debug, PartialEq, Eq, Structural)]
pub enum ReadOutcome {
    /// The read ended after this many bytes.
    Bytes(usize),
    /// The read failed (the bytes read before the failure are kept).
    Failed,
}

/// What the subscription loop does with what it read.
#[derive(Debug)]
pub enum ListenStep {
    /// The window manager shut the subscription: subscribe again.
    Reconnect,
    /// The bytes are no text: log it and wait for the next notification.
    Skip,
    /// Parse this text as a notification and pass its state on.
    Parse(String),
}

/// `String::from_utf8` of std: the bytes as text when they are well-formed UTF-8, and
/// nothing otherwise. The contract claims that std's notion of well-formed UTF-8 and its
/// decoding are vstd's `valid_utf8` and `decode_utf8`.
#[verifier::external_body]
fn string_from_utf8(bytes: Vec<u8>) -> (r: Option<String>)
    ensures
        r is Some <==> valid_utf8(bytes@),
        r matches Some(s) ==> s@ == decode_utf8(bytes@),
{
    String::from_utf8(bytes).ok()
}

/// What to do after a read of the subscription socket that ended with `read` and left the
/// bytes `buffer`: a read of nothing means the window manager shut the subscription; otherwise
/// the bytes are passed on when they are text.
pub fn next_listen_step(read: ReadOutcome, buffer: Vec<u8>) -> (step: ListenStep)
    ensures
        read == ReadOutcome::Bytes(0) ==> step is Reconnect,
        read != ReadOutcome::Bytes(0) && !valid_utf8(buffer@) ==> step is Skip,
        read != ReadOutcome::Bytes(0) && valid_utf8(buffer@) ==> (step matches ListenStep::Parse(s)
            && s@ == decode_utf8(buffer@)),
{
    let closed = match read {
        ReadOutcome::Bytes(n) => n == 0,
        ReadOutcome::Failed => false,
    };
    if closed {
        return ListenStep::Reconnect;
    }
    match string_from_utf8(buffer) {
        Some(text) => ListenStep::Parse(text),
        None => ListenStep::Skip,
    }
}

} // verus!
