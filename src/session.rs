//! The decisions of a relay session: the handshake on the first remote
//! message, and what each later message or local read turns into.
use vstd::prelude::*;
use vstd::string::*;
use vstd::utf8::encode_utf8;
use crate::config::opt_text;
use crate::error::{unit_result_view, SessionError, SessionErrorView};

verus! {

/// One WebSocket message as the session sees it.
#[derive(Debug, Clone)]
pub enum Frame {
    Text(String),
    Binary(Vec<u8>),
    /// A close frame, with its reason when the frame carried one.
    Close(Option<String>),
    /// A ping, a pong or a raw frame: never relayed.
    Control,
}

/// What one read of the remote side yielded.
#[derive(Debug, Clone)]
pub enum Incoming {
    Message(Frame),
    /// The transport failed; it holds the failure's text.
    Failed(String),
    /// The stream ended.
    Ended,
}

/// What to do with one remote message during the relay phase.
#[derive(Debug, Clone)]
pub enum RemoteStep {
    /// Write these bytes to the local connection.
    Forward(Vec<u8>),
    /// Drop the message and read the next one.
    Skip,
    /// End the remote-to-local direction.
    Finish,
}

/// The string value of the `type` field of a text, when the text parses as a
/// JSON value that has one.
pub uninterp spec fn json_type_field(text: Seq<char>) -> Option<Seq<char>>;

/// Relies on `serde_json::from_str::<serde_json::Value>` to parse the text,
/// then on `Value::get` and `Value::as_str` to pick its `type` field; the
/// outcome depends on the text alone.
#[verifier::external_body]
fn message_type(text: &str) -> (r: Option<String>)
    ensures
        match r {
            Some(t) => json_type_field(text@) == Some(t@),
            None => json_type_field(text@) is None,
        },
{
    let value = serde_json::from_str::<serde_json::Value>(text).ok()?;
    value.get("type").and_then(|t| t.as_str()).map(|t| t.to_string())
}

pub open spec fn is_kind(kind: Option<Seq<char>>, name: Seq<char>) -> bool {
    kind == Some(name)
}

/// Whether a message type names the given control message.
pub fn kind_is(kind: &Option<String>, name: &str) -> (r: bool)
    ensures
        r == is_kind(opt_text(*kind), name@),
{
    match kind {
        Some(t) => {
            crate::text::text_eq(t.as_str(), name)
        },
        None => false,
    }
}

/// The `type` field of a message when it is a text.
pub open spec fn text_kind(msg: Incoming) -> Option<Seq<char>> {
    match msg {
        Incoming::Message(Frame::Text(t)) => json_type_field(t@),
        _ => None,
    }
}

/// The outcome of the handshake on its first message, where `kind` is the
/// `type` field of that message when it is a text. A binary or control
/// frame does not end the handshake in failure.
pub open spec fn handshake_spec(first: Incoming, kind: Option<Seq<char>>) -> Result<(), SessionErrorView> {
    match first {
        Incoming::Message(Frame::Text(t)) => if is_kind(kind, "ready"@) {
            Ok(())
        } else {
            Err(SessionErrorView::UnexpectedHandshakeMessage(t@))
        },
        Incoming::Message(Frame::Close(reason)) => Err(
            SessionErrorView::RemoteClosedDuringHandshake(
                match reason {
                    Some(c) => c@,
                    None => Seq::empty(),
                },
            ),
        ),
        Incoming::Failed(e) => Err(SessionErrorView::HandshakeTransportError(e@)),
        Incoming::Ended => Err(SessionErrorView::HandshakeStreamEnded),
        _ => Ok(()),
    }
}

/// The handshake on its first message, given the `type` field of that
/// message when it is a text.
pub fn handshake_with_kind(first: &Incoming, kind: &Option<String>) -> (r: Result<(), SessionError>)
    ensures
        unit_result_view(r) == handshake_spec(*first, opt_text(*kind)),
{
    match first {
        Incoming::Message(Frame::Text(t)) => {
            if kind_is(kind, "ready") {
                Ok(())
            } else {
                Err(SessionError::UnexpectedHandshakeMessage(t.clone()))
            }
        },
        Incoming::Message(Frame::Close(reason)) => {
            let text = match reason {
                Some(c) => c.clone(),
                None => String::new(),
            };
            Err(SessionError::RemoteClosedDuringHandshake(text))
        },
        Incoming::Failed(e) => Err(SessionError::HandshakeTransportError(e.clone())),
        Incoming::Ended => Err(SessionError::HandshakeStreamEnded),
        _ => Ok(()),
    }
}

/// The handshake on the first remote message: the session relays only after
/// a text whose `type` is `ready`, or after a frame that is neither text nor
/// close.
pub fn handshake(first: &Incoming) -> (r: Result<(), SessionError>)
    ensures
        unit_result_view(r) == handshake_spec(*first, text_kind(*first)),
{
    let kind = match first {
        Incoming::Message(Frame::Text(t)) => message_type(t.as_str()),
        _ => None,
    };
    handshake_with_kind(first, &kind)
}

/// The mathematical value of a [`RemoteStep`].
pub ghost enum RemoteStepView {
    Forward(Seq<u8>),
    Skip,
    Finish,
}

impl View for RemoteStep {
    type V = RemoteStepView;

    open spec fn view(&self) -> RemoteStepView {
        match self {
            RemoteStep::Forward(b) => RemoteStepView::Forward(b@),
            RemoteStep::Skip => RemoteStepView::Skip,
            RemoteStep::Finish => RemoteStepView::Finish,
        }
    }
}

/// What a remote message turns into during the relay phase, where `kind` is
/// its `type` field when it is a text. A text that is not a `pong` is relayed
/// as its UTF-8 bytes.
pub open spec fn remote_step_spec(msg: Incoming, kind: Option<Seq<char>>) -> RemoteStepView {
    match msg {
        Incoming::Message(Frame::Binary(b)) => RemoteStepView::Forward(b@),
        Incoming::Message(Frame::Text(t)) => if is_kind(kind, "pong"@) {
            RemoteStepView::Skip
        } else {
            RemoteStepView::Forward(encode_utf8(t@))
        },
        Incoming::Message(Frame::Control) => RemoteStepView::Skip,
        _ => RemoteStepView::Finish,
    }
}

/// What a remote message turns into, given its `type` field when it is a text.
pub fn remote_step_with_kind(msg: &Incoming, kind: &Option<String>) -> (r: RemoteStep)
    ensures
        r@ == remote_step_spec(*msg, opt_text(*kind)),
{
    match msg {
        Incoming::Message(Frame::Binary(b)) => RemoteStep::Forward(b.clone()),
        Incoming::Message(Frame::Text(t)) => {
            if kind_is(kind, "pong") {
                RemoteStep::Skip
            } else {
                RemoteStep::Forward(t.as_str().as_bytes_vec())
            }
        },
        Incoming::Message(Frame::Control) => RemoteStep::Skip,
        _ => RemoteStep::Finish,
    }
}

/// What a remote message turns into during the relay phase.
pub fn remote_step(msg: &Incoming) -> (r: RemoteStep)
    ensures
        r@ == remote_step_spec(*msg, text_kind(*msg)),
{
    let kind = match msg {
        Incoming::Message(Frame::Text(t)) => message_type(t.as_str()),
        _ => None,
    };
    remote_step_with_kind(msg, &kind)
}

/// The binary message to send for one local read: `read` is the count of bytes
/// read into `buf`, or `None` after a read error. End of stream or an error
/// ends the local-to-remote direction.
pub fn local_chunk(buf: &[u8], read: Option<usize>) -> (r: Option<Vec<u8>>)
    requires
        match read {
            Some(n) => n <= buf@.len(),
            None => true,
        },
    ensures
        match read {
            Some(n) if n > 0 => r is Some && r->0@ == buf@.take(n as int),
            _ => r is None,
        },
{
    match read {
        Some(n) => {
            if n == 0 {
                None
            } else {
                let mut out: Vec<u8> = Vec::with_capacity(n);
                let mut i: usize = 0;
                while i < n
                    invariant
                        n <= buf@.len(),
                        i <= n,
                        out@ == buf@.take(i as int),
                    decreases n - i,
                {
                    out.push(buf[i]);
                    i = i + 1;
                    assert(out@ =~= buf@.take(i as int));
                }
                Some(out)
            }
        },
        None => None,
    }
}

} // verus!
