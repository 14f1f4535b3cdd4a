//! Why a relay session ended early.
use vstd::prelude::*;

verus! {

/// The failures of one relay session. None of them reaches the tunnel's status.
#[derive(Debug, Clone, PartialEq, Eq)]
pub enum SessionError {
    /// The server address has a scheme other than http, https, ws or wss.
    InvalidServerUrl,
    /// The WebSocket connection could not be opened.
    WebSocketConnectFailed(String),
    /// The first message was not a `ready` control message; it holds the text.
    UnexpectedHandshakeMessage(String),
    /// The remote side closed before the handshake; it holds the close reason.
    RemoteClosedDuringHandshake(String),
    /// The transport failed before the handshake.
    HandshakeTransportError(String),
    /// The stream ended before any message came.
    HandshakeStreamEnded,
}

/// The mathematical value of a [`SessionError`].
pub ghost enum SessionErrorView {
    InvalidServerUrl,
    WebSocketConnectFailed(Seq<char>),
    UnexpectedHandshakeMessage(Seq<char>),
    RemoteClosedDuringHandshake(Seq<char>),
    HandshakeTransportError(Seq<char>),
    HandshakeStreamEnded,
}

impl View for SessionError {
    type V = SessionErrorView;

    open spec fn view(&self) -> SessionErrorView {
        match self {
            SessionError::InvalidServerUrl => SessionErrorView::InvalidServerUrl,
            SessionError::WebSocketConnectFailed(s) => SessionErrorView::WebSocketConnectFailed(s@),
            SessionError::UnexpectedHandshakeMessage(s) => SessionErrorView::UnexpectedHandshakeMessage(s@),
            SessionError::RemoteClosedDuringHandshake(s) => SessionErrorView::RemoteClosedDuringHandshake(s@),
            SessionError::HandshakeTransportError(s) => SessionErrorView::HandshakeTransportError(s@),
            SessionError::HandshakeStreamEnded => SessionErrorView::HandshakeStreamEnded,
        }
    }
}

/// The view of a unit result.
pub open spec fn unit_result_view(r: Result<(), SessionError>) -> Result<(), SessionErrorView> {
    match r {
        Ok(()) => Ok(()),
        Err(e) => Err(e@),
    }
}

} // verus!
