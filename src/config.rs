//! The records that describe a tunnel and report on it.
use vstd::prelude::*;

verus! {

/// What a caller asks for: a local port to listen on and a remote address that
/// the tunnel endpoint connects to on the tunnel's behalf.
#[derive(Debug, Clone)]
pub struct TunnelConfig {
    pub id: String,
    pub server_url: String,
    pub token: String,
    pub entry_id: i64,
    pub identity_id: i64,
    pub remote_host: String,
    pub remote_port: u16,
    pub local_port: u16,
}

/// A snapshot of one tunnel. `status` is one of `starting`, `listening`,
/// `stopped` and `error`; `error` is present only with `error`.
#[derive(Debug, Clone)]
pub struct TunnelStatus {
    pub id: String,
    pub local_port: u16,
    pub remote_host: String,
    pub remote_port: u16,
    pub entry_id: i64,
    pub status: String,
    pub error: Option<String>,
}

/// The mathematical value of a [`TunnelStatus`].
pub ghost struct TunnelStatusView {
    pub id: Seq<char>,
    pub local_port: u16,
    pub remote_host: Seq<char>,
    pub remote_port: u16,
    pub entry_id: i64,
    pub status: Seq<char>,
    pub error: Option<Seq<char>>,
}

pub open spec fn opt_text(o: Option<String>) -> Option<Seq<char>> {
    match o {
        Some(s) => Some(s@),
        None => None,
    }
}

impl View for TunnelStatus {
    type V = TunnelStatusView;

    open spec fn view(&self) -> TunnelStatusView {
        TunnelStatusView {
            id: self.id@,
            local_port: self.local_port,
            remote_host: self.remote_host@,
            remote_port: self.remote_port,
            entry_id: self.entry_id,
            status: self.status@,
            error: opt_text(self.error),
        }
    }
}

/// A copy of an optional text.
pub fn copy_opt_text(o: &Option<String>) -> (r: Option<String>)
    ensures
        opt_text(r) == opt_text(*o),
{
    match o {
        Some(s) => Some(s.clone()),
        None => None,
    }
}

impl TunnelStatus {
    /// A copy of this snapshot with the same view.
    pub fn snapshot(&self) -> (r: TunnelStatus)
        ensures
            r@ == self@,
    {
        TunnelStatus {
            id: self.id.clone(),
            local_port: self.local_port,
            remote_host: self.remote_host.clone(),
            remote_port: self.remote_port,
            entry_id: self.entry_id,
            status: self.status.clone(),
            error: copy_opt_text(&self.error),
        }
    }
}

} // verus!
