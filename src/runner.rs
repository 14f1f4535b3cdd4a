//! The state machine of a tunnel runner: one listening socket, its accept
//! loop, and the status it reports.
use vstd::prelude::*;
use vstd::string::*;
use crate::text::{nat_decimal, push_decimal};

verus! {

/// Where a tunnel runner stands: `Starting`, then `Listening`, then `Stopped`
/// or `Failed` with a message.
#[derive(Debug, Clone)]
pub enum TunnelPhase {
    Starting,
    Listening,
    Stopped,
    Failed(String),
}

/// What happened to a runner's socket.
#[derive(Debug, Clone)]
pub enum RunnerEvent {
    /// The listening socket was bound.
    Bound,
    /// Binding failed; it holds the failure's text.
    BindFailed(String),
    /// The cancellation signal arrived.
    Cancelled,
    /// A local connection was accepted.
    Accepted,
    /// Accepting failed; it holds the failure's text.
    AcceptFailed(String),
}

/// What the runner does next.
#[derive(Debug, Clone, Copy, PartialEq, Eq)]
pub enum RunnerAction {
    /// Keep waiting for the signal and the next connection.
    Wait,
    /// Start a relay session for the accepted connection, then keep waiting.
    SpawnSession,
    /// Leave the accept loop and release the socket.
    Exit,
}

/// The mathematical value of a [`TunnelPhase`].
pub ghost enum PhaseView {
    Starting,
    Listening,
    Stopped,
    Failed(Seq<char>),
}

impl View for TunnelPhase {
    type V = PhaseView;

    open spec fn view(&self) -> PhaseView {
        match self {
            TunnelPhase::Starting => PhaseView::Starting,
            TunnelPhase::Listening => PhaseView::Listening,
            TunnelPhase::Stopped => PhaseView::Stopped,
            TunnelPhase::Failed(m) => PhaseView::Failed(m@),
        }
    }
}

/// The status word reported for a phase.
pub open spec fn status_word(p: PhaseView) -> Seq<char> {
    match p {
        PhaseView::Starting => "starting"@,
        PhaseView::Listening => "listening"@,
        PhaseView::Stopped => "stopped"@,
        PhaseView::Failed(_) => "error"@,
    }
}

/// The error message reported for a phase.
pub open spec fn phase_error(p: PhaseView) -> Option<Seq<char>> {
    match p {
        PhaseView::Failed(m) => Some(m),
        _ => None,
    }
}

/// The message of a failed bind.
pub open spec fn bind_error_text(port: u16, cause: Seq<char>) -> Seq<char> {
    "Failed to bind to port "@ + nat_decimal(port as nat) + ": "@ + cause
}

/// The message of a failed accept.
pub open spec fn accept_error_text(cause: Seq<char>) -> Seq<char> {
    "Accept error: "@ + cause
}

/// One step of the runner of a tunnel listening on `port`. Events that do not
/// fit the phase change nothing; a runner in a final phase exits.
pub open spec fn runner_step_spec(phase: PhaseView, event: RunnerEvent, port: u16) -> (PhaseView, RunnerAction) {
    match phase {
        PhaseView::Starting => match event {
            RunnerEvent::Bound => (PhaseView::Listening, RunnerAction::Wait),
            RunnerEvent::BindFailed(e) => (PhaseView::Failed(bind_error_text(port, e@)), RunnerAction::Exit),
            _ => (phase, RunnerAction::Wait),
        },
        PhaseView::Listening => match event {
            RunnerEvent::Cancelled => (PhaseView::Stopped, RunnerAction::Exit),
            RunnerEvent::Accepted => (PhaseView::Listening, RunnerAction::SpawnSession),
            RunnerEvent::AcceptFailed(e) => (PhaseView::Failed(accept_error_text(e@)), RunnerAction::Exit),
            _ => (phase, RunnerAction::Wait),
        },
        _ => (phase, RunnerAction::Exit),
    }
}

/// A copy of a phase.
pub fn copy_phase(p: &TunnelPhase) -> (r: TunnelPhase)
    ensures
        r@ == p@,
{
    match p {
        TunnelPhase::Starting => TunnelPhase::Starting,
        TunnelPhase::Listening => TunnelPhase::Listening,
        TunnelPhase::Stopped => TunnelPhase::Stopped,
        TunnelPhase::Failed(m) => TunnelPhase::Failed(m.clone()),
    }
}

/// The message of a failed bind on `port`.
pub fn bind_error_message(port: u16, cause: &str) -> (r: String)
    ensures
        r@ == bind_error_text(port, cause@),
{
    let mut out = String::from_str("Failed to bind to port ");
    push_decimal(&mut out, port as u64);
    out.append(": ");
    out.append(cause);
    out
}

/// The message of a failed accept.
pub fn accept_error_message(cause: &str) -> (r: String)
    ensures
        r@ == accept_error_text(cause@),
{
    String::from_str("Accept error: ").concat(cause)
}

/// The next phase and action of the runner of a tunnel listening on `port`.
pub fn runner_step(phase: &TunnelPhase, event: &RunnerEvent, port: u16) -> (r: (TunnelPhase, RunnerAction))
    ensures
        (r.0@, r.1) == runner_step_spec(phase@, *event, port),
{
    match phase {
        TunnelPhase::Starting => match event {
            RunnerEvent::Bound => (TunnelPhase::Listening, RunnerAction::Wait),
            RunnerEvent::BindFailed(e) => (
                TunnelPhase::Failed(bind_error_message(port, e.as_str())),
                RunnerAction::Exit,
            ),
            _ => (TunnelPhase::Starting, RunnerAction::Wait),
        },
        TunnelPhase::Listening => match event {
            RunnerEvent::Cancelled => (TunnelPhase::Stopped, RunnerAction::Exit),
            RunnerEvent::Accepted => (TunnelPhase::Listening, RunnerAction::SpawnSession),
            RunnerEvent::AcceptFailed(e) => (
                TunnelPhase::Failed(accept_error_message(e.as_str())),
                RunnerAction::Exit,
            ),
            _ => (TunnelPhase::Listening, RunnerAction::Wait),
        },
        _ => (copy_phase(phase), RunnerAction::Exit),
    }
}

/// The status word reported for a phase.
pub fn phase_status_word(p: &TunnelPhase) -> (r: String)
    ensures
        r@ == status_word(p@),
{
    match p {
        TunnelPhase::Starting => String::from_str("starting"),
        TunnelPhase::Listening => String::from_str("listening"),
        TunnelPhase::Stopped => String::from_str("stopped"),
        TunnelPhase::Failed(_) => String::from_str("error"),
    }
}

/// The error message reported for a phase.
pub fn phase_error_message(p: &TunnelPhase) -> (r: Option<String>)
    ensures
        crate::config::opt_text(r) == phase_error(p@),
{
    match p {
        TunnelPhase::Failed(m) => Some(m.clone()),
        _ => None,
    }
}

} // verus!

verus! {

/// How far a phase is along `Starting`, `Listening`, then `Stopped` or `Failed`.
pub open spec fn phase_rank(p: PhaseView) -> nat {
    match p {
        PhaseView::Starting => 0,
        PhaseView::Listening => 1,
        _ => 2,
    }
}

/// A runner's phase only moves forward; in `Stopped` or `Failed` it stays
/// and the runner exits, and only `Listening` spawns relay sessions.
pub proof fn phases_only_move_forward(p: PhaseView, event: RunnerEvent, port: u16)
    ensures
        phase_rank(runner_step_spec(p, event, port).0) >= phase_rank(p),
        phase_rank(p) == 2 ==> runner_step_spec(p, event, port) == (p, RunnerAction::Exit),
        runner_step_spec(p, event, port).1 == RunnerAction::SpawnSession ==> p == PhaseView::Listening
            && runner_step_spec(p, event, port).0 == PhaseView::Listening,
{
}

} // verus!
