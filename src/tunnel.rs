//! The tunnel registry: tunnel id to status, with unique ids.
use vstd::prelude::*;
use vstd::string::*;
use crate::config::{TunnelConfig, TunnelStatus, TunnelStatusView};
use crate::runner::{
    phase_error, phase_error_message, phase_rank, phase_status_word, phases_only_move_forward, runner_step, runner_step_spec,
    status_word, PhaseView, RunnerAction, RunnerEvent, TunnelPhase,
};
use crate::text::text_eq;

verus! {

/// Why a registry operation was refused. Neither refusal changes the registry.
#[derive(Debug, Clone, Copy, PartialEq, Eq)]
pub enum RegistryError {
    /// A tunnel with this id is already registered.
    DuplicateId,
    /// No tunnel with this id is registered.
    NotFound,
}

impl RegistryError {
    /// The message shown to the caller.
    pub fn message(&self) -> (r: String)
        ensures
            r@ == registry_error_text(*self),
    {
        match self {
            RegistryError::DuplicateId => String::from_str("Tunnel with this ID already exists"),
            RegistryError::NotFound => String::from_str("Tunnel not found"),
        }
    }
}

pub open spec fn registry_error_text(e: RegistryError) -> Seq<char> {
    match e {
        RegistryError::DuplicateId => "Tunnel with this ID already exists"@,
        RegistryError::NotFound => "Tunnel not found"@,
    }
}

/// A registered tunnel: its status, and the generation of the runner that
/// was started for it, which tells that runner apart from one started for an
/// earlier tunnel of the same id.
pub ghost struct EntryView {
    pub status: TunnelStatusView,
    pub phase: PhaseView,
    pub generation: u64,
}

/// The registry as a map from tunnel id, with the generation the next runner
/// gets.
pub ghost struct RegistryView {
    pub tunnels: Map<Seq<char>, EntryView>,
    pub next_generation: u64,
}

/// The status of a tunnel as it is registered, before its runner reports.
pub open spec fn starting_status(c: TunnelConfig) -> TunnelStatusView {
    TunnelStatusView {
        id: c.id@,
        local_port: c.local_port,
        remote_host: c.remote_host@,
        remote_port: c.remote_port,
        entry_id: c.entry_id,
        status: "starting"@,
        error: None,
    }
}

/// Registering a tunnel: refused for an id that is present, else the tunnel
/// is added as starting under the next generation.
pub open spec fn start_spec(reg: RegistryView, c: TunnelConfig) -> (RegistryView, Result<TunnelStatusView, RegistryError>) {
    if reg.tunnels.contains_key(c.id@) {
        (reg, Err(RegistryError::DuplicateId))
    } else {
        (
            RegistryView {
                tunnels: reg.tunnels.insert(
                    c.id@,
                    EntryView { status: starting_status(c), phase: PhaseView::Starting, generation: reg.next_generation },
                ),
                next_generation: reg.next_generation.wrapping_add(1),
            },
            Ok(starting_status(c)),
        )
    }
}

/// Removing a tunnel: refused for an id that is absent.
pub open spec fn stop_spec(reg: RegistryView, id: Seq<char>) -> (RegistryView, Result<(), RegistryError>) {
    if reg.tunnels.contains_key(id) {
        (RegistryView { tunnels: reg.tunnels.remove(id), ..reg }, Ok(()))
    } else {
        (reg, Err(RegistryError::NotFound))
    }
}

/// The status of a registered tunnel.
pub open spec fn get_spec(reg: RegistryView, id: Seq<char>) -> Option<TunnelStatusView> {
    if reg.tunnels.contains_key(id) {
        Some(reg.tunnels[id].status)
    } else {
        None
    }
}

/// A status with the word and error of a phase.
pub open spec fn with_phase(s: TunnelStatusView, p: PhaseView) -> TunnelStatusView {
    TunnelStatusView { status: status_word(p), error: phase_error(p), ..s }
}

/// A runner's report of an event: while the tunnel it was started for is
/// still registered, the stored phase takes the runner's step on it, else the
/// report is ignored. A registered tunnel is never shown as stopped: the
/// runner stops only on cancellation, which comes after its tunnel was removed,
/// so a step to `Stopped` is ignored too.
pub open spec fn report_spec(reg: RegistryView, id: Seq<char>, generation: u64, event: RunnerEvent) -> (RegistryView, bool) {
    if reg.tunnels.contains_key(id) && reg.tunnels[id].generation == generation {
        let e = reg.tunnels[id];
        let next = runner_step_spec(e.phase, event, e.status.local_port).0;
        if next == PhaseView::Stopped {
            (reg, false)
        } else {
            (
                RegistryView {
                    tunnels: reg.tunnels.insert(
                        id,
                        EntryView { status: with_phase(e.status, next), phase: next, ..e },
                    ),
                    ..reg
                },
                true,
            )
        }
    } else {
        (reg, false)
    }
}

/// A status that a registered tunnel can show: `starting` or `listening`
/// without an error, or `error` with one.
pub open spec fn live_status(s: TunnelStatusView) -> bool {
    ||| s.status == "starting"@ && s.error is None
    ||| s.status == "listening"@ && s.error is None
    ||| s.status == "error"@ && s.error is Some
}

/// An entry whose status matches its phase, which is not `Stopped`.
pub open spec fn live_entry(e: EntryView) -> bool {
    &&& e.phase != PhaseView::Stopped
    &&& e.status.status == status_word(e.phase)
    &&& e.status.error == phase_error(e.phase)
}

/// Every entry is filed under its own id, and is live.
pub open spec fn registry_live(reg: RegistryView) -> bool {
    forall|k: Seq<char>|
        #[trigger] reg.tunnels.contains_key(k) ==> reg.tunnels[k].status.id == k && live_entry(reg.tunnels[k])
}

pub open spec fn status_result_view(r: Result<TunnelStatus, RegistryError>) -> Result<TunnelStatusView, RegistryError> {
    match r {
        Ok(s) => Ok(s@),
        Err(e) => Err(e),
    }
}

pub open spec fn opt_status_view(r: Option<TunnelStatus>) -> Option<TunnelStatusView> {
    match r {
        Some(s) => Some(s@),
        None => None,
    }
}

struct TunnelEntry {
    status: TunnelStatus,
    phase: TunnelPhase,
    generation: u64,
}

impl TunnelEntry {
    spec fn key(&self) -> Seq<char> {
        self.status.id@
    }

    spec fn view(&self) -> EntryView {
        EntryView { status: self.status@, phase: self.phase@, generation: self.generation }
    }
}

/// The registry of active tunnels, keyed by tunnel id.
pub struct TunnelManager {
    entries: Vec<TunnelEntry>,
    next_generation: u64,
    model: Ghost<Map<Seq<char>, EntryView>>,
}

impl View for TunnelManager {
    type V = RegistryView;

    closed spec fn view(&self) -> RegistryView {
        RegistryView { tunnels: self.model@, next_generation: self.next_generation }
    }
}

impl TunnelManager {
    /// The registry's invariant: ids are unique, and the model maps each id to
    /// its entry.
    pub closed spec fn wf(&self) -> bool {
        &&& forall|i: int, j: int|
            0 <= i < j < self.entries@.len() ==> self.entries@[i].key() != self.entries@[j].key()
        &&& forall|i: int|
            0 <= i < self.entries@.len() ==> self.model@.contains_key(#[trigger] self.entries@[i].key())
                && self.model@[self.entries@[i].key()] == self.entries@[i].view()
        &&& forall|k: Seq<char>|
            #[trigger] self.model@.contains_key(k) ==> exists|i: int|
                0 <= i < self.entries@.len() && #[trigger] self.entries@[i].key() == k
        &&& registry_live(self@)
    }

    /// An empty registry.
    pub fn new() -> (r: TunnelManager)
        ensures
            r.wf(),
            r@.tunnels == Map::<Seq<char>, EntryView>::empty(),
    {
        TunnelManager { entries: Vec::new(), next_generation: 0, model: Ghost(Map::empty()) }
    }

    fn find(&self, id: &str) -> (r: Option<usize>)
        requires
            self.wf(),
        ensures
            match r {
                Some(i) => i < self.entries@.len() && self.entries@[i as int].key() == id@,
                None => !self@.tunnels.contains_key(id@),
            },
    {
        let mut i: usize = 0;
        while i < self.entries.len()
            invariant
                self.wf(),
                i <= self.entries@.len(),
                forall|j: int| 0 <= j < i ==> self.entries@[j].key() != id@,
            decreases self.entries@.len() - i,
        {
            if text_eq(self.entries[i].status.id.as_str(), id) {
                return Some(i);
            }
            i = i + 1;
        }
        None
    }

    /// Registers a tunnel as starting. A second tunnel with a registered id is
    /// refused and changes nothing.
    pub fn start_tunnel(&mut self, config: TunnelConfig) -> (r: Result<TunnelStatus, RegistryError>)
        requires
            old(self).wf(),
        ensures
            final(self).wf(),
            (final(self)@, status_result_view(r)) == start_spec(old(self)@, config),
    {
        if self.find(config.id.as_str()).is_some() {
            return Err(RegistryError::DuplicateId);
        }
        let status = TunnelStatus {
            id: config.id.clone(),
            local_port: config.local_port,
            remote_host: config.remote_host.clone(),
            remote_port: config.remote_port,
            entry_id: config.entry_id,
            status: String::from_str("starting"),
            error: None,
        };
        let snapshot = status.snapshot();
        let entry = TunnelEntry { status, phase: TunnelPhase::Starting, generation: self.next_generation };
        let ghost old_entries = self.entries@;
        let ghost e = entry.view();
        self.model = Ghost(self.model@.insert(config.id@, e));
        self.entries.push(entry);
        self.next_generation = self.next_generation.wrapping_add(1);
        proof {
            assert forall|k: Seq<char>| #[trigger] self.model@.contains_key(k) implies exists|i: int|
                0 <= i < self.entries@.len() && #[trigger] self.entries@[i].key() == k by {
                if k == config.id@ {
                    assert(self.entries@[old_entries.len() as int].key() == k);
                } else {
                    let i = choose|i: int| 0 <= i < old_entries.len() && #[trigger] old_entries[i].key() == k;
                    assert(self.entries@[i].key() == k);
                }
            }
        }
        Ok(snapshot)
    }

    /// Removes a registered tunnel. An id that is not registered is refused
    /// and changes nothing.
    pub fn stop_tunnel(&mut self, id: &str) -> (r: Result<(), RegistryError>)
        requires
            old(self).wf(),
        ensures
            final(self).wf(),
            (final(self)@, r) == stop_spec(old(self)@, id@),
    {
        match self.find(id) {
            None => Err(RegistryError::NotFound),
            Some(i) => {
                let ghost old_entries = self.entries@;
                let _removed = self.entries.remove(i);
                self.model = Ghost(self.model@.remove(id@));
                proof {
                    assert forall|j: int| 0 <= j < self.entries@.len() implies self.model@.contains_key(
                        #[trigger] self.entries@[j].key(),
                    ) && self.model@[self.entries@[j].key()] == self.entries@[j].view() by {
                        if j < i {
                            assert(self.entries@[j] == old_entries[j]);
                        } else {
                            assert(self.entries@[j] == old_entries[j + 1]);
                        }
                    }
                    assert forall|k: Seq<char>| #[trigger] self.model@.contains_key(k) implies exists|j: int|
                        0 <= j < self.entries@.len() && #[trigger] self.entries@[j].key() == k by {
                        let j = choose|j: int| 0 <= j < old_entries.len() && #[trigger] old_entries[j].key() == k;
                        if j < i {
                            assert(self.entries@[j].key() == k);
                        } else {
                            assert(self.entries@[j - 1].key() == k);
                        }
                    }
                    assert(self.model@ == old(self).model@.remove(id@));
                }
                Ok(())
            },
        }
    }

    /// A snapshot of the status of a registered tunnel.
    pub fn get_tunnel_status(&self, id: &str) -> (r: Option<TunnelStatus>)
        requires
            self.wf(),
        ensures
            opt_status_view(r) == get_spec(self@, id@),
            r is Some ==> r->0.id@ == id@ && live_status(r->0@),
    {
        match self.find(id) {
            Some(i) => Some(self.entries[i].status.snapshot()),
            None => None,
        }
    }

    /// The generation of the runner started for a registered tunnel.
    pub fn generation_of(&self, id: &str) -> (r: Option<u64>)
        requires
            self.wf(),
        ensures
            match r {
                Some(g) => self@.tunnels.contains_key(id@) && self@.tunnels[id@].generation == g,
                None => !self@.tunnels.contains_key(id@),
            },
    {
        match self.find(id) {
            Some(i) => Some(self.entries[i].generation),
            None => None,
        }
    }

    /// Snapshots of every registered tunnel, each once, in no set order.
    pub fn list_tunnels(&self) -> (r: Vec<TunnelStatus>)
        requires
            self.wf(),
        ensures
            forall|i: int|
                0 <= i < r@.len() ==> self@.tunnels.contains_key(#[trigger] r@[i].id@)
                    && self@.tunnels[r@[i].id@].status == r@[i]@,
            forall|i: int, j: int| 0 <= i < j < r@.len() ==> r@[i].id@ != r@[j].id@,
            forall|k: Seq<char>|
                #[trigger] self@.tunnels.contains_key(k) ==> exists|i: int| 0 <= i < r@.len() && #[trigger] r@[i].id@ == k,
    {
        let mut out: Vec<TunnelStatus> = Vec::new();
        let mut i: usize = 0;
        while i < self.entries.len()
            invariant
                self.wf(),
                i <= self.entries@.len(),
                out@.len() == i,
                forall|j: int| 0 <= j < i ==> #[trigger] out@[j]@ == self.entries@[j].status@,
            decreases self.entries@.len() - i,
        {
            out.push(self.entries[i].status.snapshot());
            i = i + 1;
        }
        proof {
            assert forall|j: int| 0 <= j < out@.len() implies self@.tunnels.contains_key(#[trigger] out@[j].id@)
                && self@.tunnels[out@[j].id@].status == out@[j]@ by {
                assert(out@[j]@ == self.entries@[j].status@);
                assert(out@[j].id@ == self.entries@[j].key());
            }
            assert forall|a: int, b: int| 0 <= a < b < out@.len() implies out@[a].id@ != out@[b].id@ by {
                assert(out@[a]@ == self.entries@[a].status@);
                assert(out@[b]@ == self.entries@[b].status@);
            }
            assert forall|k: Seq<char>| #[trigger] self@.tunnels.contains_key(k) implies exists|j: int|
                0 <= j < out@.len() && #[trigger] out@[j].id@ == k by {
                let j = choose|j: int| 0 <= j < self.entries@.len() && #[trigger] self.entries@[j].key() == k;
                assert(out@[j]@ == self.entries@[j].status@);
            }
        }
        out
    }

    /// Takes a runner's report of `event` for the tunnel `id`, when the tunnel
    /// registered under `id` is the one that runner was started for. Returns
    /// whether the report was taken; a stopped tunnel stays absent.
    pub fn report_event(&mut self, id: &str, generation: u64, event: &RunnerEvent) -> (r: bool)
        requires
            old(self).wf(),
        ensures
            final(self).wf(),
            (final(self)@, r) == report_spec(old(self)@, id@, generation, *event),
    {
        match self.find(id) {
            None => false,
            Some(i) => {
                if self.entries[i].generation != generation {
                    return false;
                }
                let (next, _action) = runner_step(&self.entries[i].phase, event, self.entries[i].status.local_port);
                if matches!(next, TunnelPhase::Stopped) {
                    return false;
                }
                let ghost old_entries = self.entries@;
                let old_status = &self.entries[i].status;
                let status = TunnelStatus {
                    id: old_status.id.clone(),
                    local_port: old_status.local_port,
                    remote_host: old_status.remote_host.clone(),
                    remote_port: old_status.remote_port,
                    entry_id: old_status.entry_id,
                    status: phase_status_word(&next),
                    error: phase_error_message(&next),
                };
                let entry = TunnelEntry { status, phase: next, generation };
                let ghost e = entry.view();
                self.entries.set(i, entry);
                self.model = Ghost(self.model@.insert(id@, e));
                proof {
                    assert forall|j: int| 0 <= j < self.entries@.len() implies self.model@.contains_key(
                        #[trigger] self.entries@[j].key(),
                    ) && self.model@[self.entries@[j].key()] == self.entries@[j].view() by {
                        if j != i {
                            assert(self.entries@[j] == old_entries[j]);
                        }
                    }
                    assert forall|k: Seq<char>| #[trigger] self.model@.contains_key(k) implies exists|j: int|
                        0 <= j < self.entries@.len() && #[trigger] self.entries@[j].key() == k by {
                        if k != id@ {
                            let j = choose|j: int| 0 <= j < old_entries.len() && #[trigger] old_entries[j].key() == k;
                            assert(self.entries@[j].key() == k);
                        } else {
                            assert(self.entries@[i as int].key() == k);
                        }
                    }
                    assert(e.status == with_phase(old(self)@.tunnels[id@].status, e.phase));
                }
                true
            },
        }
    }
}

} // verus!

verus! {

/// Starting a second tunnel with the id of a tunnel just started is refused,
/// and leaves the registry as the first start left it, the first tunnel's
/// status included.
pub proof fn second_start_is_refused(reg: RegistryView, first: TunnelConfig, second: TunnelConfig)
    requires
        first.id@ == second.id@,
    ensures
        start_spec(start_spec(reg, first).0, second).1 == Err::<TunnelStatusView, RegistryError>(
            RegistryError::DuplicateId,
        ),
        start_spec(start_spec(reg, first).0, second).0 == start_spec(reg, first).0,
        get_spec(start_spec(start_spec(reg, first).0, second).0, first.id@) == get_spec(
            start_spec(reg, first).0,
            first.id@,
        ),
{
}

/// A runner's report never adds or removes a tunnel, so a registered id stays
/// registered (and a second start with it stays refused) until it is stopped.
pub proof fn report_keeps_ids(reg: RegistryView, id: Seq<char>, generation: u64, event: RunnerEvent, other: Seq<char>)
    ensures
        report_spec(reg, id, generation, event).0.tunnels.contains_key(other) == reg.tunnels.contains_key(other),
{
}

/// Every operation keeps each entry filed under its own id and live, so a
/// registered tunnel is never shown as stopped, and shows an error message
/// exactly when its status is `error`.
pub proof fn registry_stays_live(reg: RegistryView, c: TunnelConfig, id: Seq<char>, generation: u64, event: RunnerEvent)
    requires
        registry_live(reg),
    ensures
        registry_live(start_spec(reg, c).0),
        registry_live(stop_spec(reg, id).0),
        registry_live(report_spec(reg, id, generation, event).0),
        forall|k: Seq<char>| #[trigger] get_spec(reg, k) is Some ==> live_status(get_spec(reg, k)->0),
{
    reveal_strlit("starting");
    assert forall|k: Seq<char>| #[trigger] get_spec(reg, k) is Some implies live_status(get_spec(reg, k)->0) by {
        assert(reg.tunnels.contains_key(k));
    }
}

/// A report moves a tunnel's phase only forward, keeps its phase once it is
/// `error`, and never changes what was copied from its configuration.
pub proof fn reports_only_move_forward(reg: RegistryView, id: Seq<char>, generation: u64, event: RunnerEvent)
    requires
        registry_live(reg),
        reg.tunnels.contains_key(id),
    ensures
        ({
            let before = reg.tunnels[id];
            let after = report_spec(reg, id, generation, event).0.tunnels[id];
            &&& phase_rank(after.phase) >= phase_rank(before.phase)
            &&& before.status.status == "error"@ ==> after == before
            &&& after.status.id == before.status.id
            &&& after.status.local_port == before.status.local_port
            &&& after.status.remote_host == before.status.remote_host
            &&& after.status.remote_port == before.status.remote_port
            &&& after.status.entry_id == before.status.entry_id
            &&& after.generation == before.generation
        }),
{
    let before = reg.tunnels[id];
    phases_only_move_forward(before.phase, event, before.status.local_port);
    reveal_strlit("error");
    reveal_strlit("starting");
    reveal_strlit("listening");
    assert("error"@.len() != "starting"@.len());
    assert("error"@[0] != "listening"@[0]);
    if before.status.status == "error"@ {
        assert(before.phase is Failed);
    }
}

/// Stopping an id that is not registered is refused and changes nothing.
pub proof fn stop_of_absent_is_refused(reg: RegistryView, id: Seq<char>)
    requires
        !reg.tunnels.contains_key(id),
    ensures
        stop_spec(reg, id) == (reg, Err::<(), RegistryError>(RegistryError::NotFound)),
{
}

/// Once a stop of an id has succeeded, its status is absent, also after a
/// late report of the runner that has not yet seen the cancellation.
pub proof fn stopped_tunnel_is_absent(reg: RegistryView, id: Seq<char>, generation: u64, late: RunnerEvent)
    requires
        stop_spec(reg, id).1 is Ok,
    ensures
        get_spec(stop_spec(reg, id).0, id) is None,
        get_spec(report_spec(stop_spec(reg, id).0, id, generation, late).0, id) is None,
{
}

/// When the runner of a newly started tunnel cannot bind its port, it exits,
/// and its report leaves the tunnel registered with status `error` and a
/// non-empty error message.
pub proof fn failed_bind_is_reported(reg: RegistryView, c: TunnelConfig, cause: String)
    requires
        !reg.tunnels.contains_key(c.id@),
    ensures
        ({
            let started = start_spec(reg, c).0;
            let event = RunnerEvent::BindFailed(cause);
            let (reported, taken) = report_spec(started, c.id@, reg.next_generation, event);
            &&& runner_step_spec(PhaseView::Starting, event, c.local_port).1 == RunnerAction::Exit
            &&& taken
            &&& reported.tunnels.contains_key(c.id@)
            &&& get_spec(reported, c.id@) is Some
            &&& get_spec(reported, c.id@)->0.status == "error"@
            &&& get_spec(reported, c.id@)->0.error is Some
            &&& get_spec(reported, c.id@)->0.error->0.len() > 0
        }),
{
    reveal_strlit("Failed to bind to port ");
}

} // verus!
