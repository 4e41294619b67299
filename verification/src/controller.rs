//! The session lifecycle controller: one state machine per connection
//! attempt, from `Idle` through `Connected` to `Stopped` or `Failed`, with
//! symmetric rollback of every side effect applied along the way.
//!
//! The controller is pure: it decides transitions, records which side
//! effects were applied, and emits the setup and revert actions.  The
//! unverified shell performs each action against the host and feeds the
//! outcome back as an event.

use vstd::prelude::*;
use crate::config::ClientConfig;
use crate::dns::DnsSnapshot;
use crate::errors::VpnError;

verus! {

/// Default ceiling for the handshake wait, in seconds.
pub const HANDSHAKE_TIMEOUT_SECS: u64 = 20;

/// Default ceiling for the post-handshake reachability probe, in seconds.
pub const PROBE_TIMEOUT_SECS: u64 = 3;

/// Default interval of the monitoring loop, in seconds.
pub const MONITOR_INTERVAL_SECS: u64 = 5;

/// Why a session ended in `Failed`.
#[derive(Clone, Copy, Debug, PartialEq, Eq, Structural)]
pub enum FailReason {
    /// No peer completed a handshake within the ceiling.
    HandshakeTimeout,
    /// The reachability probe failed after a successful handshake.
    ConnectivityFailed,
    /// The tunnel interface could not be created or configured.
    InterfaceError,
}

impl FailReason {
    /// The error surfaced for this failure.
    pub fn to_error(&self) -> (r: VpnError)
        ensures
            r == self.spec_error(),
    {
        match self {
            FailReason::HandshakeTimeout => VpnError::HandshakeTimeout,
            FailReason::ConnectivityFailed => VpnError::ConnectivityFailed,
            FailReason::InterfaceError => VpnError::InterfaceError,
        }
    }

    /// The error each failure reason carries.
    pub open spec fn spec_error(&self) -> VpnError {
        match self {
            FailReason::HandshakeTimeout => VpnError::HandshakeTimeout,
            FailReason::ConnectivityFailed => VpnError::ConnectivityFailed,
            FailReason::InterfaceError => VpnError::InterfaceError,
        }
    }
}

/// The lifecycle states of one session.  `Idle` is initial; `Stopped` and
/// `Failed` are terminal.
#[derive(Clone, Copy, Debug, PartialEq, Eq, Structural)]
pub enum SessionState {
    Idle,
    InterfaceUp,
    AwaitingHandshake,
    Verifying,
    Connected,
    TearingDown,
    Stopped,
    Failed(FailReason),
}

/// The events the controller reacts to.
#[derive(Clone, Copy, Debug, PartialEq, Eq, Structural)]
pub enum SessionEvent {
    /// The interface was created and configured.
    Started,
    /// Interface setup failed.
    StartFailed,
    /// The handshake-wait timer begins.
    WaitBegun,
    /// A peer reported a completed handshake.
    HandshakeObserved,
    /// The handshake ceiling elapsed without a handshake.
    TimeoutElapsed,
    /// The reachability probe succeeded.
    ProbeSucceeded,
    /// The reachability probe failed.
    ProbeFailed,
    /// The user asked for shutdown.
    CancelRequested,
    /// Every applied side effect has been reverted.
    RollbackComplete,
}

/// The transition table: the next state for each state and event.  An event
/// that the current state does not react to leaves the state unchanged.
pub open spec fn spec_step(s: SessionState, e: SessionEvent) -> SessionState {
    match (s, e) {
        (SessionState::Idle, SessionEvent::Started) => SessionState::InterfaceUp,
        (SessionState::Idle, SessionEvent::StartFailed) => SessionState::Failed(
            FailReason::InterfaceError,
        ),
        (SessionState::InterfaceUp, SessionEvent::WaitBegun) => SessionState::AwaitingHandshake,
        (SessionState::AwaitingHandshake, SessionEvent::HandshakeObserved)
            => SessionState::Verifying,
        (SessionState::AwaitingHandshake, SessionEvent::TimeoutElapsed) => SessionState::Failed(
            FailReason::HandshakeTimeout,
        ),
        (SessionState::Verifying, SessionEvent::ProbeSucceeded) => SessionState::Connected,
        (SessionState::Verifying, SessionEvent::ProbeFailed) => SessionState::Failed(
            FailReason::ConnectivityFailed,
        ),
        (SessionState::Connected, SessionEvent::CancelRequested) => SessionState::TearingDown,
        (SessionState::TearingDown, SessionEvent::RollbackComplete) => SessionState::Stopped,
        _ => s,
    }
}

/// A side effect the controller has applied to the host, in application
/// order.  `InterfaceCreated` is recorded when creation is attempted, so
/// that removal is attempted unconditionally on every rollback of a
/// partially set-up session.
#[derive(Clone, Copy, Debug, PartialEq, Eq, Structural)]
pub enum AppliedEffect {
    InterfaceCreated,
    KillSwitchApplied,
    HostRouteAdded,
    DnsOverrideApplied,
}

/// The revert of one applied effect.
#[derive(Clone, Copy, Debug, PartialEq, Eq, Structural)]
pub enum RevertAction {
    RemoveInterface,
    RevertKillSwitch,
    RestoreRoute,
    RestoreDns,
}

/// The revert that undoes each effect.
pub open spec fn revert_of(e: AppliedEffect) -> RevertAction {
    match e {
        AppliedEffect::InterfaceCreated => RevertAction::RemoveInterface,
        AppliedEffect::KillSwitchApplied => RevertAction::RevertKillSwitch,
        AppliedEffect::HostRouteAdded => RevertAction::RestoreRoute,
        AppliedEffect::DnsOverrideApplied => RevertAction::RestoreDns,
    }
}

/// The full rollback of an effect log: the revert of every applied effect,
/// in reverse order of application.
pub open spec fn rollback_plan(applied: Seq<AppliedEffect>) -> Seq<RevertAction>
    decreases applied.len(),
{
    if applied.len() == 0 {
        Seq::empty()
    } else {
        seq![revert_of(applied.last())] + rollback_plan(applied.drop_last())
    }
}

/// A rollback reverts exactly as many effects as were applied — never
/// more — and the rollback of an empty log reverts nothing.  Together with
/// `SessionController::rollback` leaving the log empty, a second rollback
/// is a no-op.
pub proof fn lemma_rollback_idempotent(applied: Seq<AppliedEffect>)
    ensures
        rollback_plan(applied).len() == applied.len(),
        rollback_plan(Seq::<AppliedEffect>::empty()) == Seq::<RevertAction>::empty(),
    decreases applied.len(),
{
    if applied.len() > 0 {
        lemma_rollback_idempotent(applied.drop_last());
    }
}

/// Every applied effect has its revert in the rollback plan.
pub proof fn lemma_rollback_covers(applied: Seq<AppliedEffect>, e: AppliedEffect)
    requires
        applied.contains(e),
    ensures
        rollback_plan(applied).contains(revert_of(e)),
    decreases applied.len(),
{
    let plan = rollback_plan(applied);
    if applied.last() == e {
        assert(plan[0] == revert_of(e));
    } else {
        let i = choose|i: int| 0 <= i < applied.len() && applied[i] == e;
        assert(applied.drop_last()[i] == e);
        assert(applied.drop_last().contains(e));
        lemma_rollback_covers(applied.drop_last(), e);
        let sub = rollback_plan(applied.drop_last());
        let j = choose|j: int| 0 <= j < sub.len() && sub[j] == revert_of(e);
        assert(plan[j + 1] == revert_of(e));
    }
}

/// A handshake timeout fails the session, and the rollback of whatever was
/// applied by then removes the interface and — where the kill switch was
/// applied — reverts it.
pub proof fn lemma_timeout_full_rollback(applied: Seq<AppliedEffect>)
    requires
        applied.contains(AppliedEffect::InterfaceCreated),
    ensures
        spec_step(SessionState::AwaitingHandshake, SessionEvent::TimeoutElapsed)
            == SessionState::Failed(FailReason::HandshakeTimeout),
        rollback_plan(applied).contains(RevertAction::RemoveInterface),
        applied.contains(AppliedEffect::KillSwitchApplied) ==> rollback_plan(applied).contains(
            RevertAction::RevertKillSwitch,
        ),
{
    lemma_rollback_covers(applied, AppliedEffect::InterfaceCreated);
    if applied.contains(AppliedEffect::KillSwitchApplied) {
        lemma_rollback_covers(applied, AppliedEffect::KillSwitchApplied);
    }
}

/// A failed reachability probe after a successful handshake fails the
/// session with `ConnectivityFailed` and comes with the same full-rollback
/// guarantee as a handshake timeout.
pub proof fn lemma_probe_failure_full_rollback(applied: Seq<AppliedEffect>)
    requires
        applied.contains(AppliedEffect::InterfaceCreated),
    ensures
        spec_step(SessionState::Verifying, SessionEvent::ProbeFailed) == SessionState::Failed(
            FailReason::ConnectivityFailed,
        ),
        rollback_plan(applied).contains(RevertAction::RemoveInterface),
        applied.contains(AppliedEffect::KillSwitchApplied) ==> rollback_plan(applied).contains(
            RevertAction::RevertKillSwitch,
        ),
{
    lemma_rollback_covers(applied, AppliedEffect::InterfaceCreated);
    if applied.contains(AppliedEffect::KillSwitchApplied) {
        lemma_rollback_covers(applied, AppliedEffect::KillSwitchApplied);
    }
}

/// Pre-mutation state of the host's network settings, captured before any
/// route or DNS change.  A missing part means "nothing to restore".
#[derive(Clone, Debug)]
pub struct NetworkSnapshot {
    /// Previous default route: gateway and device.
    pub route: Option<(String, String)>,
    /// Previous DNS resolver configuration.
    pub dns: Option<DnsSnapshot>,
}

/// The session lifecycle controller.  It exclusively owns the session
/// state, the effect log and the network snapshot for the duration of one
/// run.
#[derive(Debug)]
pub struct SessionController {
    pub state: SessionState,
    pub applied: Vec<AppliedEffect>,
    pub snapshot: NetworkSnapshot,
}

impl SessionController {
    /// A fresh controller: idle, nothing applied, nothing captured.
    pub fn new() -> (r: SessionController)
        ensures
            r.state == SessionState::Idle,
            r.applied@ == Seq::<AppliedEffect>::empty(),
            r.snapshot.route is None,
            r.snapshot.dns is None,
    {
        SessionController {
            state: SessionState::Idle,
            applied: Vec::new(),
            snapshot: NetworkSnapshot { route: None, dns: None },
        }
    }

    /// React to one event: the state moves along the transition table;
    /// the effect log and the snapshot are untouched.
    pub fn handle(&mut self, e: SessionEvent)
        ensures
            final(self).state == spec_step(old(self).state, e),
            final(self).applied == old(self).applied,
            final(self).snapshot == old(self).snapshot,
    {
        let next = match (self.state, e) {
            (SessionState::Idle, SessionEvent::Started) => SessionState::InterfaceUp,
            (SessionState::Idle, SessionEvent::StartFailed) => SessionState::Failed(
                FailReason::InterfaceError,
            ),
            (SessionState::InterfaceUp, SessionEvent::WaitBegun)
                => SessionState::AwaitingHandshake,
            (SessionState::AwaitingHandshake, SessionEvent::HandshakeObserved)
                => SessionState::Verifying,
            (SessionState::AwaitingHandshake, SessionEvent::TimeoutElapsed)
                => SessionState::Failed(FailReason::HandshakeTimeout),
            (SessionState::Verifying, SessionEvent::ProbeSucceeded) => SessionState::Connected,
            (SessionState::Verifying, SessionEvent::ProbeFailed) => SessionState::Failed(
                FailReason::ConnectivityFailed,
            ),
            (SessionState::Connected, SessionEvent::CancelRequested)
                => SessionState::TearingDown,
            (SessionState::TearingDown, SessionEvent::RollbackComplete) => SessionState::Stopped,
            (s, _) => s,
        };
        self.state = next;
    }

    /// Record a side effect as applied, at the end of the log.
    pub fn note_applied(&mut self, e: AppliedEffect)
        ensures
            final(self).applied@ == old(self).applied@.push(e),
            final(self).state == old(self).state,
            final(self).snapshot == old(self).snapshot,
    {
        self.applied.push(e);
    }

    /// Store the captured pre-mutation network state.
    pub fn note_snapshot(&mut self, snapshot: NetworkSnapshot)
        ensures
            final(self).snapshot == snapshot,
            final(self).state == old(self).state,
            final(self).applied == old(self).applied,
    {
        self.snapshot = snapshot;
    }

    /// Drain the effect log into the revert actions that undo it, in
    /// reverse order of application.  The log is left empty, so invoking
    /// rollback again reverts nothing: rollback is idempotent and never
    /// reverts more than was applied.
    pub fn rollback(&mut self) -> (r: Vec<RevertAction>)
        ensures
            r@ == rollback_plan(old(self).applied@),
            final(self).applied@ == Seq::<AppliedEffect>::empty(),
            final(self).state == old(self).state,
            final(self).snapshot == old(self).snapshot,
    {
        let mut actions: Vec<RevertAction> = Vec::new();
        while self.applied.len() > 0
            invariant
                rollback_plan(old(self).applied@) == actions@ + rollback_plan(self.applied@),
                self.state == old(self).state,
                self.snapshot == old(self).snapshot,
            decreases self.applied.len(),
        {
            let e = match self.applied.pop() {
                Some(e) => e,
                None => {
                    return actions;
                },
            };
            let a = match e {
                AppliedEffect::InterfaceCreated => RevertAction::RemoveInterface,
                AppliedEffect::KillSwitchApplied => RevertAction::RevertKillSwitch,
                AppliedEffect::HostRouteAdded => RevertAction::RestoreRoute,
                AppliedEffect::DnsOverrideApplied => RevertAction::RestoreDns,
            };
            proof {
                assert(a == revert_of(e));
                assert(actions@.push(a) =~= actions@ + seq![a]);
            }
            actions.push(a);
        }
        proof {
            assert(actions@ + rollback_plan(self.applied@) =~= actions@);
        }
        actions
    }
}

/// Per-peer telemetry read from the tunnel interface.
#[derive(Clone, Copy, Debug, PartialEq, Eq, Structural)]
pub struct PeerTelemetry {
    pub handshake_established: bool,
    pub tx_bytes: u64,
    pub rx_bytes: u64,
}

/// Whether any peer reports a completed handshake.
pub open spec fn any_handshake(ts: Seq<PeerTelemetry>) -> bool {
    exists|i: int| 0 <= i < ts.len() && (#[trigger] ts[i]).handshake_established
}

/// Whether any peer in this telemetry reading reports a handshake.
pub fn check_handshake(ts: &Vec<PeerTelemetry>) -> (r: bool)
    ensures
        r == any_handshake(ts@),
{
    let mut i: usize = 0;
    while i < ts.len()
        invariant
            i <= ts@.len(),
            forall|j: int| 0 <= j < i ==> !(#[trigger] ts@[j]).handshake_established,
        decreases ts@.len() - i,
    {
        if ts[i].handshake_established {
            return true;
        }
        i = i + 1;
    }
    false
}

/// Evaluate a handshake wait against per-second handshake observations:
/// the first second within the ceiling at which a handshake was observed,
/// or `HandshakeTimeout` where none arrived within the ceiling.
pub fn evaluate_handshake_wait(polls: &Vec<bool>, ceiling_secs: u64) -> (r: Result<u64, VpnError>)
    requires
        polls@.len() >= ceiling_secs,
    ensures
        r matches Ok(t) ==> t < ceiling_secs && polls@[t as int] && (forall|j: int|
            0 <= j < t ==> !polls@[j]),
        r is Err <==> (forall|j: int| 0 <= j < ceiling_secs ==> !polls@[j]),
        r is Err ==> r == Err::<u64, VpnError>(VpnError::HandshakeTimeout),
{
    let n = polls.len();
    let mut t: usize = 0;
    while (t as u64) < ceiling_secs
        invariant
            t as u64 <= ceiling_secs,
            n == polls@.len(),
            polls@.len() >= ceiling_secs,
            forall|j: int| 0 <= j < t ==> !polls@[j],
        decreases ceiling_secs - t,
    {
        assert(t < n);
        if polls[t] {
            return Ok(t as u64);
        }
        t = t + 1;
    }
    Err(VpnError::HandshakeTimeout)
}

/// What one pass of the live handshake wait does next.
#[derive(Clone, Copy, Debug, PartialEq, Eq, Structural)]
pub enum WaitStep {
    /// A handshake was observed: go on to verification.
    Proceed,
    /// Nothing yet and time remains: poll again after a second.
    Retry,
    /// The ceiling elapsed without a handshake: fail and roll back.
    Fail,
}

/// The decision one wait pass takes.
pub open spec fn spec_wait_step(elapsed_secs: u64, ceiling_secs: u64, handshake_seen: bool)
    -> WaitStep {
    if handshake_seen {
        WaitStep::Proceed
    } else if elapsed_secs >= ceiling_secs {
        WaitStep::Fail
    } else {
        WaitStep::Retry
    }
}

/// One pass of the live handshake wait: proceed on any observed handshake,
/// fail once the ceiling has elapsed, retry otherwise.
pub fn handshake_wait_step(elapsed_secs: u64, ceiling_secs: u64, handshake_seen: bool) -> (r:
    WaitStep)
    ensures
        r == spec_wait_step(elapsed_secs, ceiling_secs, handshake_seen),
{
    if handshake_seen {
        WaitStep::Proceed
    } else if elapsed_secs >= ceiling_secs {
        WaitStep::Fail
    } else {
        WaitStep::Retry
    }
}

/// What the monitoring loop says of one peer: the connected summary in
/// whole kilobytes, or a notice that the handshake has lapsed.
#[derive(Clone, Copy, Debug, PartialEq, Eq, Structural)]
pub enum PeerReport {
    Connected { tx_kb: u64, rx_kb: u64 },
    AwaitingPeer,
}

/// The report for one telemetry reading.
pub open spec fn spec_peer_report(t: PeerTelemetry) -> PeerReport {
    if t.handshake_established {
        PeerReport::Connected { tx_kb: t.tx_bytes / 1024, rx_kb: t.rx_bytes / 1024 }
    } else {
        PeerReport::AwaitingPeer
    }
}

/// One monitoring pass: a report per peer, in order.
pub fn monitor_reports(ts: &Vec<PeerTelemetry>) -> (r: Vec<PeerReport>)
    ensures
        r@.len() == ts@.len(),
        forall|i: int| 0 <= i < ts@.len() ==> r@[i] == spec_peer_report(#[trigger] ts@[i]),
{
    let mut r: Vec<PeerReport> = Vec::new();
    let mut i: usize = 0;
    while i < ts.len()
        invariant
            i <= ts@.len(),
            r@.len() == i,
            forall|j: int| 0 <= j < i ==> r@[j] == spec_peer_report(#[trigger] ts@[j]),
        decreases ts@.len() - i,
    {
        let t = ts[i];
        if t.handshake_established {
            r.push(PeerReport::Connected { tx_kb: t.tx_bytes / 1024, rx_kb: t.rx_bytes / 1024 });
        } else {
            r.push(PeerReport::AwaitingPeer);
        }
        i = i + 1;
    }
    r
}

/// One step of host setup during connect, in the order the controller
/// drives them.
#[derive(Clone, Copy, Debug, PartialEq, Eq, Structural)]
pub enum SetupAction {
    CreateInterface,
    ConfigureInterface,
    ApplyKillSwitch,
    SnapshotNetwork,
    InstallHostRoute,
    ApplyDnsOverride,
}

/// The fixed setup order for a configuration: create and configure the
/// interface; apply the kill switch where enabled; and for a full tunnel,
/// capture the pre-mutation snapshot, pin the endpoint route, and override
/// DNS.  A split tunnel leaves host routing and DNS untouched.
pub open spec fn spec_connect_plan(kill_switch: bool, split_tunnel: bool) -> Seq<SetupAction> {
    seq![SetupAction::CreateInterface, SetupAction::ConfigureInterface] + (if kill_switch {
        seq![SetupAction::ApplyKillSwitch]
    } else {
        Seq::empty()
    }) + (if !split_tunnel {
        seq![
            SetupAction::SnapshotNetwork,
            SetupAction::InstallHostRoute,
            SetupAction::ApplyDnsOverride,
        ]
    } else {
        Seq::empty()
    })
}

/// The ordered setup actions that connecting with this configuration
/// applies to the host.
pub fn connect_plan(cfg: &ClientConfig) -> (r: Vec<SetupAction>)
    ensures
        r@ == spec_connect_plan(cfg.kill_switch, cfg.split_tunnel),
{
    let mut r: Vec<SetupAction> = Vec::new();
    r.push(SetupAction::CreateInterface);
    r.push(SetupAction::ConfigureInterface);
    if cfg.kill_switch {
        r.push(SetupAction::ApplyKillSwitch);
    }
    if !cfg.split_tunnel {
        r.push(SetupAction::SnapshotNetwork);
        r.push(SetupAction::InstallHostRoute);
        r.push(SetupAction::ApplyDnsOverride);
    }
    proof {
        assert(r@ =~= spec_connect_plan(cfg.kill_switch, cfg.split_tunnel));
    }
    r
}

} // verus!
