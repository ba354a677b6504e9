//! The service supervisor: the state machine that validates the two listen
//! addresses, starts the RPC server and the HTTP server as concurrent
//! units, and resolves the joint wait on the first outcome either one
//! produces. Whichever server stops first — by failing to bind, by a
//! transport error, or cleanly — settles the process outcome; the peer is
//! then asked to stop.

use vstd::prelude::*;
use vstd::utf8::encode_utf8;
use crate::addr::ListenAddress;
use crate::addr::spec_parse_ipv4;

verus! {

/// The two servers under supervision.
#[derive(Clone, Copy, PartialEq, Eq, Structural, Debug)]
pub enum ServerId {
    Rpc,
    Http,
}

/// The sibling of one server: the one the supervisor cancels when the
/// other stops first.
pub open spec fn spec_peer(id: ServerId) -> ServerId {
    match id {
        ServerId::Rpc => ServerId::Http,
        ServerId::Http => ServerId::Rpc,
    }
}

/// Which of the two configured hosts could not be parsed. Configuration is
/// checked in order: the RPC host first, then the HTTP host.
#[derive(Clone, Copy, PartialEq, Eq, Structural, Debug)]
pub enum ConfigError {
    BadRpcHost,
    BadHttpHost,
}

/// The terminal result of one server's run loop. A server that is still
/// running has produced no outcome yet, so none is recorded for it.
pub enum ServerOutcome {
    /// The accept loop stopped on explicit shutdown.
    ExitedClean,
    /// The bind failed or the accept loop stopped with a transport error;
    /// the text names what went wrong.
    ExitedWithError(String),
}

/// Why the supervisor terminated: a configuration rejected before any
/// listener was bound, or the first outcome a running server produced.
pub enum TerminationReason {
    InvalidConfig(ConfigError),
    FirstStop(ServerId, ServerOutcome),
}

/// True of the reasons the process reports as a failure (a non-zero exit):
/// everything but a clean first stop.
pub open spec fn spec_reason_is_failure(r: TerminationReason) -> bool {
    match r {
        TerminationReason::InvalidConfig(_) => true,
        TerminationReason::FirstStop(_, outcome) => outcome is ExitedWithError,
    }
}

/// What the runner must do after handing the supervisor an event.
#[derive(Clone, Copy, PartialEq, Eq, Structural, Debug)]
pub enum SupervisorAction {
    /// Signal the named server to stop: its sibling has already stopped,
    /// and the joint wait is resolved.
    CancelPeer(ServerId),
    /// Nothing is left to do.
    Nothing,
}

/// The supervisor's lifecycle phases.
#[derive(Clone, Copy, PartialEq, Eq, Structural, Debug)]
pub enum SupervisorPhase {
    Configuring,
    Starting,
    Running,
    Terminated,
}

/// The supervisor. Its well-formedness ties the phase to what is known:
/// addresses exist from `Starting` on, and a termination reason exists
/// exactly in `Terminated`.
pub struct Supervisor {
    pub phase: SupervisorPhase,
    pub rpc_addr: Option<ListenAddress>,
    pub http_addr: Option<ListenAddress>,
    pub reason: Option<TerminationReason>,
}

/// How a server-stopped event moves the supervisor: the first outcome of a
/// running pair terminates the supervisor, records that outcome, and asks
/// the peer to stop; any later event changes nothing but is absorbed.
pub open spec fn spec_handle_stop(s: Supervisor, id: ServerId, outcome: ServerOutcome) -> (
    Supervisor,
    SupervisorAction,
) {
    if s.phase == SupervisorPhase::Running {
        (
            Supervisor {
                phase: SupervisorPhase::Terminated,
                reason: Some(TerminationReason::FirstStop(id, outcome)),
                ..s
            },
            SupervisorAction::CancelPeer(spec_peer(id)),
        )
    } else {
        (Supervisor { phase: SupervisorPhase::Terminated, ..s }, SupervisorAction::Nothing)
    }
}

impl Supervisor {
    /// What every phase guarantees about the rest of the state.
    pub open spec fn wf(self) -> bool {
        &&& self.phase == SupervisorPhase::Configuring ==> self.rpc_addr is None
            && self.http_addr is None && self.reason is None
        &&& self.phase == SupervisorPhase::Starting ==> self.rpc_addr is Some
            && self.http_addr is Some && self.reason is None
        &&& self.phase == SupervisorPhase::Running ==> self.rpc_addr is Some
            && self.http_addr is Some && self.reason is None
        &&& self.phase == SupervisorPhase::Terminated ==> self.reason is Some
        &&& (self.reason matches Some(r) && r is InvalidConfig) ==> self.rpc_addr is None
            && self.http_addr is None
    }

    /// A fresh supervisor, about to validate its configuration.
    pub fn new() -> (s: Supervisor)
        ensures
            s.wf(),
            s.phase == SupervisorPhase::Configuring,
            s.rpc_addr is None,
            s.http_addr is None,
            s.reason is None,
    {
        Supervisor {
            phase: SupervisorPhase::Configuring,
            rpc_addr: None,
            http_addr: None,
            reason: None,
        }
    }

    /// Validates the two listen addresses. Succeeds exactly when both hosts
    /// are dotted-quad IPv4 texts, and then moves to `Starting` holding
    /// both addresses. A bad host is a startup-time fatal error, reported
    /// before any listener is bound: the supervisor terminates at once,
    /// naming the first host that failed (the RPC host is checked first).
    pub fn configure(
        &mut self,
        rpc_host: &str,
        rpc_port: u16,
        http_host: &str,
        http_port: u16,
    ) -> (r: Result<(), ConfigError>)
        requires
            old(self).wf(),
            old(self).phase == SupervisorPhase::Configuring,
        ensures
            final(self).wf(),
            (r is Ok) == (spec_parse_ipv4(encode_utf8(rpc_host@)) is Some
                && spec_parse_ipv4(encode_utf8(http_host@)) is Some),
            r is Ok ==> final(self).phase == SupervisorPhase::Starting
                && (final(self).rpc_addr matches Some(a) && a.port == rpc_port
                    && spec_parse_ipv4(encode_utf8(rpc_host@))
                        == Some((a.octets[0], a.octets[1], a.octets[2], a.octets[3])))
                && (final(self).http_addr matches Some(h) && h.port == http_port
                    && spec_parse_ipv4(encode_utf8(http_host@))
                        == Some((h.octets[0], h.octets[1], h.octets[2], h.octets[3]))),
            spec_parse_ipv4(encode_utf8(rpc_host@)) is None
                ==> r == Result::<(), ConfigError>::Err(ConfigError::BadRpcHost)
                    && final(self).phase == SupervisorPhase::Terminated
                    && final(self).reason
                        == Some(TerminationReason::InvalidConfig(ConfigError::BadRpcHost)),
            spec_parse_ipv4(encode_utf8(rpc_host@)) is Some
                && spec_parse_ipv4(encode_utf8(http_host@)) is None
                ==> r == Result::<(), ConfigError>::Err(ConfigError::BadHttpHost)
                    && final(self).phase == SupervisorPhase::Terminated
                    && final(self).reason
                        == Some(TerminationReason::InvalidConfig(ConfigError::BadHttpHost)),
    {
        let rpc_parsed = ListenAddress::parse(rpc_host, rpc_port);
        match rpc_parsed {
            None => {
                self.phase = SupervisorPhase::Terminated;
                self.reason = Some(TerminationReason::InvalidConfig(ConfigError::BadRpcHost));
                Err(ConfigError::BadRpcHost)
            },
            Some(rpc_address) => {
                let http_parsed = ListenAddress::parse(http_host, http_port);
                match http_parsed {
                    None => {
                        self.phase = SupervisorPhase::Terminated;
                        self.reason = Some(
                            TerminationReason::InvalidConfig(ConfigError::BadHttpHost),
                        );
                        Err(ConfigError::BadHttpHost)
                    },
                    Some(http_address) => {
                        self.rpc_addr = Some(rpc_address);
                        self.http_addr = Some(http_address);
                        self.phase = SupervisorPhase::Starting;
                        Ok(())
                    },
                }
            },
        }
    }

    /// Hands out the two validated addresses for the runner to bind, and
    /// moves to `Running`: from here on both servers execute concurrently
    /// and share nothing but the joint wait.
    pub fn start(&mut self) -> (addrs: (ListenAddress, ListenAddress))
        requires
            old(self).wf(),
            old(self).phase == SupervisorPhase::Starting,
        ensures
            final(self).wf(),
            final(self).phase == SupervisorPhase::Running,
            final(self).rpc_addr == old(self).rpc_addr,
            final(self).http_addr == old(self).http_addr,
            final(self).reason is None,
            Some(addrs.0) == old(self).rpc_addr,
            Some(addrs.1) == old(self).http_addr,
    {
        self.phase = SupervisorPhase::Running;
        let rpc_address = match &self.rpc_addr {
            Some(a) => *a,
            None => unreached(),
        };
        let http_address = match &self.http_addr {
            Some(a) => *a,
            None => unreached(),
        };
        (rpc_address, http_address)
    }

    /// Takes one server's terminal outcome. The first outcome of the
    /// running pair wins: it becomes the termination reason, the joint wait
    /// resolves, and the peer is asked to stop. A later outcome (the
    /// cancelled peer draining) is absorbed without touching the recorded
    /// reason.
    pub fn on_server_stopped(&mut self, id: ServerId, outcome: ServerOutcome) -> (action:
        SupervisorAction)
        requires
            old(self).wf(),
            old(self).phase == SupervisorPhase::Running || old(self).phase
                == SupervisorPhase::Terminated,
        ensures
            final(self).wf(),
            (*final(self), action) == spec_handle_stop(*old(self), id, outcome),
            final(self).phase == SupervisorPhase::Terminated,
            old(self).phase == SupervisorPhase::Running ==> final(self).reason == Some(
                TerminationReason::FirstStop(id, outcome),
            ) && action == SupervisorAction::CancelPeer(spec_peer(id)),
            old(self).phase == SupervisorPhase::Terminated
                ==> final(self).reason == old(self).reason
                    && action == SupervisorAction::Nothing,
    {
        if self.phase == SupervisorPhase::Running {
            self.phase = SupervisorPhase::Terminated;
            let peer = match id {
                ServerId::Rpc => ServerId::Http,
                ServerId::Http => ServerId::Rpc,
            };
            self.reason = Some(TerminationReason::FirstStop(id, outcome));
            SupervisorAction::CancelPeer(peer)
        } else {
            self.phase = SupervisorPhase::Terminated;
            SupervisorAction::Nothing
        }
    }

    /// Whether the terminated supervisor reports the process run as a
    /// failure: true for a rejected configuration and for a first stop
    /// with an error, false for a clean first stop.
    pub fn is_failure(&self) -> (b: bool)
        requires
            self.wf(),
            self.phase == SupervisorPhase::Terminated,
        ensures
            b == spec_reason_is_failure(self.reason->Some_0),
    {
        match &self.reason {
            Some(TerminationReason::InvalidConfig(_)) => true,
            Some(TerminationReason::FirstStop(_, ServerOutcome::ExitedWithError(_))) => true,
            Some(TerminationReason::FirstStop(_, ServerOutcome::ExitedClean)) => false,
            None => unreached(),
        }
    }
}

/// The supervisor after a whole sequence of server-stopped events, applied
/// in order.
pub open spec fn spec_run_stops(s: Supervisor, events: Seq<(ServerId, ServerOutcome)>) -> Supervisor
    decreases events.len(),
{
    if events.len() == 0 {
        s
    } else {
        spec_run_stops(spec_handle_stop(s, events[0].0, events[0].1).0, events.drop_first())
    }
}

/// A terminated supervisor absorbs every further event unchanged.
pub proof fn lemma_run_stops_absorbed(t: Supervisor, events: Seq<(ServerId, ServerOutcome)>)
    requires
        t.phase == SupervisorPhase::Terminated,
    ensures
        spec_run_stops(t, events) == t,
    decreases events.len(),
{
    if events.len() == 0 {
    } else {
        assert(spec_handle_stop(t, events[0].0, events[0].1).0 == t);
        lemma_run_stops_absorbed(t, events.drop_first());
    }
}

/// First-failure-wins over any run: however many stop events arrive, the
/// joint wait resolves on the first one, and that outcome stays the
/// recorded reason to the end.
pub proof fn lemma_run_stops_first_wins(s: Supervisor, events: Seq<(ServerId, ServerOutcome)>)
    requires
        s.wf(),
        s.phase == SupervisorPhase::Running,
        events.len() >= 1,
    ensures
        ({
            let after = spec_run_stops(s, events);
            &&& after.phase == SupervisorPhase::Terminated
            &&& after.reason == Some(TerminationReason::FirstStop(events[0].0, events[0].1))
        }),
{
    let after_first = spec_handle_stop(s, events[0].0, events[0].1).0;
    lemma_run_stops_absorbed(after_first, events.drop_first());
}

/// First-failure-wins: once the first outcome has terminated the joint
/// wait, no later server event moves the supervisor or changes the
/// recorded reason.
pub proof fn lemma_first_outcome_wins(
    s: Supervisor,
    first_id: ServerId,
    first: ServerOutcome,
    later_id: ServerId,
    later: ServerOutcome,
)
    requires
        s.wf(),
        s.phase == SupervisorPhase::Running,
    ensures
        ({
            let (after_first, _) = spec_handle_stop(s, first_id, first);
            let (after_later, later_action) = spec_handle_stop(after_first, later_id, later);
            &&& after_first.phase == SupervisorPhase::Terminated
            &&& after_later == after_first
            &&& after_later.reason == Some(TerminationReason::FirstStop(first_id, first))
            &&& later_action == SupervisorAction::Nothing
        }),
{
}

/// A rejected configuration is fatal before anything is bound: a
/// supervisor that terminated over its configuration never held a listen
/// address, so no listener was bound and no handler was ever invoked.
pub proof fn lemma_config_failure_binds_nothing(s: Supervisor, e: ConfigError)
    requires
        s.wf(),
        s.reason == Some(TerminationReason::InvalidConfig(e)),
    ensures
        s.rpc_addr is None,
        s.http_addr is None,
        spec_reason_is_failure(s.reason->Some_0),
{
}

/// The joint wait resolves on either server's outcome, and the surviving
/// sibling — never the one that stopped — is asked to stop in turn.
pub proof fn lemma_joint_wait_resolves(s: Supervisor, id: ServerId, outcome: ServerOutcome)
    requires
        s.wf(),
        s.phase == SupervisorPhase::Running,
    ensures
        ({
            let (after, action) = spec_handle_stop(s, id, outcome);
            &&& after.phase == SupervisorPhase::Terminated
            &&& after.wf()
            &&& action == SupervisorAction::CancelPeer(spec_peer(id))
            &&& spec_peer(id) != id
        }),
{
}

/// A bind collision is fatal before any request is served: when a running
/// server's first event is a bind error, the supervisor terminates with
/// that error as the process outcome, and the outcome is a failure.
pub proof fn lemma_bind_failure_is_fatal(s: Supervisor, id: ServerId, detail: String)
    requires
        s.wf(),
        s.phase == SupervisorPhase::Running,
    ensures
        ({
            let (after, _) = spec_handle_stop(s, id, ServerOutcome::ExitedWithError(detail));
            &&& after.phase == SupervisorPhase::Terminated
            &&& after.reason == Some(
                TerminationReason::FirstStop(id, ServerOutcome::ExitedWithError(detail)),
            )
            &&& spec_reason_is_failure(after.reason->Some_0)
        }),
{
}

} // verus!
