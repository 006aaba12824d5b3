//! The protocol check that the automap program runs against a router that the
//! user names: optionally find the router, ask for the public IP address, pick
//! a free local port, poke a hole in the router's firewall for it and remove
//! the hole again, with the IGDP fallback to a permanent hole. Each talk with
//! the router or the network is an action that the caller performs; its result
//! comes back as an event.

use vstd::prelude::*;
use crate::net::{IpAddress, SocketAddress, any_interface};
use crate::automap::status::{AutomapError, TestStatus, only_permanent_reason, refuses_temporary_leases};
use crate::automap::probe::{Protocol, TEMPORARY_LIFETIME, PERMANENT_LIFETIME};

verus! {

/// Where a protocol check stands: which answer it waits for. `permanent`
/// tells the IGDP retry for a permanent hole from the first attempt.
#[derive(Clone, Copy, Debug, PartialEq, Eq, Structural)]
pub enum CheckPhase {
    /// Waiting for the routers found on the subnet (IGDP only).
    FindingRouter,
    /// Waiting for the router's answer about the public IP address.
    SeekingPublicIp,
    /// Waiting for a free local port.
    FindingFreePort { permanent: bool },
    /// Waiting to learn whether that port could be bound locally.
    BindingPort { permanent: bool },
    /// Waiting for the router's answer to the hole.
    Mapping { permanent: bool },
    /// Waiting for the router's answer to the removal of the hole.
    Removing { permanent: bool },
    /// The check is over.
    Finished,
}

/// The next thing to do for the check.
#[derive(Clone, Copy, Debug, PartialEq, Eq, Structural)]
pub enum CheckAction {
    /// Look for routers on the subnet.
    FindRouters,
    /// Ask the router for the public IP address.
    GetPublicIp { router_ip: IpAddress },
    /// Find a local port that is free.
    FindFreePort,
    /// Bind a local UDP socket to `0.0.0.0:port`, and let it go again.
    BindLocalPort { port: u16 },
    /// Ask the router for a hole for `port` with `lifetime` seconds (0: permanent).
    AddMapping { router_ip: IpAddress, port: u16, lifetime: u32 },
    /// Ask the router to remove the hole for `port`.
    DeleteMapping { router_ip: IpAddress, port: u16 },
    /// The check is over; whether every step went well.
    Report(bool),
}

/// The result of the last action.
pub enum CheckEvent {
    /// The routers found, nearest first, or why none was.
    RoutersFound(Result<Vec<IpAddress>, AutomapError>),
    /// The public IP address, or why the router did not tell it.
    PublicIpFound(Result<IpAddress, AutomapError>),
    /// A free local port.
    FreePortFound(u16),
    /// Whether the local port could be bound, with the binding error's text.
    PortBound(Result<(), String>),
    /// The remap delay the router recommends for the new hole, or its refusal.
    MappingAdded(Result<u32, AutomapError>),
    /// Whether the router removed the hole.
    MappingDeleted(Result<(), AutomapError>),
}

/// A protocol check in progress against the router at `router_ip`.
pub struct ProtocolCheck {
    pub protocol: Protocol,
    pub router_ip: IpAddress,
    pub phase: CheckPhase,
    pub status: TestStatus,
    pub port: u16,
}

/// The lifetime asked for a hole: permanent for the IGDP retry.
pub open spec fn lifetime_for(permanent: bool) -> u32 {
    if permanent { PERMANENT_LIFETIME } else { TEMPORARY_LIFETIME }
}

impl ProtocolCheck {
    /// How many answers the check can still wait for, at most.
    pub open spec fn rank(self) -> nat {
        match self.phase {
            CheckPhase::FindingRouter => 9,
            CheckPhase::SeekingPublicIp => 8,
            CheckPhase::FindingFreePort { permanent } => if permanent { 4 } else { 7 },
            CheckPhase::BindingPort { permanent } => if permanent { 3 } else { 6 },
            CheckPhase::Mapping { permanent } => if permanent { 2 } else { 5 },
            CheckPhase::Removing { .. } => 1,
            CheckPhase::Finished => 0,
        }
    }

    /// Whether the check is on the IGDP retry for a permanent hole.
    pub open spec fn on_permanent_retry(self) -> bool {
        match self.phase {
            CheckPhase::FindingFreePort { permanent } => permanent,
            CheckPhase::BindingPort { permanent } => permanent,
            CheckPhase::Mapping { permanent } => permanent,
            CheckPhase::Removing { permanent } => permanent,
            _ => false,
        }
    }

    /// The invariant of a check in progress: its status is well formed and
    /// counts the steps taken; a fatal step has ended the check; only the IGDP
    /// check looks for the router and retries for a permanent hole.
    pub open spec fn wf(self) -> bool {
        &&& self.status.wf()
        &&& self.status.step + self.rank() <= 10
        &&& self.status.fatal ==> self.phase is Finished
        &&& self.phase is FindingRouter ==> self.protocol is Igdp
        &&& self.on_permanent_retry() ==> self.protocol is Igdp
    }

    /// Whether `event` answers the action that the check waits on.
    pub open spec fn accepts(self, event: CheckEvent) -> bool {
        match self.phase {
            CheckPhase::FindingRouter => event matches CheckEvent::RoutersFound(found)
                && (found matches Ok(list) ==> list@.len() > 0),
            CheckPhase::SeekingPublicIp => event is PublicIpFound,
            CheckPhase::FindingFreePort { .. } => event is FreePortFound,
            CheckPhase::BindingPort { .. } => event is PortBound,
            CheckPhase::Mapping { .. } => event is MappingAdded,
            CheckPhase::Removing { .. } => event is MappingDeleted,
            CheckPhase::Finished => false,
        }
    }

    /// The end of the check.
    pub open spec fn spec_finish(self, status: TestStatus) -> (ProtocolCheck, CheckAction) {
        let success = status.cumulative_success;
        (ProtocolCheck { phase: CheckPhase::Finished, status, ..self }, CheckAction::Report(success))
    }

    /// Removing the hole for `port`, unless a fatal step stops the check.
    pub open spec fn spec_remove(self, port: u16, status: TestStatus, permanent: bool) -> (ProtocolCheck, CheckAction) {
        if status.fatal {
            self.spec_finish(status)
        } else {
            (
                ProtocolCheck { phase: CheckPhase::Removing { permanent }, status, port, ..self },
                CheckAction::DeleteMapping { router_ip: self.router_ip, port },
            )
        }
    }

    /// Poking a hole: a free port first, unless a fatal step stops the check.
    pub open spec fn spec_poke(self, status: TestStatus, permanent: bool) -> (ProtocolCheck, CheckAction) {
        if status.fatal {
            if permanent {
                self.spec_permanent_done(0, status)
            } else {
                self.spec_poke_done(0, status)
            }
        } else {
            (ProtocolCheck { phase: CheckPhase::FindingFreePort { permanent }, status, ..self }, CheckAction::FindFreePort)
        }
    }

    /// What follows the permanent hole of the IGDP retry: its removal if it
    /// was made, or the end.
    pub open spec fn spec_permanent_done(self, port: u16, status: TestStatus) -> (ProtocolCheck, CheckAction) {
        if status.step_success {
            self.spec_remove(port, status, true)
        } else {
            self.spec_finish(status)
        }
    }

    /// What follows the first hole: its removal if it was made; for IGDP, the
    /// retry for a permanent hole when the router refused one with a lifetime;
    /// otherwise the end.
    pub open spec fn spec_poke_done(self, port: u16, status: TestStatus) -> (ProtocolCheck, CheckAction) {
        if status.step_success {
            self.spec_remove(port, status, false)
        } else if self.protocol is Igdp && status.step_error is Some
            && refuses_temporary_leases(status.step_error->Some_0) {
            let status = TestStatus { cumulative_success: true, ..status };
            if status.fatal {
                self.spec_permanent_done(0, status)
            } else {
                (
                    ProtocolCheck { phase: CheckPhase::FindingFreePort { permanent: true }, status, ..self },
                    CheckAction::FindFreePort,
                )
            }
        } else {
            self.spec_finish(status)
        }
    }

    /// Asking for the public IP address, unless a fatal step stops the check.
    pub open spec fn spec_seek(self, status: TestStatus) -> (ProtocolCheck, CheckAction) {
        if status.fatal {
            self.spec_poke(status, false)
        } else {
            (
                ProtocolCheck { phase: CheckPhase::SeekingPublicIp, status, ..self },
                CheckAction::GetPublicIp { router_ip: self.router_ip },
            )
        }
    }

    /// The check of `protocol` against `router_ip` at its start, and its first
    /// action: IGDP looks for the router first, the others go straight to the
    /// public IP address.
    pub open spec fn spec_start(protocol: Protocol, router_ip: IpAddress) -> (ProtocolCheck, CheckAction) {
        let check = ProtocolCheck {
            protocol,
            router_ip,
            phase: CheckPhase::FindingRouter,
            status: TestStatus::initial(),
            port: 0,
        };
        if protocol is Igdp {
            (check, CheckAction::FindRouters)
        } else {
            check.spec_seek(TestStatus::initial())
        }
    }

    /// The check after `event`, and what to do next.
    pub open spec fn spec_next(self, event: CheckEvent) -> (ProtocolCheck, CheckAction) {
        let status = self.status;
        match (self.phase, event) {
            (CheckPhase::FindingRouter, CheckEvent::RoutersFound(Ok(_))) => self.spec_seek(status.succeeded()),
            (CheckPhase::FindingRouter, CheckEvent::RoutersFound(Err(e))) => self.spec_seek(status.failed(e)),
            (CheckPhase::SeekingPublicIp, CheckEvent::PublicIpFound(Ok(_))) => self.spec_poke(status.succeeded(), false),
            (CheckPhase::SeekingPublicIp, CheckEvent::PublicIpFound(Err(e))) => self.spec_poke(status.failed(e), false),
            (CheckPhase::FindingFreePort { permanent }, CheckEvent::FreePortFound(port)) => (
                ProtocolCheck { phase: CheckPhase::BindingPort { permanent }, port, ..self },
                CheckAction::BindLocalPort { port },
            ),
            (CheckPhase::BindingPort { permanent }, CheckEvent::PortBound(Ok(_))) => (
                ProtocolCheck { phase: CheckPhase::Mapping { permanent }, ..self },
                CheckAction::AddMapping { router_ip: self.router_ip, port: self.port, lifetime: lifetime_for(permanent) },
            ),
            (CheckPhase::BindingPort { permanent }, CheckEvent::PortBound(Err(text))) => {
                let status = status.aborted(AutomapError::SocketBindingError(text, any_interface(self.port)));
                if permanent {
                    self.spec_permanent_done(self.port, status)
                } else {
                    self.spec_poke_done(self.port, status)
                }
            },
            (CheckPhase::Mapping { permanent }, CheckEvent::MappingAdded(added)) => {
                let status = match added {
                    Ok(_) => status.succeeded(),
                    Err(e) => status.failed(e),
                };
                if permanent {
                    self.spec_permanent_done(self.port, status)
                } else {
                    self.spec_poke_done(self.port, status)
                }
            },
            (CheckPhase::Removing { .. }, CheckEvent::MappingDeleted(deleted)) => {
                let status = match deleted {
                    Ok(_) => status.succeeded(),
                    Err(e) => status.failed(e),
                };
                self.spec_finish(status)
            },
            _ => (self, CheckAction::Report(false)),
        }
    }
}

impl ProtocolCheck {
    /// Starts a check of `protocol` against the router at `router_ip`.
    pub fn start(protocol: Protocol, router_ip: IpAddress) -> (r: (ProtocolCheck, CheckAction))
        ensures
            r == ProtocolCheck::spec_start(protocol, router_ip),
            r.0.wf(),
    {
        let check = ProtocolCheck {
            protocol,
            router_ip,
            phase: CheckPhase::FindingRouter,
            status: TestStatus::new(),
            port: 0,
        };
        if protocol == Protocol::Igdp {
            (check, CheckAction::FindRouters)
        } else {
            check.seek(TestStatus::new())
        }
    }

    fn finish(self, status: TestStatus) -> (r: (ProtocolCheck, CheckAction))
        ensures
            r == self.spec_finish(status),
    {
        let success = status.cumulative_success;
        (ProtocolCheck { phase: CheckPhase::Finished, status, ..self }, CheckAction::Report(success))
    }

    fn remove(self, port: u16, status: TestStatus, permanent: bool) -> (r: (ProtocolCheck, CheckAction))
        ensures
            r == self.spec_remove(port, status, permanent),
    {
        if status.fatal {
            self.finish(status)
        } else {
            let action = CheckAction::DeleteMapping { router_ip: self.router_ip, port };
            (ProtocolCheck { phase: CheckPhase::Removing { permanent }, status, port, ..self }, action)
        }
    }

    fn permanent_done(self, port: u16, status: TestStatus) -> (r: (ProtocolCheck, CheckAction))
        ensures
            r == self.spec_permanent_done(port, status),
    {
        if status.step_success {
            self.remove(port, status, true)
        } else {
            self.finish(status)
        }
    }

    fn poke_done(self, port: u16, status: TestStatus) -> (r: (ProtocolCheck, CheckAction))
        ensures
            r == self.spec_poke_done(port, status),
    {
        if status.step_success {
            return self.remove(port, status, false);
        }
        let retry = match &status.step_error {
            Some(error) => self.protocol == Protocol::Igdp && error.is_temporary_lease_refusal(),
            None => false,
        };
        if retry {
            let status = TestStatus { cumulative_success: true, ..status };
            if status.fatal {
                self.permanent_done(0, status)
            } else {
                (ProtocolCheck { phase: CheckPhase::FindingFreePort { permanent: true }, status, ..self }, CheckAction::FindFreePort)
            }
        } else {
            self.finish(status)
        }
    }

    fn poke(self, status: TestStatus, permanent: bool) -> (r: (ProtocolCheck, CheckAction))
        ensures
            r == self.spec_poke(status, permanent),
    {
        if status.fatal {
            if permanent {
                self.permanent_done(0, status)
            } else {
                self.poke_done(0, status)
            }
        } else {
            (ProtocolCheck { phase: CheckPhase::FindingFreePort { permanent }, status, ..self }, CheckAction::FindFreePort)
        }
    }

    fn seek(self, status: TestStatus) -> (r: (ProtocolCheck, CheckAction))
        ensures
            r == self.spec_seek(status),
    {
        if status.fatal {
            self.poke(status, false)
        } else {
            let action = CheckAction::GetPublicIp { router_ip: self.router_ip };
            (ProtocolCheck { phase: CheckPhase::SeekingPublicIp, status, ..self }, action)
        }
    }

    /// Takes the result of the last action: the check after it, and what to do next.
    pub fn step(self, event: CheckEvent) -> (r: (ProtocolCheck, CheckAction))
        requires
            self.wf(),
            self.accepts(event),
        ensures
            r == self.spec_next(event),
            r.0.wf(),
            r.0.rank() < self.rank(),
    {
        let ProtocolCheck { protocol, router_ip, phase, status, port } = self;
        let check = ProtocolCheck { protocol, router_ip, phase, status: TestStatus::new(), port };
        match event {
            CheckEvent::RoutersFound(found) => match found {
                Ok(list) => {
                    let _found_router_ip = list[0];
                    check.seek(status.succeed())
                },
                Err(e) => check.seek(status.fail(e)),
            },
            CheckEvent::PublicIpFound(found) => match found {
                Ok(_) => check.poke(status.succeed(), false),
                Err(e) => check.poke(status.fail(e), false),
            },
            CheckEvent::FreePortFound(free_port) => {
                let permanent = match phase {
                    CheckPhase::FindingFreePort { permanent } => permanent,
                    _ => false,
                };
                let action = CheckAction::BindLocalPort { port: free_port };
                (ProtocolCheck { phase: CheckPhase::BindingPort { permanent }, status, port: free_port, ..check }, action)
            },
            CheckEvent::PortBound(bound) => {
                let permanent = match phase {
                    CheckPhase::BindingPort { permanent } => permanent,
                    _ => false,
                };
                match bound {
                    Ok(_) => {
                        let lifetime = if permanent { PERMANENT_LIFETIME } else { TEMPORARY_LIFETIME };
                        let action = CheckAction::AddMapping { router_ip, port, lifetime };
                        (ProtocolCheck { phase: CheckPhase::Mapping { permanent }, status, ..check }, action)
                    },
                    Err(text) => {
                        let address = SocketAddress { ip: IpAddress::unspecified_v4(), port };
                        let status = status.abort(AutomapError::SocketBindingError(text, address));
                        if permanent {
                            check.permanent_done(port, status)
                        } else {
                            check.poke_done(port, status)
                        }
                    },
                }
            },
            CheckEvent::MappingAdded(added) => {
                let permanent = match phase {
                    CheckPhase::Mapping { permanent } => permanent,
                    _ => false,
                };
                let status = match added {
                    Ok(_) => status.succeed(),
                    Err(e) => status.fail(e),
                };
                if permanent {
                    check.permanent_done(port, status)
                } else {
                    check.poke_done(port, status)
                }
            },
            CheckEvent::MappingDeleted(deleted) => {
                let status = match deleted {
                    Ok(_) => status.succeed(),
                    Err(e) => status.fail(e),
                };
                check.finish(status)
            },
        }
    }
}

/// Every hole that the check manages to poke is removed right away: the
/// router's acceptance of a hole is answered by a request to remove the hole
/// for the same port on the same router.
pub proof fn every_poked_hole_is_removed(check: ProtocolCheck, delay: u32)
    requires
        check.wf(),
        check.phase is Mapping,
    ensures
        ({
            let (next, action) = check.spec_next(CheckEvent::MappingAdded(Ok(delay)));
            &&& action == CheckAction::DeleteMapping { router_ip: check.router_ip, port: check.port }
            &&& next.phase is Removing
            &&& next.status.step_success
        }),
{
}

/// Every hole that the check asks for is on the router the user named, for
/// the free port it found; the first is asked with a lifetime, the IGDP retry
/// for a permanent one.
pub proof fn mapping_requests_target_free_port(check: ProtocolCheck, event: CheckEvent)
    requires
        check.wf(),
        check.accepts(event),
    ensures
        check.spec_next(event).1 matches CheckAction::AddMapping { router_ip, port, lifetime } ==> {
            &&& router_ip == check.router_ip
            &&& port == check.port
            &&& lifetime == lifetime_for(check.spec_next(event).0.on_permanent_retry())
        },
{
}

/// A check reports only when it is over, and then whether every step went
/// well (after the allowed adjustment for the IGDP retry).
pub proof fn check_report_tells_cumulative_success(check: ProtocolCheck, event: CheckEvent)
    requires
        check.wf(),
        check.accepts(event),
    ensures
        (check.spec_next(event).1 is Report) <==> (check.spec_next(event).0.phase is Finished),
        check.spec_next(event).1 matches CheckAction::Report(success)
            ==> success == check.spec_next(event).0.status.cumulative_success,
{
}

/// When an IGDP router refuses a hole with a lifetime, saying it supports only
/// permanent leases, the check retries for a permanent hole on a new free
/// port, and the refusal no longer counts against it; the other protocols end
/// the check with a failure.
pub proof fn igdp_check_retries_permanent_hole(check: ProtocolCheck, reason: String)
    requires
        check.wf(),
        check.phase == (CheckPhase::Mapping { permanent: false }),
        reason@ == only_permanent_reason(),
    ensures
        ({
            let (next, action) = check.spec_next(CheckEvent::MappingAdded(Err(AutomapError::AddMappingError(reason))));
            if check.protocol is Igdp {
                &&& action == CheckAction::FindFreePort
                &&& next.phase == (CheckPhase::FindingFreePort { permanent: true })
                &&& next.status.cumulative_success
            } else {
                action == CheckAction::Report(false)
            }
        }),
{
}

/// Whether `event` says that every step it answers went well.
pub open spec fn answer_ok(event: CheckEvent) -> bool {
    match event {
        CheckEvent::RoutersFound(found) => found is Ok,
        CheckEvent::PublicIpFound(found) => found is Ok,
        CheckEvent::FreePortFound(_) => true,
        CheckEvent::PortBound(bound) => bound is Ok,
        CheckEvent::MappingAdded(added) => added is Ok,
        CheckEvent::MappingDeleted(deleted) => deleted is Ok,
    }
}

/// Whether `event` is the router's acceptance of a hole.
pub open spec fn hole_accepted(event: CheckEvent) -> bool {
    event matches CheckEvent::MappingAdded(Ok(_))
}

/// Whether `event` is the IGDP refusal of a hole with a lifetime.
pub open spec fn refused_as_temporary(event: CheckEvent) -> bool {
    event matches CheckEvent::MappingAdded(Err(e)) && refuses_temporary_leases(e)
}

/// Whether `action` asks for a hole with a lifetime.
pub open spec fn asks_temporary_hole(action: CheckAction) -> bool {
    action matches CheckAction::AddMapping { lifetime, .. } && lifetime == TEMPORARY_LIFETIME
}

/// Whether `action` asks for a hole for `port` on `router_ip`.
pub open spec fn asks_hole_for(action: CheckAction, router_ip: IpAddress, port: u16) -> bool {
    action matches CheckAction::AddMapping { router_ip: r, port: p, .. } && r == router_ip && p == port
}

/// Whether `event`, the answer to `asked`, is the refusal that the IGDP check
/// forgives by retrying for a permanent hole.
pub open spec fn forgiven_refusal(protocol: Protocol, asked: CheckAction, event: CheckEvent) -> bool {
    &&& protocol is Igdp
    &&& asks_temporary_hole(asked)
    &&& refused_as_temporary(event)
}

/// One answered event: the check stays well formed and gets closer to its
/// end, keeps its protocol and router; a phase that waits for an answer about
/// a hole comes with the request for it; a removal is asked exactly when a
/// hole was accepted, for the hole just asked; and the check stays successful
/// after a good answer, fails after a bad one, and is successful again after
/// the refusal that the IGDP retry forgives.
proof fn check_step_facts(check: ProtocolCheck, event: CheckEvent)
    requires
        check.wf(),
        check.accepts(event),
    ensures
        ({
            let (next, action) = check.spec_next(event);
            &&& next.wf()
            &&& next.rank() < check.rank()
            &&& next.protocol == check.protocol
            &&& next.router_ip == check.router_ip
            &&& next.phase matches CheckPhase::Mapping { permanent } ==> action == (CheckAction::AddMapping {
                router_ip: check.router_ip, port: next.port, lifetime: lifetime_for(permanent) })
            &&& action is AddMapping ==> next.phase is Mapping
            &&& (action is DeleteMapping <==> next.phase is Removing)
            &&& (action is DeleteMapping <==> hole_accepted(event))
            &&& action is DeleteMapping ==> {
                &&& action == (CheckAction::DeleteMapping { router_ip: check.router_ip, port: check.port })
                &&& check.phase is Mapping
            }
            &&& next.phase is Finished ==> action is Report
            &&& next.status.cumulative_success == if check.protocol is Igdp
                && check.phase == (CheckPhase::Mapping { permanent: false }) && refused_as_temporary(event) {
                true
            } else if answer_ok(event) {
                check.status.cumulative_success
            } else {
                false
            }
        }),
{
    mapping_requests_target_free_port(check, event);
    check_report_tells_cumulative_success(check, event);
}

/// The check at its start is well formed and waits for a router or the
/// public IP address.
proof fn check_start_facts(protocol: Protocol, router_ip: IpAddress)
    ensures
        ProtocolCheck::spec_start(protocol, router_ip).0.wf(),
        ProtocolCheck::spec_start(protocol, router_ip).0.status.cumulative_success,
        ProtocolCheck::spec_start(protocol, router_ip).0.router_ip == router_ip,
        ProtocolCheck::spec_start(protocol, router_ip).0.protocol == protocol,
        ProtocolCheck::spec_start(protocol, router_ip).0.phase is FindingRouter
            || ProtocolCheck::spec_start(protocol, router_ip).0.phase is SeekingPublicIp,
        !(ProtocolCheck::spec_start(protocol, router_ip).1 is AddMapping),
{
}

/// The checks and next actions that a check goes through when `events`
/// answer its actions in turn, from `check`; it stops at the first event that
/// does not answer the action waited on.
pub open spec fn check_trace(check: ProtocolCheck, events: Seq<CheckEvent>) -> Seq<(ProtocolCheck, CheckAction)>
    decreases events.len(),
{
    if events.len() == 0 || !check.accepts(events[0]) {
        Seq::empty()
    } else {
        let next = check.spec_next(events[0]);
        seq![next] + check_trace(next.0, events.drop_first())
    }
}

/// The check that the `i`-th event of a trace from `check` answers.
pub open spec fn check_before(check: ProtocolCheck, trace: Seq<(ProtocolCheck, CheckAction)>, i: int) -> ProtocolCheck {
    if i == 0 { check } else { trace[i - 1].0 }
}

/// Every entry of a trace is one step of the machine from the check before
/// it, which is well formed; checks get strictly closer to their end along it.
proof fn check_trace_steps(check: ProtocolCheck, events: Seq<CheckEvent>)
    requires
        check.wf(),
    ensures
        ({
            let trace = check_trace(check, events);
            &&& trace.len() <= events.len()
            &&& forall|i: int| 0 <= i < trace.len() ==> {
                &&& (#[trigger] check_before(check, trace, i)).wf()
                &&& check_before(check, trace, i).accepts(events[i])
                &&& trace[i] == check_before(check, trace, i).spec_next(events[i])
            }
            &&& forall|i: int, j: int| 0 <= i < j < trace.len() ==> #[trigger] trace[j].0.rank() < #[trigger] trace[i].0.rank()
        }),
    decreases events.len(),
{
    let trace = check_trace(check, events);
    if events.len() > 0 && check.accepts(events[0]) {
        let next = check.spec_next(events[0]);
        let rest_events = events.drop_first();
        let rest = check_trace(next.0, rest_events);
        check_step_facts(check, events[0]);
        check_trace_steps(next.0, rest_events);
        assert(trace == seq![next] + rest);
        assert forall|i: int| 0 <= i < trace.len() implies {
            &&& (#[trigger] check_before(check, trace, i)).wf()
            &&& check_before(check, trace, i).accepts(events[i])
            &&& trace[i] == check_before(check, trace, i).spec_next(events[i])
        } by {
            if i > 0 {
                assert(trace[i] == rest[i - 1]);
                assert(events[i] == rest_events[i - 1]);
                assert(check_before(check, trace, i) == check_before(next.0, rest, i - 1));
                assert(check_before(next.0, rest, i - 1).wf());
            }
        }
        assert forall|i: int, j: int| 0 <= i < j < trace.len() implies #[trigger] trace[j].0.rank() < #[trigger] trace[i].0.rank() by {
            assert(trace[j] == rest[j - 1]);
            if i > 0 {
                assert(trace[i] == rest[i - 1]);
            } else {
                assert(check_before(next.0, rest, j - 1).wf());
                check_step_facts(check_before(next.0, rest, j - 1), rest_events[j - 1]);
                if j > 1 {
                    assert(rest[j - 1].0.rank() < rest[0].0.rank());
                }
            }
        }
    }
}

/// The trace of a check of `protocol` against `router_ip` from its start.
pub open spec fn check_run(protocol: Protocol, router_ip: IpAddress, events: Seq<CheckEvent>) -> Seq<(ProtocolCheck, CheckAction)> {
    check_trace(ProtocolCheck::spec_start(protocol, router_ip).0, events)
}

/// The action that the `i`-th event of a check's run answers.
pub open spec fn check_asked(protocol: Protocol, router_ip: IpAddress, events: Seq<CheckEvent>, i: int) -> CheckAction {
    if i == 0 {
        ProtocolCheck::spec_start(protocol, router_ip).1
    } else {
        check_run(protocol, router_ip, events)[i - 1].1
    }
}

/// Whether the `j`-th answer of a check's run is the refusal that the IGDP
/// retry forgives.
pub open spec fn forgiven_at(protocol: Protocol, router_ip: IpAddress, events: Seq<CheckEvent>, j: int) -> bool {
    forgiven_refusal(protocol, check_asked(protocol, router_ip, events, j), events[j])
}

/// Whether every answer up to the `k`-th went well, or is followed, up to the
/// `k`-th, by a refusal that the IGDP retry forgives.
pub open spec fn answers_count_as_success(protocol: Protocol, router_ip: IpAddress, events: Seq<CheckEvent>, k: int) -> bool {
    forall|i: int| 0 <= i <= k ==> answer_ok(#[trigger] events[i])
        || exists|j: int| i <= j <= k && #[trigger] forgiven_at(protocol, router_ip, events, j)
}

/// The facts of one entry of a check's run, from the step that made it.
proof fn check_entry_facts(protocol: Protocol, router_ip: IpAddress, events: Seq<CheckEvent>, i: int)
    requires
        0 <= i < check_run(protocol, router_ip, events).len(),
    ensures
        ({
            let start = ProtocolCheck::spec_start(protocol, router_ip).0;
            let trace = check_run(protocol, router_ip, events);
            let before = check_before(start, trace, i);
            let asked = check_asked(protocol, router_ip, events, i);
            let next = trace[i].0;
            let action = trace[i].1;
            &&& before.wf()
            &&& next.rank() < before.rank()
            &&& i > 0 ==> before == trace[i - 1].0
            &&& i == 0 ==> before == start
            &&& next.router_ip == router_ip
            &&& before.router_ip == router_ip
            &&& before.protocol == protocol
            &&& (action is DeleteMapping <==> hole_accepted(events[i]))
            &&& action is DeleteMapping ==> {
                &&& action == (CheckAction::DeleteMapping { router_ip, port: before.port })
                &&& asks_hole_for(asked, router_ip, before.port)
            }
            &&& (action is DeleteMapping <==> next.phase is Removing)
            &&& (before.phase == (CheckPhase::Mapping { permanent: false }) <==> asks_temporary_hole(asked))
            &&& next.status.cumulative_success == if forgiven_refusal(protocol, asked, events[i]) {
                true
            } else if answer_ok(events[i]) {
                before.status.cumulative_success
            } else {
                false
            }
        }),
    decreases i,
{
    let start = ProtocolCheck::spec_start(protocol, router_ip).0;
    let trace = check_run(protocol, router_ip, events);
    check_start_facts(protocol, router_ip);
    check_trace_steps(start, events);
    let before = check_before(start, trace, i);
    assert(before.wf());
    check_step_facts(before, events[i]);
    if i > 0 {
        check_entry_facts(protocol, router_ip, events, i - 1);
        assert(check_before(start, trace, i - 1).wf());
        check_step_facts(check_before(start, trace, i - 1), events[i - 1]);
    }
}

/// The success that a check's state records after its `k`-th answer.
proof fn check_success_so_far(protocol: Protocol, router_ip: IpAddress, events: Seq<CheckEvent>, k: int)
    requires
        0 <= k < check_run(protocol, router_ip, events).len(),
    ensures
        check_run(protocol, router_ip, events)[k].0.status.cumulative_success
            <==> answers_count_as_success(protocol, router_ip, events, k),
    decreases k,
{
    let trace = check_run(protocol, router_ip, events);
    check_entry_facts(protocol, router_ip, events, k);
    check_start_facts(protocol, router_ip);
    let prev = if k == 0 {
        true
    } else {
        check_success_so_far(protocol, router_ip, events, k - 1);
        trace[k - 1].0.status.cumulative_success
    };
    let prev_holds = k == 0 || answers_count_as_success(protocol, router_ip, events, k - 1);
    assert(prev == prev_holds);
    let now = answers_count_as_success(protocol, router_ip, events, k);
    if forgiven_at(protocol, router_ip, events, k) {
        assert forall|i: int| 0 <= i <= k implies answer_ok(#[trigger] events[i])
            || exists|j: int| i <= j <= k && #[trigger] forgiven_at(protocol, router_ip, events, j) by {
            assert(forgiven_at(protocol, router_ip, events, k));
        }
    } else if answer_ok(events[k]) {
        if prev_holds {
            assert forall|i: int| 0 <= i <= k implies answer_ok(#[trigger] events[i])
                || exists|j: int| i <= j <= k && #[trigger] forgiven_at(protocol, router_ip, events, j) by {
                if i < k {
                    if !answer_ok(events[i]) {
                        let j = choose|j: int| i <= j <= k - 1 && #[trigger] forgiven_at(protocol, router_ip, events, j);
                        assert(forgiven_at(protocol, router_ip, events, j));
                    }
                }
            }
        }
        if now && k > 0 {
            assert forall|i: int| 0 <= i <= k - 1 implies answer_ok(#[trigger] events[i])
                || exists|j: int| i <= j <= k - 1 && #[trigger] forgiven_at(protocol, router_ip, events, j) by {
                if !answer_ok(events[i]) {
                    let j = choose|j: int| i <= j <= k && #[trigger] forgiven_at(protocol, router_ip, events, j);
                    assert(j != k);
                    assert(forgiven_at(protocol, router_ip, events, j));
                }
            }
        }
    } else {
        if now {
            assert(answer_ok(events[k]) || exists|j: int| k <= j <= k && #[trigger] forgiven_at(protocol, router_ip, events, j));
            if exists|j: int| k <= j <= k && #[trigger] forgiven_at(protocol, router_ip, events, j) {
                let j = choose|j: int| k <= j <= k && #[trigger] forgiven_at(protocol, router_ip, events, j);
                assert(j == k);
            }
        }
    }
}

/// The removals and the report of a whole check, whatever the router
/// answers: the check asks to remove a hole exactly when the router has just
/// accepted one, for that hole, and at most once; and it reports success
/// exactly when every answer went well, or was followed by the refusal of the
/// hole with a lifetime that the IGDP retry forgives. For PCP and PMP this is
/// plainly: success exactly when every answer went well.
pub proof fn check_removal_and_success_law(protocol: Protocol, router_ip: IpAddress, events: Seq<CheckEvent>)
    ensures
        ({
            let trace = check_run(protocol, router_ip, events);
            &&& forall|i: int| 0 <= i < trace.len() ==> ((#[trigger] trace[i].1 is DeleteMapping) <==> hole_accepted(events[i]))
            &&& forall|i: int| 0 <= i < trace.len() && (#[trigger] trace[i].1 is DeleteMapping) ==> {
                &&& trace[i].1->DeleteMapping_router_ip == router_ip
                &&& asks_hole_for(check_asked(protocol, router_ip, events, i), router_ip, trace[i].1->DeleteMapping_port)
            }
            &&& forall|i: int, j: int| 0 <= i < trace.len() && 0 <= j < trace.len()
                && (#[trigger] trace[i].1 is DeleteMapping) && (#[trigger] trace[j].1 is DeleteMapping) ==> i == j
            &&& forall|k: int| 0 <= k < trace.len() && (#[trigger] trace[k].1 is Report) ==>
                (trace[k].1->Report_0 <==> answers_count_as_success(protocol, router_ip, events, k))
            &&& !(protocol is Igdp) ==> forall|k: int| 0 <= k < trace.len() && (#[trigger] trace[k].1 is Report) ==>
                (trace[k].1->Report_0 <==> forall|i: int| 0 <= i <= k ==> answer_ok(#[trigger] events[i]))
        }),
{
    let start = ProtocolCheck::spec_start(protocol, router_ip).0;
    let trace = check_run(protocol, router_ip, events);
    check_start_facts(protocol, router_ip);
    check_trace_steps(start, events);
    assert forall|i: int| 0 <= i < trace.len() implies ((#[trigger] trace[i].1 is DeleteMapping) <==> hole_accepted(events[i])) by {
        check_entry_facts(protocol, router_ip, events, i);
    }
    assert forall|i: int| 0 <= i < trace.len() && (#[trigger] trace[i].1 is DeleteMapping) implies {
        &&& trace[i].1->DeleteMapping_router_ip == router_ip
        &&& asks_hole_for(check_asked(protocol, router_ip, events, i), router_ip, trace[i].1->DeleteMapping_port)
    } by {
        check_entry_facts(protocol, router_ip, events, i);
    }
    assert forall|i: int, j: int| 0 <= i < trace.len() && 0 <= j < trace.len()
        && (#[trigger] trace[i].1 is DeleteMapping) && (#[trigger] trace[j].1 is DeleteMapping) implies i == j by {
        check_entry_facts(protocol, router_ip, events, i);
        check_entry_facts(protocol, router_ip, events, j);
        if i < j {
            assert(trace[j].0.rank() < trace[i].0.rank());
        } else if j < i {
            assert(trace[i].0.rank() < trace[j].0.rank());
        }
    }
    assert forall|k: int| 0 <= k < trace.len() && (#[trigger] trace[k].1 is Report) implies
        (trace[k].1->Report_0 <==> answers_count_as_success(protocol, router_ip, events, k)) by {
        check_entry_facts(protocol, router_ip, events, k);
        check_success_so_far(protocol, router_ip, events, k);
        let before = check_before(start, trace, k);
        check_report_tells_cumulative_success(before, events[k]);
    }
    if !(protocol is Igdp) {
        assert forall|k: int| 0 <= k < trace.len() && (#[trigger] trace[k].1 is Report) implies
            (trace[k].1->Report_0 <==> forall|i: int| 0 <= i <= k ==> answer_ok(#[trigger] events[i])) by {
            assert forall|j: int| !(#[trigger] forgiven_at(protocol, router_ip, events, j)) by {}
        }
    }
}

/// Whether the check waits on its way to the IGDP permanent hole: for a free
/// port, for the binding of it, or for the router's answer to the hole.
pub open spec fn awaiting_permanent_hole(check: ProtocolCheck) -> bool {
    ||| check.phase == (CheckPhase::FindingFreePort { permanent: true })
    ||| check.phase == (CheckPhase::BindingPort { permanent: true })
    ||| check.phase == (CheckPhase::Mapping { permanent: true })
}

/// Whether `action` asks for a permanent hole.
pub open spec fn asks_permanent_hole(action: CheckAction) -> bool {
    action matches CheckAction::AddMapping { lifetime, .. } && lifetime == PERMANENT_LIFETIME
}

/// One answered event, as to the way to the permanent hole: it starts only
/// from the refusal of the hole with a lifetime by an IGDP router, and goes on
/// through a free port and its binding, with no request for a hole but the
/// permanent one at its end.
proof fn check_step_retry_facts(check: ProtocolCheck, event: CheckEvent)
    requires
        check.wf(),
        check.accepts(event),
    ensures
        ({
            let (next, action) = check.spec_next(event);
            &&& next.phase == (CheckPhase::FindingFreePort { permanent: true }) ==> {
                &&& check.phase == (CheckPhase::Mapping { permanent: false })
                &&& check.protocol is Igdp
                &&& refused_as_temporary(event)
                &&& action == CheckAction::FindFreePort
            }
            &&& next.phase == (CheckPhase::BindingPort { permanent: true }) ==> {
                &&& check.phase == (CheckPhase::FindingFreePort { permanent: true })
                &&& action is BindLocalPort
            }
            &&& next.phase == (CheckPhase::Mapping { permanent: true })
                ==> check.phase == (CheckPhase::BindingPort { permanent: true })
            &&& asks_permanent_hole(action) ==> next.phase == (CheckPhase::Mapping { permanent: true })
        }),
{
    check_step_facts(check, event);
}

/// Each state of a check's run on its way to the permanent hole goes back to
/// an IGDP refusal of the hole with a lifetime, with no request for a hole
/// since.
proof fn check_permanent_origin(protocol: Protocol, router_ip: IpAddress, events: Seq<CheckEvent>, m: int)
    requires
        0 <= m < check_run(protocol, router_ip, events).len(),
    ensures
        ({
            let trace = check_run(protocol, router_ip, events);
            awaiting_permanent_hole(trace[m].0) ==> exists|j: int| 0 <= j <= m && {
                &&& protocol is Igdp
                &&& asks_temporary_hole(check_asked(protocol, router_ip, events, j))
                &&& #[trigger] refused_as_temporary(events[j])
                &&& (j == m ==> trace[m].0.phase == (CheckPhase::FindingFreePort { permanent: true }))
                &&& forall|i: int| j <= i < m ==> !(#[trigger] trace[i].1 is AddMapping)
            }
        }),
    decreases m,
{
    let start = ProtocolCheck::spec_start(protocol, router_ip).0;
    let trace = check_run(protocol, router_ip, events);
    check_entry_facts(protocol, router_ip, events, m);
    let before = check_before(start, trace, m);
    check_trace_steps(start, events);
    check_step_retry_facts(before, events[m]);
    check_start_facts(protocol, router_ip);
    if awaiting_permanent_hole(trace[m].0) {
        if trace[m].0.phase == (CheckPhase::FindingFreePort { permanent: true }) {
            assert(refused_as_temporary(events[m]));
        } else {
            assert(m > 0);
            check_permanent_origin(protocol, router_ip, events, m - 1);
            check_entry_facts(protocol, router_ip, events, m - 1);
            check_step_retry_facts(check_before(start, trace, m - 1), events[m - 1]);
            assert(awaiting_permanent_hole(trace[m - 1].0));
            assert(!(trace[m - 1].1 is AddMapping));
            let j = choose|j: int| 0 <= j <= m - 1 && {
                &&& protocol is Igdp
                &&& asks_temporary_hole(check_asked(protocol, router_ip, events, j))
                &&& #[trigger] refused_as_temporary(events[j])
                &&& (j == m - 1 ==> trace[m - 1].0.phase == (CheckPhase::FindingFreePort { permanent: true }))
                &&& forall|i: int| j <= i < m - 1 ==> !(#[trigger] trace[i].1 is AddMapping)
            };
            assert forall|i: int| j <= i < m implies !(#[trigger] trace[i].1 is AddMapping) by {
                if i < m - 1 {
                    assert(!(trace[i].1 is AddMapping));
                }
            }
            assert(refused_as_temporary(events[j]));
        }
    }
}

/// The permanent hole of a whole check, whatever the router answers: the
/// check asks for a permanent hole only when it checks IGDP, and only after
/// the router refused the hole with a lifetime with
/// "OnlyPermanentLeasesSupported", with no other hole asked in between. Any
/// other refusal of the hole with a lifetime ends the check without one.
pub proof fn permanent_hole_only_after_refusal_law(protocol: Protocol, router_ip: IpAddress, events: Seq<CheckEvent>)
    ensures
        ({
            let trace = check_run(protocol, router_ip, events);
            forall|k: int| 0 <= k < trace.len() && asks_permanent_hole(#[trigger] trace[k].1) ==>
                exists|j: int| 0 <= j < k && {
                    &&& protocol is Igdp
                    &&& asks_temporary_hole(check_asked(protocol, router_ip, events, j))
                    &&& #[trigger] refused_as_temporary(events[j])
                    &&& forall|i: int| j <= i < k ==> !(#[trigger] trace[i].1 is AddMapping)
                }
        }),
{
    let start = ProtocolCheck::spec_start(protocol, router_ip).0;
    let trace = check_run(protocol, router_ip, events);
    assert forall|k: int| 0 <= k < trace.len() && asks_permanent_hole(#[trigger] trace[k].1) implies
        exists|j: int| 0 <= j < k && {
            &&& protocol is Igdp
            &&& asks_temporary_hole(check_asked(protocol, router_ip, events, j))
            &&& #[trigger] refused_as_temporary(events[j])
            &&& forall|i: int| j <= i < k ==> !(#[trigger] trace[i].1 is AddMapping)
        } by {
        check_entry_facts(protocol, router_ip, events, k);
        check_trace_steps(start, events);
        check_step_retry_facts(check_before(start, trace, k), events[k]);
        check_permanent_origin(protocol, router_ip, events, k);
        assert(awaiting_permanent_hole(trace[k].0));
    }
}

/// Whether `event` says that the local port could not be bound.
pub open spec fn check_bind_failed(event: CheckEvent) -> bool {
    event matches CheckEvent::PortBound(Err(_))
}

/// Whether `event` is the router's refusal of a hole.
pub open spec fn hole_refused(event: CheckEvent) -> bool {
    event matches CheckEvent::MappingAdded(Err(_))
}

/// One answered event, as to what comes next.
proof fn check_step_sequence_facts(check: ProtocolCheck, event: CheckEvent)
    requires
        check.wf(),
        check.accepts(event),
    ensures
        ({
            let (next, action) = check.spec_next(event);
            &&& event is RoutersFound ==> action == (CheckAction::GetPublicIp { router_ip: check.router_ip })
            &&& event is PublicIpFound ==> action == CheckAction::FindFreePort
            &&& event is FreePortFound ==> action == (CheckAction::BindLocalPort { port: event->FreePortFound_0 })
            &&& next.phase is BindingPort ==> action == (CheckAction::BindLocalPort { port: next.port })
            &&& (event is PortBound && !check_bind_failed(event)) ==> action == (CheckAction::AddMapping {
                router_ip: check.router_ip, port: check.port, lifetime: lifetime_for(check.on_permanent_retry()) })
            &&& check_bind_failed(event) ==> action == CheckAction::Report(false)
            &&& hole_refused(event) ==> action == if check.protocol is Igdp
                && check.phase == (CheckPhase::Mapping { permanent: false }) && refused_as_temporary(event) {
                CheckAction::FindFreePort
            } else {
                CheckAction::Report(false)
            }
            &&& action is Report ==> (event is MappingDeleted || check_bind_failed(event) || hole_refused(event))
        }),
{
}

/// The order facts of one entry of a check's run.
proof fn check_sequence_entry(protocol: Protocol, router_ip: IpAddress, events: Seq<CheckEvent>, i: int)
    requires
        0 <= i < check_run(protocol, router_ip, events).len(),
    ensures
        ({
            let trace = check_run(protocol, router_ip, events);
            let asked = check_asked(protocol, router_ip, events, i);
            &&& events[i] is RoutersFound ==> trace[i].1 == (CheckAction::GetPublicIp { router_ip })
            &&& events[i] is PublicIpFound ==> trace[i].1 == CheckAction::FindFreePort
            &&& events[i] is FreePortFound ==> trace[i].1 == (CheckAction::BindLocalPort { port: events[i]->FreePortFound_0 })
            &&& (events[i] is PortBound && !check_bind_failed(events[i])) ==> {
                &&& trace[i].1 is AddMapping
                &&& trace[i].1->AddMapping_router_ip == router_ip
                &&& asked == (CheckAction::BindLocalPort { port: trace[i].1->AddMapping_port })
            }
            &&& check_bind_failed(events[i]) ==> trace[i].1 == CheckAction::Report(false)
            &&& hole_refused(events[i]) ==> trace[i].1 == if forgiven_at(protocol, router_ip, events, i) {
                CheckAction::FindFreePort
            } else {
                CheckAction::Report(false)
            }
            &&& trace[i].1 is Report ==> (events[i] is MappingDeleted || check_bind_failed(events[i]) || hole_refused(events[i]))
        }),
{
    let start = ProtocolCheck::spec_start(protocol, router_ip).0;
    let trace = check_run(protocol, router_ip, events);
    check_start_facts(protocol, router_ip);
    check_trace_steps(start, events);
    check_entry_facts(protocol, router_ip, events, i);
    let before = check_before(start, trace, i);
    check_step_sequence_facts(before, events[i]);
    if i > 0 {
        check_entry_facts(protocol, router_ip, events, i - 1);
        let prior = check_before(start, trace, i - 1);
        assert(prior.wf());
        check_step_sequence_facts(prior, events[i - 1]);
    }
}

/// The order of a whole check, whatever the router answers: IGDP begins by
/// looking for routers, the others by asking the public IP address of the
/// router the user named; after the routers comes that request, whatever the
/// answer; after the public IP address, a free port is looked for, whatever
/// the answer; the free port found is the one bound; after a good binding,
/// the hole asked is for the port just bound, on the user's router. A failed
/// binding ends the check with a failure; a refused hole ends it with a
/// failure too, unless it is the refusal that the IGDP retry forgives, after
/// which a new free port is looked for. The check ends only on the answer to
/// a removal, a failed binding or a refused hole.
pub proof fn check_sequence_law(protocol: Protocol, router_ip: IpAddress, events: Seq<CheckEvent>)
    ensures
        ProtocolCheck::spec_start(protocol, router_ip).1 == if protocol is Igdp {
            CheckAction::FindRouters
        } else {
            CheckAction::GetPublicIp { router_ip }
        },
        ({
            let trace = check_run(protocol, router_ip, events);
            &&& forall|i: int| 0 <= i < trace.len() ==> {
                &&& (#[trigger] events[i]) is RoutersFound ==> trace[i].1 == (CheckAction::GetPublicIp { router_ip })
                &&& events[i] is PublicIpFound ==> trace[i].1 == CheckAction::FindFreePort
                &&& events[i] is FreePortFound ==> trace[i].1 == (CheckAction::BindLocalPort { port: events[i]->FreePortFound_0 })
                &&& (events[i] is PortBound && !check_bind_failed(events[i])) ==> {
                    &&& trace[i].1 is AddMapping
                    &&& trace[i].1->AddMapping_router_ip == router_ip
                    &&& check_asked(protocol, router_ip, events, i) == (CheckAction::BindLocalPort { port: trace[i].1->AddMapping_port })
                }
                &&& check_bind_failed(events[i]) ==> trace[i].1 == CheckAction::Report(false)
                &&& hole_refused(events[i]) ==> trace[i].1 == if forgiven_at(protocol, router_ip, events, i) {
                    CheckAction::FindFreePort
                } else {
                    CheckAction::Report(false)
                }
            }
            &&& forall|k: int| 0 <= k < trace.len() && (#[trigger] trace[k].1 is Report)
                ==> (events[k] is MappingDeleted || check_bind_failed(events[k]) || hole_refused(events[k]))
        }),
{
    let trace = check_run(protocol, router_ip, events);
    assert forall|i: int| 0 <= i < trace.len() implies {
        &&& (#[trigger] events[i]) is RoutersFound ==> trace[i].1 == (CheckAction::GetPublicIp { router_ip })
        &&& events[i] is PublicIpFound ==> trace[i].1 == CheckAction::FindFreePort
        &&& events[i] is FreePortFound ==> trace[i].1 == (CheckAction::BindLocalPort { port: events[i]->FreePortFound_0 })
        &&& (events[i] is PortBound && !check_bind_failed(events[i])) ==> {
            &&& trace[i].1 is AddMapping
            &&& trace[i].1->AddMapping_router_ip == router_ip
            &&& check_asked(protocol, router_ip, events, i) == (CheckAction::BindLocalPort { port: trace[i].1->AddMapping_port })
        }
        &&& check_bind_failed(events[i]) ==> trace[i].1 == CheckAction::Report(false)
        &&& hole_refused(events[i]) ==> trace[i].1 == if forgiven_at(protocol, router_ip, events, i) {
            CheckAction::FindFreePort
        } else {
            CheckAction::Report(false)
        }
    } by {
        check_sequence_entry(protocol, router_ip, events, i);
    }
    assert forall|k: int| 0 <= k < trace.len() && (#[trigger] trace[k].1 is Report)
        implies (events[k] is MappingDeleted || check_bind_failed(events[k]) || hole_refused(events[k])) by {
        check_sequence_entry(protocol, router_ip, events, k);
    }
}

} // verus!
