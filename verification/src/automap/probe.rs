//! The protocol test that automap's library runs against a router: find the
//! router, ask for the public IP address, bind the test port locally, and poke
//! a hole in the router's firewall for it, with the IGDP fallback to a
//! permanent hole. Each talk with the router or the network is an action that
//! the caller performs; its result comes back as an event.

use vstd::prelude::*;
use crate::net::{IpAddress, SocketAddress, any_interface};
use crate::automap::status::{AutomapError, TestStatus, only_permanent_reason, refuses_temporary_leases};

verus! {

/// The port-mapping protocols that automap tests.
#[derive(Clone, Copy, Debug, PartialEq, Eq, Structural)]
pub enum Protocol {
    Pcp,
    Pmp,
    Igdp,
}

/// The lifetime, in seconds, asked for the first hole in the firewall.
pub const TEMPORARY_LIFETIME: u32 = 5;

/// The lifetime that asks for a permanent hole.
pub const PERMANENT_LIFETIME: u32 = 0;

/// The text of the error that a failed test of `protocol` gives.
pub open spec fn failure_text(protocol: Protocol) -> Seq<char> {
    match protocol {
        Protocol::Pcp => "Either PCP is not implemented on your router or we're not doing it right\n------------------------------------------------------------------------\n"@,
        Protocol::Pmp => "Either PMP is not implemented on your router or we're not doing it right\n------------------------------------------------------------------------\n"@,
        Protocol::Igdp => "Either IGDP is not implemented on your router or we're not doing it right\n-------------------------------------------------------------------------\n"@,
    }
}

impl Protocol {
    /// The error that a failed test of this protocol gives.
    pub fn failure_message(self) -> (r: String)
        ensures
            r@ == failure_text(self),
    {
        match self {
            Protocol::Pcp => "Either PCP is not implemented on your router or we're not doing it right\n------------------------------------------------------------------------\n".to_owned(),
            Protocol::Pmp => "Either PMP is not implemented on your router or we're not doing it right\n------------------------------------------------------------------------\n".to_owned(),
            Protocol::Igdp => "Either IGDP is not implemented on your router or we're not doing it right\n-------------------------------------------------------------------------\n".to_owned(),
        }
    }
}

/// Where a protocol test stands: which answer it waits for.
#[derive(Clone, Copy, Debug, PartialEq, Eq, Structural)]
pub enum ProbePhase {
    /// Waiting for the routers found on the subnet.
    FindingRouter,
    /// Waiting for the router's answer about the public IP address.
    SeekingPublicIp,
    /// Waiting to learn whether the test port could be bound locally.
    BindingPort,
    /// Waiting for the router's answer to a hole with a lifetime.
    MappingTemporary,
    /// Waiting for the router's answer to a permanent hole: asked right after
    /// the router said it keeps only permanent holes (`after_refusal`), or as
    /// the IGDP retry after a refused hole with a lifetime.
    MappingPermanent { after_refusal: bool },
    /// The test is over.
    Finished,
}

/// What a successful test found: the router, the port it opened, and whether
/// the hole is permanent.
#[derive(Clone, Copy, Debug, PartialEq, Eq, Structural)]
pub struct ProbeOutcome {
    pub router_ip: IpAddress,
    pub port: u16,
    pub permanent_hole: bool,
}

/// The next thing to do for the test.
#[derive(Clone, Copy, Debug, PartialEq, Eq, Structural)]
pub enum ProbeAction {
    /// Look for routers on the subnet.
    FindRouters,
    /// Ask the router for the public IP address.
    GetPublicIp { router_ip: IpAddress },
    /// Bind a local UDP socket to `0.0.0.0:port`, and let it go again.
    BindLocalPort { port: u16 },
    /// Ask the router for a hole for `port` with `lifetime` seconds (0: permanent).
    AddMapping { router_ip: IpAddress, port: u16, lifetime: u32 },
    /// The test is over: what it found if every step went well, or nothing.
    Report(Option<ProbeOutcome>),
}

/// The result of the last action.
pub enum ProbeEvent {
    /// The routers found, nearest first, or why none was.
    RoutersFound(Result<Vec<IpAddress>, AutomapError>),
    /// The public IP address, or why the router did not tell it.
    PublicIpFound(Result<IpAddress, AutomapError>),
    /// Whether the local port could be bound, with the binding error's text.
    PortBound(Result<(), String>),
    /// The remap delay the router recommends for the new hole, or its refusal.
    MappingAdded(Result<u32, AutomapError>),
}

/// A protocol test in progress.
pub struct ProtocolProbe {
    pub protocol: Protocol,
    pub test_port: u16,
    pub phase: ProbePhase,
    pub status: TestStatus,
    pub router_ip: IpAddress,
    pub port: u16,
    pub permanent_hole: bool,
}

impl ProtocolProbe {
    /// How many answers the test can still wait for, at most.
    pub open spec fn rank(self) -> nat {
        match self.phase {
            ProbePhase::FindingRouter => 6,
            ProbePhase::SeekingPublicIp => 5,
            ProbePhase::BindingPort => 4,
            ProbePhase::MappingTemporary => 3,
            ProbePhase::MappingPermanent { after_refusal } => if after_refusal { 2 } else { 1 },
            ProbePhase::Finished => 0,
        }
    }

    /// The invariant of a test in progress: its status is well formed and
    /// counts the steps taken; a fatal step has ended the test and was a failure
    /// to bind the local port; only the IGDP test retries for a permanent hole.
    pub open spec fn wf(self) -> bool {
        &&& self.status.wf()
        &&& self.status.step + self.rank() <= 7
        &&& self.status.fatal ==> (self.phase is Finished
            && self.status.step_error matches Some(AutomapError::SocketBindingError(_, _)))
        &&& (self.phase matches ProbePhase::MappingPermanent { after_refusal } && !after_refusal)
            ==> self.protocol is Igdp
        &&& self.permanent_hole ==> self.protocol is Igdp && self.phase is Finished
    }

    /// Whether `event` answers the action that the test waits on.
    pub open spec fn accepts(self, event: ProbeEvent) -> bool {
        match self.phase {
            ProbePhase::FindingRouter => event matches ProbeEvent::RoutersFound(found)
                && (found matches Ok(list) ==> list@.len() > 0),
            ProbePhase::SeekingPublicIp => event is PublicIpFound,
            ProbePhase::BindingPort => event is PortBound,
            ProbePhase::MappingTemporary => event is MappingAdded,
            ProbePhase::MappingPermanent { .. } => event is MappingAdded,
            ProbePhase::Finished => false,
        }
    }

    /// The test at its start, before any router is known.
    pub open spec fn initial(protocol: Protocol, test_port: u16) -> ProtocolProbe {
        ProtocolProbe {
            protocol,
            test_port,
            phase: ProbePhase::FindingRouter,
            status: TestStatus::initial(),
            router_ip: IpAddress::V4(0, 0, 0, 0),
            port: 0,
            permanent_hole: false,
        }
    }

    /// The end of the test, with the port found and whether the hole is permanent.
    pub open spec fn spec_finish(self, port: u16, status: TestStatus, permanent_hole: bool) -> (ProtocolProbe, ProbeAction) {
        let done = ProtocolProbe { phase: ProbePhase::Finished, status, port, permanent_hole, ..self };
        let report = if status.cumulative_success {
            Some(ProbeOutcome { router_ip: self.router_ip, port, permanent_hole })
        } else {
            None
        };
        (done, ProbeAction::Report(report))
    }

    /// The IGDP retry: asking for a permanent hole after a hole with a
    /// lifetime was refused, unless a fatal step stops the test.
    pub open spec fn spec_retry_permanent(self, status: TestStatus) -> (ProtocolProbe, ProbeAction) {
        if status.fatal {
            self.spec_finish(0, status, true)
        } else {
            (
                ProtocolProbe { phase: ProbePhase::MappingPermanent { after_refusal: false }, status, ..self },
                ProbeAction::AddMapping { router_ip: self.router_ip, port: self.test_port, lifetime: PERMANENT_LIFETIME },
            )
        }
    }

    /// What follows the first hole-poking: the IGDP test retries for a
    /// permanent hole when the router refused one with a lifetime; otherwise
    /// the test is over.
    pub open spec fn spec_poke_done(self, port: u16, status: TestStatus) -> (ProtocolProbe, ProbeAction) {
        if self.protocol is Igdp && !status.step_success && status.step_error is Some
            && refuses_temporary_leases(status.step_error->Some_0) {
            self.spec_retry_permanent(TestStatus { cumulative_success: true, ..status })
        } else {
            self.spec_finish(port, status, false)
        }
    }

    /// Asking for a permanent hole right after the router said it keeps only
    /// permanent holes, unless a fatal step stops the test.
    pub open spec fn spec_poke_permanent(self, status: TestStatus) -> (ProtocolProbe, ProbeAction) {
        if status.fatal {
            self.spec_poke_done(0, status)
        } else {
            (
                ProtocolProbe { phase: ProbePhase::MappingPermanent { after_refusal: true }, status, ..self },
                ProbeAction::AddMapping { router_ip: self.router_ip, port: self.test_port, lifetime: PERMANENT_LIFETIME },
            )
        }
    }

    /// Poking the first hole: binding the test port locally first, unless a
    /// fatal step stops the test.
    pub open spec fn spec_poke(self, status: TestStatus) -> (ProtocolProbe, ProbeAction) {
        if status.fatal {
            self.spec_poke_done(0, status)
        } else {
            (
                ProtocolProbe { phase: ProbePhase::BindingPort, status, ..self },
                ProbeAction::BindLocalPort { port: self.test_port },
            )
        }
    }

    /// Asking for the public IP address, unless a fatal step stops the test.
    pub open spec fn spec_seek(self, status: TestStatus) -> (ProtocolProbe, ProbeAction) {
        if status.fatal {
            self.spec_poke(status)
        } else {
            (
                ProtocolProbe { phase: ProbePhase::SeekingPublicIp, status, ..self },
                ProbeAction::GetPublicIp { router_ip: self.router_ip },
            )
        }
    }

    /// The test after `event`, and what to do next.
    pub open spec fn spec_next(self, event: ProbeEvent) -> (ProtocolProbe, ProbeAction) {
        let status = self.status;
        match (self.phase, event) {
            (ProbePhase::FindingRouter, ProbeEvent::RoutersFound(Ok(list))) =>
                ProtocolProbe { router_ip: list@[0], ..self }.spec_seek(status.succeeded()),
            (ProbePhase::FindingRouter, ProbeEvent::RoutersFound(Err(e))) =>
                ProtocolProbe { router_ip: IpAddress::V4(0, 0, 0, 0), ..self }.spec_seek(status.failed(e)),
            (ProbePhase::SeekingPublicIp, ProbeEvent::PublicIpFound(Ok(_))) =>
                self.spec_poke(status.succeeded()),
            (ProbePhase::SeekingPublicIp, ProbeEvent::PublicIpFound(Err(e))) =>
                self.spec_poke(status.failed(e)),
            (ProbePhase::BindingPort, ProbeEvent::PortBound(Ok(_))) => (
                ProtocolProbe { phase: ProbePhase::MappingTemporary, ..self },
                ProbeAction::AddMapping { router_ip: self.router_ip, port: self.test_port, lifetime: TEMPORARY_LIFETIME },
            ),
            (ProbePhase::BindingPort, ProbeEvent::PortBound(Err(text))) =>
                self.spec_poke_done(self.test_port,
                    status.aborted(AutomapError::SocketBindingError(text, any_interface(self.test_port)))),
            (ProbePhase::MappingTemporary, ProbeEvent::MappingAdded(Ok(_))) =>
                self.spec_poke_done(self.test_port, status.succeeded().with_permanent_only(false)),
            (ProbePhase::MappingTemporary, ProbeEvent::MappingAdded(Err(AutomapError::PermanentLeasesOnly))) =>
                self.spec_poke_permanent(
                    TestStatus { step: (status.step + 1) as usize, cumulative_success: true, ..status }),
            (ProbePhase::MappingTemporary, ProbeEvent::MappingAdded(Err(e))) =>
                self.spec_poke_done(self.test_port, status.failed(e)),
            (ProbePhase::MappingPermanent { after_refusal }, ProbeEvent::MappingAdded(result)) => {
                let status = match result {
                    Ok(_) => status.succeeded().with_permanent_only(true),
                    Err(e) => status.failed(e),
                };
                if after_refusal {
                    self.spec_poke_done(self.test_port, status)
                } else {
                    self.spec_finish(self.test_port, status, true)
                }
            },
            _ => (self, ProbeAction::Report(None)),
        }
    }
}

impl ProtocolProbe {
    /// Starts a test of `protocol` on `test_port`: first, look for routers.
    pub fn start(protocol: Protocol, test_port: u16) -> (r: (ProtocolProbe, ProbeAction))
        ensures
            r.0 == ProtocolProbe::initial(protocol, test_port),
            r.1 == ProbeAction::FindRouters,
            r.0.wf(),
    {
        let probe = ProtocolProbe {
            protocol,
            test_port,
            phase: ProbePhase::FindingRouter,
            status: TestStatus::new(),
            router_ip: IpAddress::unspecified_v4(),
            port: 0,
            permanent_hole: false,
        };
        (probe, ProbeAction::FindRouters)
    }

    fn finish(self, port: u16, status: TestStatus, permanent_hole: bool) -> (r: (ProtocolProbe, ProbeAction))
        ensures
            r == self.spec_finish(port, status, permanent_hole),
    {
        let report = if status.cumulative_success {
            Some(ProbeOutcome { router_ip: self.router_ip, port, permanent_hole })
        } else {
            None
        };
        (ProtocolProbe { phase: ProbePhase::Finished, status, port, permanent_hole, ..self }, ProbeAction::Report(report))
    }

    fn retry_permanent(self, status: TestStatus) -> (r: (ProtocolProbe, ProbeAction))
        ensures
            r == self.spec_retry_permanent(status),
    {
        if status.fatal {
            self.finish(0, status, true)
        } else {
            let action = ProbeAction::AddMapping {
                router_ip: self.router_ip,
                port: self.test_port,
                lifetime: PERMANENT_LIFETIME,
            };
            (ProtocolProbe { phase: ProbePhase::MappingPermanent { after_refusal: false }, status, ..self }, action)
        }
    }

    fn poke_done(self, port: u16, status: TestStatus) -> (r: (ProtocolProbe, ProbeAction))
        ensures
            r == self.spec_poke_done(port, status),
    {
        let retry = match &status.step_error {
            Some(error) => self.protocol == Protocol::Igdp && !status.step_success
                && error.is_temporary_lease_refusal(),
            None => false,
        };
        if retry {
            let adjusted = TestStatus { cumulative_success: true, ..status };
            self.retry_permanent(adjusted)
        } else {
            self.finish(port, status, false)
        }
    }

    fn poke_permanent(self, status: TestStatus) -> (r: (ProtocolProbe, ProbeAction))
        ensures
            r == self.spec_poke_permanent(status),
    {
        if status.fatal {
            self.poke_done(0, status)
        } else {
            let action = ProbeAction::AddMapping {
                router_ip: self.router_ip,
                port: self.test_port,
                lifetime: PERMANENT_LIFETIME,
            };
            (ProtocolProbe { phase: ProbePhase::MappingPermanent { after_refusal: true }, status, ..self }, action)
        }
    }

    fn poke(self, status: TestStatus) -> (r: (ProtocolProbe, ProbeAction))
        ensures
            r == self.spec_poke(status),
    {
        if status.fatal {
            self.poke_done(0, status)
        } else {
            let action = ProbeAction::BindLocalPort { port: self.test_port };
            (ProtocolProbe { phase: ProbePhase::BindingPort, status, ..self }, action)
        }
    }

    fn seek(self, status: TestStatus) -> (r: (ProtocolProbe, ProbeAction))
        ensures
            r == self.spec_seek(status),
    {
        if status.fatal {
            self.poke(status)
        } else {
            let action = ProbeAction::GetPublicIp { router_ip: self.router_ip };
            (ProtocolProbe { phase: ProbePhase::SeekingPublicIp, status, ..self }, action)
        }
    }

    /// Takes the result of the last action: the test after it, and what to do next.
    pub fn step(self, event: ProbeEvent) -> (r: (ProtocolProbe, ProbeAction))
        requires
            self.wf(),
            self.accepts(event),
        ensures
            r == self.spec_next(event),
            r.0.wf(),
            r.0.rank() < self.rank(),
    {
        let ProtocolProbe { protocol, test_port, phase, status, router_ip, port, permanent_hole } = self;
        let probe = ProtocolProbe { protocol, test_port, phase, status: TestStatus::new(), router_ip, port, permanent_hole };
        match event {
            ProbeEvent::RoutersFound(found) => match found {
                Ok(list) => {
                    let found_router_ip = list[0];
                    let probe = ProtocolProbe { router_ip: found_router_ip, ..probe };
                    probe.seek(status.succeed())
                },
                Err(e) => {
                    let probe = ProtocolProbe { router_ip: IpAddress::unspecified_v4(), ..probe };
                    probe.seek(status.fail(e))
                },
            },
            ProbeEvent::PublicIpFound(found) => match found {
                Ok(_) => probe.poke(status.succeed()),
                Err(e) => probe.poke(status.fail(e)),
            },
            ProbeEvent::PortBound(bound) => match bound {
                Ok(_) => {
                    let action = ProbeAction::AddMapping {
                        router_ip,
                        port: test_port,
                        lifetime: TEMPORARY_LIFETIME,
                    };
                    (ProtocolProbe { phase: ProbePhase::MappingTemporary, status, ..probe }, action)
                },
                Err(text) => {
                    let address = SocketAddress { ip: IpAddress::unspecified_v4(), port: test_port };
                    let error = AutomapError::SocketBindingError(text, address);
                    probe.poke_done(test_port, status.abort(error))
                },
            },
            ProbeEvent::MappingAdded(added) => match phase {
                ProbePhase::MappingTemporary => match added {
                    Ok(_) => probe.poke_done(test_port, status.succeed().permanent_only(false)),
                    Err(AutomapError::PermanentLeasesOnly) => {
                        let mut retry = status;
                        retry.step = retry.step + 1;
                        retry.cumulative_success = true;
                        probe.poke_permanent(retry)
                    },
                    Err(e) => probe.poke_done(test_port, status.fail(e)),
                },
                ProbePhase::MappingPermanent { after_refusal } => {
                    let status = match added {
                        Ok(_) => status.succeed().permanent_only(true),
                        Err(e) => status.fail(e),
                    };
                    if after_refusal {
                        probe.poke_done(test_port, status)
                    } else {
                        probe.finish(test_port, status, true)
                    }
                },
                _ => {
                    assert(false);
                    (probe, ProbeAction::Report(None))
                },
            },
        }
    }
}

/// The result of automap's test of `protocol` from its report: what the test
/// found, or the protocol's failure message.
pub fn probe_result(protocol: Protocol, report: Option<ProbeOutcome>) -> (r: Result<ProbeOutcome, String>)
    ensures
        match report {
            Some(outcome) => r == Ok::<ProbeOutcome, String>(outcome),
            None => r matches Err(message) && message@ == failure_text(protocol),
        },
{
    match report {
        Some(outcome) => Ok(outcome),
        None => Err(protocol.failure_message()),
    }
}

/// A test that ends well reports the port it was asked to test and the router
/// that it found, with the hole permanent exactly as the final test records.
pub proof fn success_reports_tested_port(probe: ProtocolProbe, event: ProbeEvent)
    requires
        probe.wf(),
        probe.accepts(event),
    ensures
        probe.spec_next(event).1 matches ProbeAction::Report(Some(outcome)) ==> {
            &&& outcome.port == probe.test_port
            &&& outcome.router_ip == probe.router_ip
            &&& outcome.permanent_hole == probe.spec_next(event).0.permanent_hole
        },
{
}

/// A test reports only when it is over, and it reports success exactly when
/// every step went well (after the allowed adjustments for a retry).
pub proof fn report_tells_cumulative_success(probe: ProtocolProbe, event: ProbeEvent)
    requires
        probe.wf(),
        probe.accepts(event),
    ensures
        (probe.spec_next(event).1 is Report) <==> (probe.spec_next(event).0.phase is Finished),
        probe.spec_next(event).1 matches ProbeAction::Report(report)
            ==> (report is Some <==> probe.spec_next(event).0.status.cumulative_success),
{
}

/// Every hole that the test asks for is for the test port on the router it
/// found; the first is asked with a lifetime, every later one is permanent.
pub proof fn mapping_requests_target_test_port(probe: ProtocolProbe, event: ProbeEvent)
    requires
        probe.wf(),
        probe.accepts(event),
    ensures
        probe.spec_next(event).1 matches ProbeAction::AddMapping { router_ip, port, lifetime } ==> {
            &&& router_ip == probe.router_ip
            &&& port == probe.test_port
            &&& (lifetime == TEMPORARY_LIFETIME <==> probe.spec_next(event).0.phase is MappingTemporary)
            &&& (lifetime == PERMANENT_LIFETIME <==> probe.spec_next(event).0.phase is MappingPermanent)
        },
{
}

/// When the test port cannot be bound locally, the test stops at once: it
/// asks the router for nothing more and reports failure, with the binding
/// error on the test port recorded.
pub proof fn binding_failure_is_fatal(probe: ProtocolProbe, text: String)
    requires
        probe.wf(),
        probe.phase is BindingPort,
    ensures
        ({
            let (next, action) = probe.spec_next(ProbeEvent::PortBound(Err(text)));
            &&& action == ProbeAction::Report(None)
            &&& next.status.fatal
            &&& next.status.step_error == Some(AutomapError::SocketBindingError(text, any_interface(probe.test_port)))
        }),
{
}

/// An IGDP router that refuses a hole with a lifetime, saying it supports
/// only permanent leases, is asked for a permanent hole on the same port, and
/// the refusal no longer counts against the test; the other protocols report
/// failure on such a refusal.
pub proof fn igdp_retries_permanent_hole(probe: ProtocolProbe, reason: String)
    requires
        probe.wf(),
        probe.phase is MappingTemporary,
        reason@ == only_permanent_reason(),
    ensures
        ({
            let (next, action) = probe.spec_next(ProbeEvent::MappingAdded(Err(AutomapError::AddMappingError(reason))));
            if probe.protocol is Igdp {
                &&& action == ProbeAction::AddMapping { router_ip: probe.router_ip, port: probe.test_port, lifetime: PERMANENT_LIFETIME }
                &&& next.status.cumulative_success
                &&& !next.status.step_success
            } else {
                action == ProbeAction::Report(None)
            }
        }),
{
}

/// A router that keeps only permanent holes is asked for one right away,
/// whatever the protocol, and that answer alone decides the step.
pub proof fn permanent_only_router_gets_permanent_hole(probe: ProtocolProbe)
    requires
        probe.wf(),
        probe.phase is MappingTemporary,
    ensures
        ({
            let (next, action) = probe.spec_next(ProbeEvent::MappingAdded(Err(AutomapError::PermanentLeasesOnly)));
            &&& action == ProbeAction::AddMapping { router_ip: probe.router_ip, port: probe.test_port, lifetime: PERMANENT_LIFETIME }
            &&& next.status.cumulative_success
            &&& next.status.step == probe.status.step + 1
        }),
{
}

/// One answered event: the test stays well formed and gets closer to its end;
/// its protocol and test port stay; the router changes only on the answer
/// about routers; a phase that waits for the router's answer to a hole comes
/// with the request for that hole, and the end with the report.
proof fn probe_step_facts(probe: ProtocolProbe, event: ProbeEvent)
    requires
        probe.wf(),
        probe.accepts(event),
    ensures
        ({
            let (next, action) = probe.spec_next(event);
            &&& next.wf()
            &&& next.rank() < probe.rank()
            &&& next.protocol == probe.protocol
            &&& next.test_port == probe.test_port
            &&& !(probe.phase is FindingRouter) ==> next.router_ip == probe.router_ip
            &&& next.phase is MappingTemporary ==> action == (ProbeAction::AddMapping {
                router_ip: probe.router_ip, port: probe.test_port, lifetime: TEMPORARY_LIFETIME })
            &&& next.phase is MappingPermanent ==> action == (ProbeAction::AddMapping {
                router_ip: probe.router_ip, port: probe.test_port, lifetime: PERMANENT_LIFETIME })
            &&& next.phase is Finished ==> action is Report
            &&& action is AddMapping ==> (next.phase is MappingTemporary || next.phase is MappingPermanent)
            &&& next.phase is MappingPermanent ==> {
                ||| probe.phase is MappingTemporary && answered_permanent_only(event)
                ||| probe.protocol is Igdp && refused_as_temporary(event)
                    && (probe.phase is MappingTemporary || probe.phase is MappingPermanent)
            }
        }),
{
    mapping_requests_target_test_port(probe, event);
    report_tells_cumulative_success(probe, event);
}

/// The tests and next actions that a test goes through when `events` answer
/// its actions in turn, from `probe`; it stops at the first event that does
/// not answer the action waited on.
pub open spec fn probe_trace(probe: ProtocolProbe, events: Seq<ProbeEvent>) -> Seq<(ProtocolProbe, ProbeAction)>
    decreases events.len(),
{
    if events.len() == 0 || !probe.accepts(events[0]) {
        Seq::empty()
    } else {
        let next = probe.spec_next(events[0]);
        seq![next] + probe_trace(next.0, events.drop_first())
    }
}

/// The test that the `i`-th event of a trace from `probe` answers.
pub open spec fn probe_before(probe: ProtocolProbe, trace: Seq<(ProtocolProbe, ProbeAction)>, i: int) -> ProtocolProbe {
    if i == 0 { probe } else { trace[i - 1].0 }
}

/// Every entry of a trace is one step of the machine from the test before
/// it, which is well formed; tests get strictly closer to their end along it,
/// and keep their protocol, test port and, once found, their router.
proof fn probe_trace_steps(probe: ProtocolProbe, events: Seq<ProbeEvent>)
    requires
        probe.wf(),
    ensures
        ({
            let trace = probe_trace(probe, events);
            &&& trace.len() <= events.len()
            &&& forall|i: int| 0 <= i < trace.len() ==> {
                &&& (#[trigger] probe_before(probe, trace, i)).wf()
                &&& probe_before(probe, trace, i).accepts(events[i])
                &&& trace[i] == probe_before(probe, trace, i).spec_next(events[i])
                &&& trace[i].0.rank() < probe.rank()
                &&& trace[i].0.protocol == probe.protocol
                &&& trace[i].0.test_port == probe.test_port
                &&& trace[i].0.router_ip == trace[0].0.router_ip
            }
            &&& forall|i: int, j: int| 0 <= i < j < trace.len() ==> #[trigger] trace[j].0.rank() < #[trigger] trace[i].0.rank()
        }),
    decreases events.len(),
{
    let trace = probe_trace(probe, events);
    if events.len() > 0 && probe.accepts(events[0]) {
        let next = probe.spec_next(events[0]);
        let rest_events = events.drop_first();
        let rest = probe_trace(next.0, rest_events);
        probe_step_facts(probe, events[0]);
        probe_trace_steps(next.0, rest_events);
        assert(trace == seq![next] + rest);
        assert forall|i: int| 0 <= i < trace.len() implies {
            &&& (#[trigger] probe_before(probe, trace, i)).wf()
            &&& probe_before(probe, trace, i).accepts(events[i])
            &&& trace[i] == probe_before(probe, trace, i).spec_next(events[i])
            &&& trace[i].0.rank() < probe.rank()
            &&& trace[i].0.protocol == probe.protocol
            &&& trace[i].0.test_port == probe.test_port
            &&& trace[i].0.router_ip == trace[0].0.router_ip
        } by {
            if i > 0 {
                assert(trace[i] == rest[i - 1]);
                assert(events[i] == rest_events[i - 1]);
                assert(probe_before(probe, trace, i) == probe_before(next.0, rest, i - 1));
                assert(probe_before(next.0, rest, i - 1).wf());
                assert(rest[i - 1].0.router_ip == rest[0].0.router_ip);
                probe_step_facts(next.0, rest_events[0]);
            }
        }
        assert forall|i: int, j: int| 0 <= i < j < trace.len() implies #[trigger] trace[j].0.rank() < #[trigger] trace[i].0.rank() by {
            assert(trace[j] == rest[j - 1]);
            if i > 0 {
                assert(trace[i] == rest[i - 1]);
            } else {
                assert(probe_before(next.0, rest, j - 1).wf());
            }
        }
    }
}

/// Whether `event` is the answer that the router keeps only permanent holes.
pub open spec fn answered_permanent_only(event: ProbeEvent) -> bool {
    event matches ProbeEvent::MappingAdded(Err(AutomapError::PermanentLeasesOnly))
}

/// Whether `event` is the IGDP refusal of a hole with a lifetime.
pub open spec fn refused_as_temporary(event: ProbeEvent) -> bool {
    event matches ProbeEvent::MappingAdded(Err(e)) && refuses_temporary_leases(e)
}

/// Whether `action` asks the router for a hole with `lifetime`.
pub open spec fn requests_hole(action: ProbeAction, lifetime: u32) -> bool {
    action matches ProbeAction::AddMapping { lifetime: l, .. } && l == lifetime
}

/// The facts of one entry of a trace from a well-formed test, from the step
/// that made it.
proof fn probe_entry_facts(probe: ProtocolProbe, events: Seq<ProbeEvent>, i: int)
    requires
        probe.wf(),
        0 <= i < probe_trace(probe, events).len(),
    ensures
        ({
            let trace = probe_trace(probe, events);
            let before = probe_before(probe, trace, i);
            let next = trace[i].0;
            let action = trace[i].1;
            &&& before.wf()
            &&& next.wf()
            &&& next.rank() < before.rank()
            &&& before.phase is FindingRouter ==> i == 0
            &&& i > 0 ==> before == trace[i - 1].0
            &&& next.protocol == probe.protocol
            &&& next.test_port == probe.test_port
            &&& next.router_ip == trace[0].0.router_ip
            &&& !(before.phase is FindingRouter) ==> next.router_ip == before.router_ip
            &&& next.phase is MappingTemporary ==> action == (ProbeAction::AddMapping {
                router_ip: before.router_ip, port: before.test_port, lifetime: TEMPORARY_LIFETIME })
            &&& next.phase is MappingPermanent ==> action == (ProbeAction::AddMapping {
                router_ip: before.router_ip, port: before.test_port, lifetime: PERMANENT_LIFETIME })
            &&& next.phase is Finished ==> action is Report
            &&& action is AddMapping ==> (next.phase is MappingTemporary || next.phase is MappingPermanent)
            &&& next.phase is MappingPermanent ==> {
                ||| before.phase is MappingTemporary && answered_permanent_only(events[i])
                ||| before.protocol is Igdp && refused_as_temporary(events[i])
                    && (before.phase is MappingTemporary || before.phase is MappingPermanent)
            }
        }),
{
    let trace = probe_trace(probe, events);
    probe_trace_steps(probe, events);
    let before = probe_before(probe, trace, i);
    assert(before.wf());
    probe_step_facts(before, events[i]);
    if i > 0 {
        assert(probe_before(probe, trace, i - 1).wf());
        assert(trace[i - 1].0.rank() < probe.rank());
    }
}

/// The hole-poking of a whole test, whatever the router answers: the test
/// asks for at most one hole with a lifetime; every request for a permanent
/// hole comes right after a request that the router refused, either the one
/// with a lifetime answered "permanent leases only", or (IGDP only) one
/// refused with "OnlyPermanentLeasesSupported"; so the PCP and PMP tests ask
/// at most two holes and the IGDP test at most three. Every request is for
/// the test port on the router that the test found, the first with a
/// lifetime, and once the test asks for a hole, it asks nothing else of the
/// router or the network: only more holes, then its report.
pub proof fn hole_poking_law(protocol: Protocol, test_port: u16, events: Seq<ProbeEvent>)
    ensures
        ({
            let trace = probe_trace(ProtocolProbe::initial(protocol, test_port), events);
            &&& forall|i: int, j: int| 0 <= i < trace.len() && 0 <= j < trace.len()
                && requests_hole(#[trigger] trace[i].1, TEMPORARY_LIFETIME)
                && requests_hole(#[trigger] trace[j].1, TEMPORARY_LIFETIME) ==> i == j
            &&& forall|i: int| 0 <= i < trace.len() && requests_hole(#[trigger] trace[i].1, PERMANENT_LIFETIME) ==> {
                &&& 0 < i
                &&& trace[i - 1].1 is AddMapping
                &&& (requests_hole(trace[i - 1].1, TEMPORARY_LIFETIME)
                        && answered_permanent_only(events[i]))
                    || (protocol is Igdp && refused_as_temporary(events[i]))
            }
            &&& !(protocol is Igdp) ==> forall|i: int, j: int| 0 <= i < trace.len() && 0 <= j < trace.len()
                && requests_hole(#[trigger] trace[i].1, PERMANENT_LIFETIME)
                && requests_hole(#[trigger] trace[j].1, PERMANENT_LIFETIME) ==> i == j
            &&& forall|i: int, j: int, k: int| 0 <= i < j < k < trace.len()
                && requests_hole(#[trigger] trace[i].1, PERMANENT_LIFETIME)
                && requests_hole(#[trigger] trace[j].1, PERMANENT_LIFETIME)
                ==> !requests_hole(#[trigger] trace[k].1, PERMANENT_LIFETIME)
            &&& forall|i: int| 0 <= i < trace.len() && (#[trigger] trace[i].1 is AddMapping) ==> {
                &&& trace[i].1->AddMapping_port == test_port
                &&& trace[i].1->AddMapping_router_ip == trace[0].0.router_ip
            }
            &&& forall|i: int, j: int| 0 <= i < j < trace.len() && (#[trigger] trace[i].1 is AddMapping)
                ==> (#[trigger] trace[j].1 is AddMapping || trace[j].1 is Report)
            &&& forall|i: int| 0 <= i < trace.len() && (#[trigger] trace[i].1 is AddMapping)
                && (forall|j: int| 0 <= j < i ==> !(#[trigger] trace[j].1 is AddMapping))
                ==> requests_hole(trace[i].1, TEMPORARY_LIFETIME)
        }),
{
    let probe = ProtocolProbe::initial(protocol, test_port);
    let trace = probe_trace(probe, events);
    probe_trace_steps(probe, events);
    assert forall|i: int| 0 <= i < trace.len() && requests_hole(#[trigger] trace[i].1, PERMANENT_LIFETIME) implies {
        &&& 0 < i
        &&& trace[i - 1].1 is AddMapping
        &&& (requests_hole(trace[i - 1].1, TEMPORARY_LIFETIME) && answered_permanent_only(events[i]))
            || (protocol is Igdp && refused_as_temporary(events[i]))
    } by {
        probe_entry_facts(probe, events, i);
        if i > 0 {
            probe_entry_facts(probe, events, i - 1);
        }
    }
    assert forall|i: int| 0 <= i < trace.len() && (#[trigger] trace[i].1 is AddMapping)
        && (forall|j: int| 0 <= j < i ==> !(#[trigger] trace[j].1 is AddMapping))
        implies requests_hole(trace[i].1, TEMPORARY_LIFETIME) by {
        probe_entry_facts(probe, events, i);
        if i > 0 {
            probe_entry_facts(probe, events, i - 1);
            assert(!(trace[i - 1].1 is AddMapping));
        }
    }
    assert forall|i: int| 0 <= i < trace.len() && (#[trigger] trace[i].1 is AddMapping) implies {
        &&& trace[i].1->AddMapping_port == test_port
        &&& trace[i].1->AddMapping_router_ip == trace[0].0.router_ip
    } by {
        probe_entry_facts(probe, events, i);
        if i > 0 {
            probe_entry_facts(probe, events, i - 1);
        }
    }
    assert forall|i: int, j: int| 0 <= i < j < trace.len() && (#[trigger] trace[i].1 is AddMapping)
        implies (#[trigger] trace[j].1 is AddMapping || trace[j].1 is Report) by {
        probe_entry_facts(probe, events, i);
        probe_entry_facts(probe, events, j);
        assert(trace[j].0.rank() < trace[i].0.rank());
    }
    assert forall|i: int, j: int| 0 <= i < trace.len() && 0 <= j < trace.len()
        && requests_hole(#[trigger] trace[i].1, TEMPORARY_LIFETIME)
        && requests_hole(#[trigger] trace[j].1, TEMPORARY_LIFETIME) implies i == j by {
        probe_entry_facts(probe, events, i);
        probe_entry_facts(probe, events, j);
        if i < j {
            assert(trace[j].0.rank() < trace[i].0.rank());
        } else if j < i {
            assert(trace[i].0.rank() < trace[j].0.rank());
        }
    }
    assert forall|i: int, j: int| 0 <= i < trace.len() && 0 <= j < trace.len()
        && requests_hole(#[trigger] trace[i].1, PERMANENT_LIFETIME)
        && requests_hole(#[trigger] trace[j].1, PERMANENT_LIFETIME) && !(protocol is Igdp) implies i == j by {
        probe_entry_facts(probe, events, i);
        probe_entry_facts(probe, events, j);
        if i < j {
            assert(trace[j].0.rank() < trace[i].0.rank());
        } else if j < i {
            assert(trace[i].0.rank() < trace[j].0.rank());
        }
    }
    assert forall|i: int, j: int, k: int| 0 <= i < j < k < trace.len()
        && requests_hole(#[trigger] trace[i].1, PERMANENT_LIFETIME)
        && requests_hole(#[trigger] trace[j].1, PERMANENT_LIFETIME)
        implies !requests_hole(#[trigger] trace[k].1, PERMANENT_LIFETIME) by {
        probe_entry_facts(probe, events, i);
        probe_entry_facts(probe, events, j);
        probe_entry_facts(probe, events, k);
        assert(trace[j].0.rank() < trace[i].0.rank());
        assert(trace[k].0.rank() < trace[j].0.rank());
    }
}

/// Whether `event` says that the step it answers went well.
pub open spec fn probe_answer_ok(event: ProbeEvent) -> bool {
    match event {
        ProbeEvent::RoutersFound(found) => found is Ok,
        ProbeEvent::PublicIpFound(found) => found is Ok,
        ProbeEvent::PortBound(bound) => bound is Ok,
        ProbeEvent::MappingAdded(added) => added is Ok,
    }
}

/// One answered event, as to success: the test stays successful after a good
/// answer and fails after a bad one, except that it is successful again after
/// the answer "permanent leases only" to the hole with a lifetime, and (IGDP)
/// after the refusal "OnlyPermanentLeasesSupported" of a hole that is not
/// itself the IGDP retry. The permanent hole asked right after "permanent
/// leases only" and the IGDP retry are told apart by the answer before them.
proof fn probe_step_success_facts(probe: ProtocolProbe, event: ProbeEvent)
    requires
        probe.wf(),
        probe.accepts(event),
    ensures
        ({
            let (next, action) = probe.spec_next(event);
            &&& next.status.cumulative_success == if (probe.phase is MappingTemporary && answered_permanent_only(event))
                || (probe.protocol is Igdp && refused_as_temporary(event)
                    && (probe.phase is MappingTemporary || probe.phase == (ProbePhase::MappingPermanent { after_refusal: true }))) {
                true
            } else if probe_answer_ok(event) {
                probe.status.cumulative_success
            } else {
                false
            }
            &&& next.phase == (ProbePhase::MappingPermanent { after_refusal: true })
                ==> (probe.phase is MappingTemporary && answered_permanent_only(event))
            &&& next.phase == (ProbePhase::MappingPermanent { after_refusal: false }) ==> refused_as_temporary(event)
            &&& action matches ProbeAction::Report(report) ==> (report is Some <==> next.status.cumulative_success)
        }),
{
    report_tells_cumulative_success(probe, event);
}

/// The action that the `i`-th event of a test's run from its start answers.
pub open spec fn probe_asked(protocol: Protocol, test_port: u16, events: Seq<ProbeEvent>, i: int) -> ProbeAction {
    if i == 0 {
        ProbeAction::FindRouters
    } else {
        probe_trace(ProtocolProbe::initial(protocol, test_port), events)[i - 1].1
    }
}

/// Whether the `j`-th answer of a test's run is a refusal that the test
/// forgives by asking a permanent hole: "permanent leases only" to the hole
/// with a lifetime, or (IGDP) "OnlyPermanentLeasesSupported" to the hole with
/// a lifetime or to the permanent hole asked right after "permanent leases
/// only".
pub open spec fn probe_forgiven_at(protocol: Protocol, test_port: u16, events: Seq<ProbeEvent>, j: int) -> bool {
    ||| requests_hole(probe_asked(protocol, test_port, events, j), TEMPORARY_LIFETIME) && answered_permanent_only(events[j])
    ||| probe_retry_at(protocol, test_port, events, j)
}

/// Whether the `j`-th answer of a test's run makes the IGDP test retry for a
/// permanent hole: "OnlyPermanentLeasesSupported" to the hole with a lifetime,
/// or to the permanent hole asked right after "permanent leases only".
pub open spec fn probe_retry_at(protocol: Protocol, test_port: u16, events: Seq<ProbeEvent>, j: int) -> bool {
    let asked = probe_asked(protocol, test_port, events, j);
    &&& protocol is Igdp
    &&& refused_as_temporary(events[j])
    &&& requests_hole(asked, TEMPORARY_LIFETIME)
        || (requests_hole(asked, PERMANENT_LIFETIME) && j > 0 && answered_permanent_only(events[j - 1]))
}

/// Whether every answer up to the `k`-th went well, or is followed, up to the
/// `k`-th, by a refusal that the test forgives.
pub open spec fn probe_answers_count_as_success(protocol: Protocol, test_port: u16, events: Seq<ProbeEvent>, k: int) -> bool {
    forall|i: int| 0 <= i <= k ==> probe_answer_ok(#[trigger] events[i])
        || exists|j: int| i <= j <= k && #[trigger] probe_forgiven_at(protocol, test_port, events, j)
}

/// What the test before the `i`-th answer of a run waits on, told by the
/// action it asked.
proof fn probe_run_entry(protocol: Protocol, test_port: u16, events: Seq<ProbeEvent>, i: int)
    requires
        0 <= i < probe_trace(ProtocolProbe::initial(protocol, test_port), events).len(),
    ensures
        ({
            let probe = ProtocolProbe::initial(protocol, test_port);
            let trace = probe_trace(probe, events);
            let before = probe_before(probe, trace, i);
            let asked = probe_asked(protocol, test_port, events, i);
            &&& before.wf()
            &&& before.accepts(events[i])
            &&& trace[i] == before.spec_next(events[i])
            &&& before.protocol == protocol
            &&& (before.phase is MappingTemporary <==> requests_hole(asked, TEMPORARY_LIFETIME))
            &&& (before.phase == (ProbePhase::MappingPermanent { after_refusal: true })
                <==> (requests_hole(asked, PERMANENT_LIFETIME) && i > 0 && answered_permanent_only(events[i - 1])))
            &&& i == 0 ==> before == probe
        }),
{
    let probe = ProtocolProbe::initial(protocol, test_port);
    let trace = probe_trace(probe, events);
    probe_trace_steps(probe, events);
    let before = probe_before(probe, trace, i);
    assert(before.wf());
    if i > 0 {
        probe_entry_facts(probe, events, i - 1);
        let prior = probe_before(probe, trace, i - 1);
        probe_step_success_facts(prior, events[i - 1]);
    }
}

/// The success that a test records after its `k`-th answer.
proof fn probe_success_so_far(protocol: Protocol, test_port: u16, events: Seq<ProbeEvent>, k: int)
    requires
        0 <= k < probe_trace(ProtocolProbe::initial(protocol, test_port), events).len(),
    ensures
        probe_trace(ProtocolProbe::initial(protocol, test_port), events)[k].0.status.cumulative_success
            <==> probe_answers_count_as_success(protocol, test_port, events, k),
    decreases k,
{
    let probe = ProtocolProbe::initial(protocol, test_port);
    let trace = probe_trace(probe, events);
    probe_run_entry(protocol, test_port, events, k);
    let before = probe_before(probe, trace, k);
    probe_step_success_facts(before, events[k]);
    let prev = if k == 0 {
        true
    } else {
        probe_success_so_far(protocol, test_port, events, k - 1);
        trace[k - 1].0.status.cumulative_success
    };
    assert(before.status.cumulative_success == prev);
    let prev_holds = k == 0 || probe_answers_count_as_success(protocol, test_port, events, k - 1);
    assert(prev == prev_holds);
    let now = probe_answers_count_as_success(protocol, test_port, events, k);
    if probe_forgiven_at(protocol, test_port, events, k) {
        assert forall|i: int| 0 <= i <= k implies probe_answer_ok(#[trigger] events[i])
            || exists|j: int| i <= j <= k && #[trigger] probe_forgiven_at(protocol, test_port, events, j) by {
            assert(probe_forgiven_at(protocol, test_port, events, k));
        }
    } else if probe_answer_ok(events[k]) {
        if prev_holds {
            assert forall|i: int| 0 <= i <= k implies probe_answer_ok(#[trigger] events[i])
                || exists|j: int| i <= j <= k && #[trigger] probe_forgiven_at(protocol, test_port, events, j) by {
                if i < k && !probe_answer_ok(events[i]) {
                    let j = choose|j: int| i <= j <= k - 1 && #[trigger] probe_forgiven_at(protocol, test_port, events, j);
                    assert(probe_forgiven_at(protocol, test_port, events, j));
                }
            }
        }
        if now && k > 0 {
            assert forall|i: int| 0 <= i <= k - 1 implies probe_answer_ok(#[trigger] events[i])
                || exists|j: int| i <= j <= k - 1 && #[trigger] probe_forgiven_at(protocol, test_port, events, j) by {
                if !probe_answer_ok(events[i]) {
                    let j = choose|j: int| i <= j <= k && #[trigger] probe_forgiven_at(protocol, test_port, events, j);
                    assert(j != k);
                    assert(probe_forgiven_at(protocol, test_port, events, j));
                }
            }
        }
    } else {
        if now {
            assert(probe_answer_ok(events[k]) || exists|j: int| k <= j <= k && #[trigger] probe_forgiven_at(protocol, test_port, events, j));
            if exists|j: int| k <= j <= k && #[trigger] probe_forgiven_at(protocol, test_port, events, j) {
                let j = choose|j: int| k <= j <= k && #[trigger] probe_forgiven_at(protocol, test_port, events, j);
                assert(j == k);
            }
        }
    }
}

/// The report of a whole test, whatever the router answers: it tells what
/// the test found exactly when every answer went well, or was followed by a
/// refusal that the test forgives by asking a permanent hole ("permanent
/// leases only" to the hole with a lifetime; for IGDP, "OnlyPermanentLeasesSupported"
/// to a hole that is not itself the IGDP retry). So a failed answer about
/// routers, the public IP address, the local port or a hole, with no such
/// refusal after it, makes the test fail; for PCP and PMP without a "permanent
/// leases only" answer, the test succeeds exactly when every answer went well.
pub proof fn probe_report_law(protocol: Protocol, test_port: u16, events: Seq<ProbeEvent>)
    ensures
        ({
            let trace = probe_trace(ProtocolProbe::initial(protocol, test_port), events);
            &&& forall|k: int| 0 <= k < trace.len() && (#[trigger] trace[k].1 is Report) ==>
                (trace[k].1->Report_0 is Some <==> probe_answers_count_as_success(protocol, test_port, events, k))
            &&& forall|k: int| 0 <= k < trace.len() && (#[trigger] trace[k].1 is Report)
                && !(protocol is Igdp) && (forall|i: int| 0 <= i <= k ==> !answered_permanent_only(#[trigger] events[i])) ==>
                (trace[k].1->Report_0 is Some <==> forall|i: int| 0 <= i <= k ==> probe_answer_ok(#[trigger] events[i]))
        }),
{
    let probe = ProtocolProbe::initial(protocol, test_port);
    let trace = probe_trace(probe, events);
    assert forall|k: int| 0 <= k < trace.len() && (#[trigger] trace[k].1 is Report) implies
        (trace[k].1->Report_0 is Some <==> probe_answers_count_as_success(protocol, test_port, events, k)) by {
        probe_run_entry(protocol, test_port, events, k);
        probe_success_so_far(protocol, test_port, events, k);
        probe_step_success_facts(probe_before(probe, trace, k), events[k]);
    }
    assert forall|k: int| 0 <= k < trace.len() && (#[trigger] trace[k].1 is Report)
        && !(protocol is Igdp) && (forall|i: int| 0 <= i <= k ==> !answered_permanent_only(#[trigger] events[i])) implies
        (trace[k].1->Report_0 is Some <==> forall|i: int| 0 <= i <= k ==> probe_answer_ok(#[trigger] events[i])) by {
        assert forall|j: int| 0 <= j <= k implies !(#[trigger] probe_forgiven_at(protocol, test_port, events, j)) by {
            assert(!answered_permanent_only(events[j]));
        }
    }
}

/// The router that an answer about routers gives: the nearest found, or the
/// unspecified address when none was.
pub open spec fn router_found(event: ProbeEvent) -> IpAddress {
    match event {
        ProbeEvent::RoutersFound(Ok(list)) => list@[0],
        _ => IpAddress::V4(0, 0, 0, 0),
    }
}

/// Whether `event` says that the local port could not be bound.
pub open spec fn bind_failed(event: ProbeEvent) -> bool {
    event matches ProbeEvent::PortBound(Err(_))
}

/// One answered event, as to what comes next: after the routers, the public
/// IP address of the router found; after that, the binding of the test port;
/// after the binding, the hole with a lifetime; the test ends only on an
/// answer about a hole or a failed binding, reporting the router and the test
/// port; and the test is on or past the IGDP retry exactly when it was, or
/// the answer is the refusal that starts the retry.
proof fn probe_step_sequence_facts(probe: ProtocolProbe, event: ProbeEvent)
    requires
        probe.wf(),
        probe.accepts(event),
    ensures
        ({
            let (next, action) = probe.spec_next(event);
            &&& event is RoutersFound ==> action == (ProbeAction::GetPublicIp { router_ip: next.router_ip })
                && next.router_ip == router_found(event)
            &&& event is PublicIpFound ==> action == (ProbeAction::BindLocalPort { port: probe.test_port })
            &&& (event is PortBound && !bind_failed(event)) ==> action == (ProbeAction::AddMapping {
                router_ip: probe.router_ip, port: probe.test_port, lifetime: TEMPORARY_LIFETIME })
            &&& action is Report ==> (event is MappingAdded || bind_failed(event))
            &&& action matches ProbeAction::Report(Some(outcome)) ==> {
                &&& outcome.port == probe.test_port
                &&& outcome.router_ip == probe.router_ip
                &&& outcome.permanent_hole == next.permanent_hole
            }
            &&& (next.phase == (ProbePhase::MappingPermanent { after_refusal: false }) || next.permanent_hole) <==> {
                ||| probe.phase == (ProbePhase::MappingPermanent { after_refusal: false })
                ||| probe.permanent_hole
                ||| probe.protocol is Igdp && refused_as_temporary(event)
                    && (probe.phase is MappingTemporary || probe.phase == (ProbePhase::MappingPermanent { after_refusal: true }))
            }
        }),
{
    success_reports_tested_port(probe, event);
}

/// Whether a test of a run is on or past the IGDP retry, exactly when an
/// answer so far started it.
proof fn probe_retry_so_far(protocol: Protocol, test_port: u16, events: Seq<ProbeEvent>, k: int)
    requires
        0 <= k < probe_trace(ProtocolProbe::initial(protocol, test_port), events).len(),
    ensures
        ({
            let next = probe_trace(ProtocolProbe::initial(protocol, test_port), events)[k].0;
            (next.phase == (ProbePhase::MappingPermanent { after_refusal: false }) || next.permanent_hole)
                <==> exists|j: int| 0 <= j <= k && #[trigger] probe_retry_at(protocol, test_port, events, j)
        }),
    decreases k,
{
    let probe = ProtocolProbe::initial(protocol, test_port);
    let trace = probe_trace(probe, events);
    probe_run_entry(protocol, test_port, events, k);
    let before = probe_before(probe, trace, k);
    probe_step_sequence_facts(before, events[k]);
    if k > 0 {
        probe_retry_so_far(protocol, test_port, events, k - 1);
    }
    let next = trace[k].0;
    if next.phase == (ProbePhase::MappingPermanent { after_refusal: false }) || next.permanent_hole {
        if probe_retry_at(protocol, test_port, events, k) {
        } else {
            assert(k > 0);
            let j = choose|j: int| 0 <= j <= k - 1 && #[trigger] probe_retry_at(protocol, test_port, events, j);
            assert(probe_retry_at(protocol, test_port, events, j));
        }
    } else {
        assert(!probe_retry_at(protocol, test_port, events, k));
        if exists|j: int| 0 <= j <= k && #[trigger] probe_retry_at(protocol, test_port, events, j) {
            let j = choose|j: int| 0 <= j <= k && #[trigger] probe_retry_at(protocol, test_port, events, j);
            assert(j != k);
            assert(probe_retry_at(protocol, test_port, events, j));
        }
    }
}

/// The order facts of one entry of a test's run.
proof fn probe_sequence_entry(protocol: Protocol, test_port: u16, events: Seq<ProbeEvent>, i: int)
    requires
        0 <= i < probe_trace(ProtocolProbe::initial(protocol, test_port), events).len(),
    ensures
        ({
            let trace = probe_trace(ProtocolProbe::initial(protocol, test_port), events);
            &&& trace[0].0.router_ip == router_found(events[0])
            &&& events[i] is RoutersFound
                ==> trace[i].1 == (ProbeAction::GetPublicIp { router_ip: router_found(events[0]) })
            &&& events[i] is PublicIpFound ==> trace[i].1 == (ProbeAction::BindLocalPort { port: test_port })
            &&& events[i] is PortBound && !bind_failed(events[i])
                ==> trace[i].1 == (ProbeAction::AddMapping {
                    router_ip: router_found(events[0]), port: test_port, lifetime: TEMPORARY_LIFETIME })
            &&& trace[i].1 is Report ==> (events[i] is MappingAdded || bind_failed(events[i]))
            &&& trace[i].1 is Report && trace[i].1->Report_0 is Some ==> {
                &&& trace[i].1->Report_0->Some_0.router_ip == router_found(events[0])
                &&& trace[i].1->Report_0->Some_0.port == test_port
                &&& (trace[i].1->Report_0->Some_0.permanent_hole
                    <==> exists|j: int| 0 <= j <= i && #[trigger] probe_retry_at(protocol, test_port, events, j))
            }
        }),
{
    let probe = ProtocolProbe::initial(protocol, test_port);
    let trace = probe_trace(probe, events);
    probe_run_entry(protocol, test_port, events, 0);
    probe_step_sequence_facts(probe, events[0]);
    probe_run_entry(protocol, test_port, events, i);
    probe_entry_facts(probe, events, i);
    let before = probe_before(probe, trace, i);
    probe_step_sequence_facts(before, events[i]);
    probe_retry_so_far(protocol, test_port, events, i);
    if i > 0 {
        probe_entry_facts(probe, events, i - 1);
        assert(before == trace[i - 1].0);
        assert(!(before.phase is FindingRouter));
    }
}

/// The order of a whole test, whatever the router answers: after the
/// routers, it asks the public IP address of the router found (the nearest,
/// or the unspecified address when none was found), whatever the answer;
/// after that, it binds the test port, whatever the answer; after a good
/// binding, it asks the hole with a lifetime. It ends only on an answer about
/// a hole or a failed binding; a successful report names the router found and
/// the test port, and tells a permanent hole exactly when the IGDP retry for
/// one took place.
pub proof fn probe_sequence_law(protocol: Protocol, test_port: u16, events: Seq<ProbeEvent>)
    ensures
        ({
            let trace = probe_trace(ProtocolProbe::initial(protocol, test_port), events);
            &&& trace.len() > 0 ==> trace[0].0.router_ip == router_found(events[0])
            &&& forall|i: int| 0 <= i < trace.len() && (#[trigger] events[i]) is RoutersFound
                ==> trace[i].1 == (ProbeAction::GetPublicIp { router_ip: router_found(events[0]) })
            &&& forall|i: int| 0 <= i < trace.len() && (#[trigger] events[i]) is PublicIpFound
                ==> trace[i].1 == (ProbeAction::BindLocalPort { port: test_port })
            &&& forall|i: int| 0 <= i < trace.len() && (#[trigger] events[i]) is PortBound && !bind_failed(events[i])
                ==> trace[i].1 == (ProbeAction::AddMapping {
                    router_ip: router_found(events[0]), port: test_port, lifetime: TEMPORARY_LIFETIME })
            &&& forall|k: int| 0 <= k < trace.len() && (#[trigger] trace[k].1 is Report)
                ==> (events[k] is MappingAdded || bind_failed(events[k]))
            &&& forall|k: int| 0 <= k < trace.len() && (#[trigger] trace[k].1 is Report) && trace[k].1->Report_0 is Some ==> {
                &&& trace[k].1->Report_0->Some_0.router_ip == router_found(events[0])
                &&& trace[k].1->Report_0->Some_0.port == test_port
                &&& (trace[k].1->Report_0->Some_0.permanent_hole
                    <==> exists|j: int| 0 <= j <= k && #[trigger] probe_retry_at(protocol, test_port, events, j))
            }
        }),
{
    let probe = ProtocolProbe::initial(protocol, test_port);
    let trace = probe_trace(probe, events);
    if trace.len() > 0 {
        probe_run_entry(protocol, test_port, events, 0);
        probe_step_sequence_facts(probe, events[0]);
    }
    assert forall|i: int| 0 <= i < trace.len() implies {
        &&& (#[trigger] events[i]) is RoutersFound
            ==> trace[i].1 == (ProbeAction::GetPublicIp { router_ip: router_found(events[0]) })
        &&& events[i] is PublicIpFound ==> trace[i].1 == (ProbeAction::BindLocalPort { port: test_port })
        &&& events[i] is PortBound && !bind_failed(events[i])
            ==> trace[i].1 == (ProbeAction::AddMapping {
                router_ip: router_found(events[0]), port: test_port, lifetime: TEMPORARY_LIFETIME })
    } by {
        probe_sequence_entry(protocol, test_port, events, i);
    }
    assert forall|k: int| 0 <= k < trace.len() && (#[trigger] trace[k].1 is Report)
        implies (events[k] is MappingAdded || bind_failed(events[k])) by {
        probe_sequence_entry(protocol, test_port, events, k);
    }
    assert forall|k: int| 0 <= k < trace.len() && (#[trigger] trace[k].1 is Report) && trace[k].1->Report_0 is Some implies {
        &&& trace[k].1->Report_0->Some_0.router_ip == router_found(events[0])
        &&& trace[k].1->Report_0->Some_0.port == test_port
        &&& (trace[k].1->Report_0->Some_0.permanent_hole
            <==> exists|j: int| 0 <= j <= k && #[trigger] probe_retry_at(protocol, test_port, events, j))
    } by {
        probe_sequence_entry(protocol, test_port, events, k);
    }
}

} // verus!
