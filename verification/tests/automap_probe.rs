use masq::automap::probe::{
    probe_result, ProbeAction, ProbeEvent, ProbeOutcome, ProbePhase, Protocol, ProtocolProbe,
};
use masq::automap::status::AutomapError;
use masq::net::{IpAddress, SocketAddress};

const ROUTER: IpAddress = IpAddress::V4(192, 168, 0, 1);

struct Script {
    routers: Result<Vec<IpAddress>, AutomapError>,
    public_ip: Result<IpAddress, AutomapError>,
    bind: Result<(), String>,
    mappings: Vec<Result<u32, AutomapError>>,
}

fn run(protocol: Protocol, port: u16, mut script: Script) -> (ProtocolProbe, Vec<ProbeAction>) {
    let (mut probe, mut action) = ProtocolProbe::start(protocol, port);
    let mut actions = vec![action];
    loop {
        let event = match action {
            ProbeAction::FindRouters => ProbeEvent::RoutersFound(script.routers.clone()),
            ProbeAction::GetPublicIp { .. } => ProbeEvent::PublicIpFound(script.public_ip.clone()),
            ProbeAction::BindLocalPort { .. } => ProbeEvent::PortBound(script.bind.clone()),
            ProbeAction::AddMapping { .. } => ProbeEvent::MappingAdded(script.mappings.remove(0)),
            ProbeAction::Report(_) => return (probe, actions),
        };
        let (next, next_action) = probe.step(event);
        probe = next;
        action = next_action;
        actions.push(action);
    }
}

fn good() -> Script {
    Script {
        routers: Ok(vec![ROUTER, IpAddress::V4(10, 0, 0, 1)]),
        public_ip: Ok(IpAddress::V4(1, 2, 3, 4)),
        bind: Ok(()),
        mappings: vec![Ok(300)],
    }
}

#[test]
fn pcp_success_reports_router_and_port() {
    let (probe, actions) = run(Protocol::Pcp, 4567, good());
    assert_eq!(
        actions,
        vec![
            ProbeAction::FindRouters,
            ProbeAction::GetPublicIp { router_ip: ROUTER },
            ProbeAction::BindLocalPort { port: 4567 },
            ProbeAction::AddMapping { router_ip: ROUTER, port: 4567, lifetime: 5 },
            ProbeAction::Report(Some(ProbeOutcome { router_ip: ROUTER, port: 4567, permanent_hole: false })),
        ]
    );
    assert_eq!(probe.phase, ProbePhase::Finished);
    assert_eq!(probe.status.step, 4);
    assert_eq!(probe.status.permanent_only, Some(false));
    assert!(probe.status.cumulative_success);
}

#[test]
fn missing_router_still_asks_unspecified_address_and_fails() {
    let mut script = good();
    script.routers = Err(AutomapError::FindRouterError("nothing there".to_string()));
    let (probe, actions) = run(Protocol::Pmp, 4567, script);
    assert_eq!(actions[1], ProbeAction::GetPublicIp { router_ip: IpAddress::V4(0, 0, 0, 0) });
    assert_eq!(actions.last(), Some(&ProbeAction::Report(None)));
    assert!(!probe.status.cumulative_success);
    assert!(probe.status.step_success);
}

#[test]
fn binding_failure_is_fatal() {
    let mut script = good();
    script.bind = Err("AddrInUse".to_string());
    let (probe, actions) = run(Protocol::Igdp, 4567, script);
    assert_eq!(actions.len(), 4);
    assert_eq!(actions[3], ProbeAction::Report(None));
    assert!(probe.status.fatal);
    assert_eq!(
        probe.status.step_error,
        Some(AutomapError::SocketBindingError(
            "AddrInUse".to_string(),
            SocketAddress { ip: IpAddress::V4(0, 0, 0, 0), port: 4567 }
        ))
    );
    assert_eq!(probe.port, 4567);
}

#[test]
fn permanent_leases_only_asks_permanent_hole() {
    let mut script = good();
    script.mappings = vec![Err(AutomapError::PermanentLeasesOnly), Ok(0)];
    let (probe, actions) = run(Protocol::Pmp, 4567, script);
    assert_eq!(actions[4], ProbeAction::AddMapping { router_ip: ROUTER, port: 4567, lifetime: 0 });
    assert_eq!(
        actions[5],
        ProbeAction::Report(Some(ProbeOutcome { router_ip: ROUTER, port: 4567, permanent_hole: false }))
    );
    assert_eq!(probe.status.permanent_only, Some(true));
    assert_eq!(probe.status.step, 5);
}

#[test]
fn igdp_retries_permanent_after_refusal() {
    let mut script = good();
    script.mappings = vec![
        Err(AutomapError::AddMappingError("OnlyPermanentLeasesSupported".to_string())),
        Ok(0),
    ];
    let (probe, actions) = run(Protocol::Igdp, 4567, script);
    assert_eq!(actions[4], ProbeAction::AddMapping { router_ip: ROUTER, port: 4567, lifetime: 0 });
    assert_eq!(
        actions[5],
        ProbeAction::Report(Some(ProbeOutcome { router_ip: ROUTER, port: 4567, permanent_hole: true }))
    );
    assert!(probe.permanent_hole);
}

#[test]
fn igdp_failed_retry_still_marks_permanent_hole() {
    let mut script = good();
    script.mappings = vec![
        Err(AutomapError::AddMappingError("OnlyPermanentLeasesSupported".to_string())),
        Err(AutomapError::AddMappingError("ConflictInMappingEntry".to_string())),
    ];
    let (probe, actions) = run(Protocol::Igdp, 4567, script);
    assert_eq!(actions[5], ProbeAction::Report(None));
    assert!(probe.permanent_hole);
    assert!(!probe.status.cumulative_success);
}

#[test]
fn pcp_does_not_retry_after_refusal() {
    let mut script = good();
    script.mappings = vec![Err(AutomapError::AddMappingError("OnlyPermanentLeasesSupported".to_string()))];
    let (_, actions) = run(Protocol::Pcp, 4567, script);
    assert_eq!(actions.len(), 5);
    assert_eq!(actions[4], ProbeAction::Report(None));
}

#[test]
fn failure_messages() {
    assert_eq!(
        probe_result(Protocol::Pcp, None),
        Err(format!(
            "Either PCP is not implemented on your router or we're not doing it right\n{}\n",
            "-".repeat(72)
        ))
    );
    assert_eq!(
        probe_result(Protocol::Pmp, None),
        Err(format!(
            "Either PMP is not implemented on your router or we're not doing it right\n{}\n",
            "-".repeat(72)
        ))
    );
    assert_eq!(
        probe_result(Protocol::Igdp, None),
        Err(format!(
            "Either IGDP is not implemented on your router or we're not doing it right\n{}\n",
            "-".repeat(73)
        ))
    );
    let outcome = ProbeOutcome { router_ip: ROUTER, port: 1, permanent_hole: true };
    assert_eq!(probe_result(Protocol::Igdp, Some(outcome)), Ok(outcome));
}

#[test]
fn igdp_asks_at_most_three_holes_in_order() {
    let mut script = good();
    script.mappings = vec![
        Err(AutomapError::PermanentLeasesOnly),
        Err(AutomapError::AddMappingError("OnlyPermanentLeasesSupported".to_string())),
        Ok(0),
    ];
    let (_, actions) = run(Protocol::Igdp, 4567, script);
    let lifetimes: Vec<u32> = actions
        .iter()
        .filter_map(|a| match a {
            ProbeAction::AddMapping { lifetime, port, .. } => {
                assert_eq!(*port, 4567);
                Some(*lifetime)
            }
            _ => None,
        })
        .collect();
    assert_eq!(lifetimes, vec![5, 0, 0]);
    assert!(matches!(actions.last(), Some(ProbeAction::Report(Some(_)))));
}

#[test]
fn pmp_asks_at_most_two_holes() {
    let mut script = good();
    script.mappings = vec![
        Err(AutomapError::PermanentLeasesOnly),
        Err(AutomapError::AddMappingError("OnlyPermanentLeasesSupported".to_string())),
    ];
    let (_, actions) = run(Protocol::Pmp, 4567, script);
    let requests = actions.iter().filter(|a| matches!(a, ProbeAction::AddMapping { .. })).count();
    assert_eq!(requests, 2);
    assert_eq!(actions.last(), Some(&ProbeAction::Report(None)));
}
