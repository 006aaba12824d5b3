use masq::automap::check::{CheckAction, CheckEvent, CheckPhase, ProtocolCheck};
use masq::automap::probe::Protocol;
use masq::automap::status::AutomapError;
use masq::net::IpAddress;

const ROUTER: IpAddress = IpAddress::V4(192, 168, 1, 1);

struct Script {
    routers: Result<Vec<IpAddress>, AutomapError>,
    public_ip: Result<IpAddress, AutomapError>,
    ports: Vec<u16>,
    bind: Result<(), String>,
    mappings: Vec<Result<u32, AutomapError>>,
    deletions: Vec<Result<(), AutomapError>>,
}

fn run(protocol: Protocol, mut script: Script) -> (ProtocolCheck, Vec<CheckAction>) {
    let (mut check, mut action) = ProtocolCheck::start(protocol, ROUTER);
    let mut actions = vec![action];
    loop {
        let event = match action {
            CheckAction::FindRouters => CheckEvent::RoutersFound(script.routers.clone()),
            CheckAction::GetPublicIp { .. } => CheckEvent::PublicIpFound(script.public_ip.clone()),
            CheckAction::FindFreePort => CheckEvent::FreePortFound(script.ports.remove(0)),
            CheckAction::BindLocalPort { .. } => CheckEvent::PortBound(script.bind.clone()),
            CheckAction::AddMapping { .. } => CheckEvent::MappingAdded(script.mappings.remove(0)),
            CheckAction::DeleteMapping { .. } => CheckEvent::MappingDeleted(script.deletions.remove(0)),
            CheckAction::Report(_) => return (check, actions),
        };
        let (next, next_action) = check.step(event);
        check = next;
        action = next_action;
        actions.push(action);
    }
}

fn good() -> Script {
    Script {
        routers: Ok(vec![IpAddress::V4(10, 0, 0, 1)]),
        public_ip: Ok(IpAddress::V4(5, 6, 7, 8)),
        ports: vec![40000, 40001],
        bind: Ok(()),
        mappings: vec![Ok(60), Ok(0)],
        deletions: vec![Ok(()), Ok(())],
    }
}

#[test]
fn pcp_check_pokes_and_removes_hole() {
    let (check, actions) = run(Protocol::Pcp, good());
    assert_eq!(
        actions,
        vec![
            CheckAction::GetPublicIp { router_ip: ROUTER },
            CheckAction::FindFreePort,
            CheckAction::BindLocalPort { port: 40000 },
            CheckAction::AddMapping { router_ip: ROUTER, port: 40000, lifetime: 5 },
            CheckAction::DeleteMapping { router_ip: ROUTER, port: 40000 },
            CheckAction::Report(true),
        ]
    );
    assert_eq!(check.phase, CheckPhase::Finished);
    assert_eq!(check.status.step, 4);
}

#[test]
fn igdp_check_finds_router_first() {
    let (_, actions) = run(Protocol::Igdp, good());
    assert_eq!(actions[0], CheckAction::FindRouters);
    assert_eq!(actions[1], CheckAction::GetPublicIp { router_ip: ROUTER });
    assert_eq!(actions.last(), Some(&CheckAction::Report(true)));
}

#[test]
fn failed_removal_fails_check() {
    let mut script = good();
    script.deletions = vec![Err(AutomapError::DeleteMappingError("NoSuchEntryInArray".to_string()))];
    let (check, actions) = run(Protocol::Pmp, script);
    assert_eq!(actions.last(), Some(&CheckAction::Report(false)));
    assert!(!check.status.step_success);
}

#[test]
fn failed_mapping_skips_removal() {
    let mut script = good();
    script.mappings = vec![Err(AutomapError::ProtocolError("UnsupportedVersion".to_string()))];
    let (_, actions) = run(Protocol::Pcp, script);
    assert_eq!(actions.len(), 5);
    assert_eq!(actions[4], CheckAction::Report(false));
}

#[test]
fn binding_failure_ends_check() {
    let mut script = good();
    script.bind = Err("PermissionDenied".to_string());
    let (check, actions) = run(Protocol::Igdp, script);
    assert_eq!(actions.last(), Some(&CheckAction::Report(false)));
    assert!(check.status.fatal);
    assert!(!actions.iter().any(|a| matches!(a, CheckAction::AddMapping { .. })));
}

#[test]
fn igdp_check_retries_permanent_hole_on_new_port() {
    let mut script = good();
    script.mappings = vec![
        Err(AutomapError::AddMappingError("OnlyPermanentLeasesSupported".to_string())),
        Ok(0),
    ];
    let (check, actions) = run(Protocol::Igdp, script);
    assert_eq!(
        &actions[5..],
        &[
            CheckAction::FindFreePort,
            CheckAction::BindLocalPort { port: 40001 },
            CheckAction::AddMapping { router_ip: ROUTER, port: 40001, lifetime: 0 },
            CheckAction::DeleteMapping { router_ip: ROUTER, port: 40001 },
            CheckAction::Report(true),
        ]
    );
    assert_eq!(check.phase, CheckPhase::Finished);
}

#[test]
fn missing_router_fails_igdp_check_but_goes_on() {
    let mut script = good();
    script.routers = Err(AutomapError::FindRouterError("timeout".to_string()));
    let (_, actions) = run(Protocol::Igdp, script);
    assert_eq!(actions[1], CheckAction::GetPublicIp { router_ip: ROUTER });
    assert_eq!(actions.last(), Some(&CheckAction::Report(false)));
    assert!(actions.iter().any(|a| matches!(a, CheckAction::DeleteMapping { .. })));
}

#[test]
fn igdp_retry_forgives_earlier_failures() {
    let mut script = good();
    script.public_ip = Err(AutomapError::GetPublicIpError("no answer".to_string()));
    script.mappings = vec![
        Err(AutomapError::AddMappingError("OnlyPermanentLeasesSupported".to_string())),
        Ok(0),
    ];
    let (_, actions) = run(Protocol::Igdp, script);
    assert_eq!(actions.last(), Some(&CheckAction::Report(true)));
    let removals = actions.iter().filter(|a| matches!(a, CheckAction::DeleteMapping { .. })).count();
    assert_eq!(removals, 1);
}

#[test]
fn pmp_failure_anywhere_fails_check() {
    let mut script = good();
    script.public_ip = Err(AutomapError::GetPublicIpError("no answer".to_string()));
    let (_, actions) = run(Protocol::Pmp, script);
    assert_eq!(actions.last(), Some(&CheckAction::Report(false)));
    let removals = actions.iter().filter(|a| matches!(a, CheckAction::DeleteMapping { .. })).count();
    assert_eq!(removals, 1);
}
