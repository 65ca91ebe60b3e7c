use alert_manager::startup::{
    claim_decision, ClaimDecision, Startup, StartupAction, StartupConfig, StartupEvent,
};

fn config(alert_manager: bool, report: bool, super_cluster: bool) -> StartupConfig {
    StartupConfig {
        alert_manager,
        enable_report_server: report,
        super_cluster_enabled: super_cluster,
        cluster_name: "B".to_string(),
    }
}

fn run(events: Vec<StartupEvent>) -> Vec<StartupAction> {
    let mut s = Startup::new(config(true, false, true));
    let mut actions = Vec::new();
    for e in events {
        let (next, a) = s.step(e);
        s = next;
        actions.push(a);
    }
    actions
}

#[test]
fn live_owner_defers_without_registering() {
    let actions = run(vec![
        StartupEvent::Begin,
        StartupEvent::Owner { name: "A".to_string() },
        StartupEvent::LiveClusters { names: vec!["A".to_string()] },
    ]);
    assert_eq!(
        actions,
        vec![StartupAction::QueryOwner, StartupAction::ListLiveClusters, StartupAction::Return]
    );
    assert!(!actions.iter().any(|a| matches!(a, StartupAction::RegisterOwner { .. })));
}

#[test]
fn stale_owner_is_replaced() {
    let actions = run(vec![
        StartupEvent::Begin,
        StartupEvent::Owner { name: "A".to_string() },
        StartupEvent::LiveClusters { names: vec![] },
        StartupEvent::Registered,
    ]);
    assert_eq!(
        actions,
        vec![
            StartupAction::QueryOwner,
            StartupAction::ListLiveClusters,
            StartupAction::RegisterOwner { cluster: "B".to_string() },
            StartupAction::StartLoops,
        ]
    );
}

#[test]
fn empty_owner_is_claimed() {
    let actions = run(vec![
        StartupEvent::Begin,
        StartupEvent::Owner { name: String::new() },
        StartupEvent::Registered,
    ]);
    assert_eq!(
        actions,
        vec![
            StartupAction::QueryOwner,
            StartupAction::RegisterOwner { cluster: "B".to_string() },
            StartupAction::StartLoops,
        ]
    );
}

#[test]
fn registry_failure_aborts() {
    let actions = run(vec![StartupEvent::Begin, StartupEvent::RegistryFailed]);
    assert_eq!(actions, vec![StartupAction::QueryOwner, StartupAction::Abort]);
    let actions = run(vec![
        StartupEvent::Begin,
        StartupEvent::Owner { name: String::new() },
        StartupEvent::RegistryFailed,
    ]);
    assert_eq!(actions[2], StartupAction::Abort);
}

#[test]
fn ineligible_node_returns() {
    let s = Startup::new(config(false, true, true));
    assert!(!s.wants_report_server());
    let (_, a) = s.step(StartupEvent::Begin);
    assert_eq!(a, StartupAction::Return);
}

#[test]
fn single_cluster_starts_loops() {
    let s = Startup::new(config(true, true, false));
    assert!(s.wants_report_server());
    let (_, a) = s.step(StartupEvent::Begin);
    assert_eq!(a, StartupAction::StartLoops);
}

#[test]
fn claim_decisions() {
    let live = vec!["A".to_string(), "C".to_string()];
    assert_eq!(claim_decision(&"A".to_string(), &live), ClaimDecision::Defer);
    assert_eq!(claim_decision(&"C".to_string(), &live), ClaimDecision::Defer);
    assert_eq!(claim_decision(&"D".to_string(), &live), ClaimDecision::Register);
    assert_eq!(claim_decision(&String::new(), &live), ClaimDecision::Register);
    assert_eq!(claim_decision(&"A".to_string(), &vec![]), ClaimDecision::Register);
}
