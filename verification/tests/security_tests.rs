use zeroclaw::security::AutonomyLevel;
use zeroclaw::security::SecurityPolicy;

fn policy(level: AutonomyLevel, max: u32) -> SecurityPolicy {
    SecurityPolicy::new(level, max, "/tmp/zeroclaw-ws".to_string())
}

#[test]
fn can_act_follows_autonomy() {
    assert!(policy(AutonomyLevel::Full, 10).can_act());
    assert!(!policy(AutonomyLevel::ReadOnly, 10).can_act());
}

#[test]
fn record_action_stops_at_budget() {
    let mut p = policy(AutonomyLevel::Full, 3);
    assert!(p.record_action_at(1000));
    assert!(p.record_action_at(1001));
    assert!(!p.is_rate_limited_at(1001));
    assert!(p.record_action_at(1002));
    assert!(p.is_rate_limited_at(1002));
    assert!(!p.record_action_at(1003));
    assert!(p.is_rate_limited_at(1003));
}

#[test]
fn failed_attempt_reserves_nothing() {
    let mut p = policy(AutonomyLevel::Full, 2);
    assert!(p.record_action_at(100));
    assert!(p.record_action_at(100));
    assert!(!p.record_action_at(100));
    // Once the two reservations age out of the window, the budget is free
    // again: the refused attempt held no slot.
    assert!(p.record_action_at(100 + 3600));
}

#[test]
fn zero_budget_refuses_first_action() {
    let mut p = policy(AutonomyLevel::Full, 0);
    assert!(p.is_rate_limited_at(50));
    assert!(!p.record_action_at(50));
}

#[test]
fn actions_age_out_of_the_window() {
    let mut p = policy(AutonomyLevel::Full, 1);
    assert!(p.record_action_at(1000));
    assert!(p.is_rate_limited_at(1000));
    assert!(p.is_rate_limited_at(1000 + 3599));
    assert!(!p.is_rate_limited_at(1000 + 3600));
    assert!(p.record_action_at(1000 + 3600));
}

#[test]
fn clock_based_budget_behaves_like_the_timed_one() {
    let mut p = policy(AutonomyLevel::Full, 2);
    assert!(!p.is_rate_limited());
    assert!(p.record_action());
    assert!(p.record_action());
    assert!(!p.record_action());
    assert!(p.is_rate_limited());
}

#[test]
fn syntactic_path_check_rejects_absolute_and_empty() {
    let p = policy(AutonomyLevel::Full, 10);
    assert!(!p.is_path_allowed(""));
    assert!(!p.is_path_allowed("/etc/hosts"));
    assert!(p.is_path_allowed("notes/report.txt"));
    assert!(p.is_path_allowed("a"));
}

#[test]
fn resolved_path_outside_workspace_rejected() {
    let p = policy(AutonomyLevel::Full, 10);
    assert!(!p.is_resolved_path_allowed("/etc/hosts"));
    assert!(!p.is_resolved_path_allowed("/tmp"));
    assert!(!p.is_resolved_path_allowed("/tmp/zeroclaw-ws-evil/file"));
    assert!(!p.is_resolved_path_allowed("/tmp/zeroclaw-w"));
    assert!(p.is_resolved_path_allowed("/tmp/zeroclaw-ws"));
    assert!(p.is_resolved_path_allowed("/tmp/zeroclaw-ws/notes/report.txt"));
}

#[test]
fn join_lands_inside_workspace() {
    let p = policy(AutonomyLevel::Full, 10);
    let joined = p.join_workspace_path("notes/report.txt");
    assert_eq!(joined, "/tmp/zeroclaw-ws/notes/report.txt");
    assert!(p.is_resolved_path_allowed(&joined));
}
