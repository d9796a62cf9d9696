use ahr_endpoint::action::Action;
use ahr_endpoint::detection::FileHollow;
use ahr_endpoint::enforcement::{
    containment_reason, EnforcementController, SignalStep, FLAG_TTL_SECS, SIGKILL, SIGSTOP,
};
use ahr_endpoint::process_tree::{collect_descendants, ProcessLink};

fn link(pid: u32, parent: u32) -> ProcessLink {
    ProcessLink { pid, parent: Some(parent) }
}

fn tree() -> Vec<ProcessLink> {
    vec![
        ProcessLink { pid: 1, parent: None },
        link(100, 1),
        link(101, 100),
        link(102, 100),
        link(103, 101),
        link(200, 1),
        link(104, 103),
    ]
}

#[test]
fn action_for_risk_is_graduated() {
    let expected = [
        Action::Allow,
        Action::Allow,
        Action::Allow,
        Action::Allow,
        Action::Soft,
        Action::Soft,
        Action::Soft,
        Action::Medium,
        Action::Medium,
        Action::Kill,
        Action::Kill,
    ];
    for (risk, want) in expected.iter().enumerate() {
        assert_eq!(EnforcementController::action_for_risk(risk as u8), *want);
    }
    assert_eq!(EnforcementController::action_for_risk(255), Action::Kill);
}

#[test]
fn whitelist_holds_init_and_self() {
    let c = EnforcementController::new(4321);
    assert!(c.is_whitelisted(1));
    assert!(c.is_whitelisted(4321));
    assert!(!c.is_whitelisted(2));
}

#[test]
fn flags_expire_after_ttl() {
    let mut c = EnforcementController::new(4321);
    c.flag_at(50, Action::Kill, 60, 1_000);
    c.flag_at(51, Action::Soft, 1, 1_000);
    c.flag_at(1, Action::Kill, 60, 1_000);
    assert!(c.sweep_at(1_000).is_empty());
    assert!(c.sweep_at(1_000_000_999).is_empty());
    assert_eq!(c.sweep_at(1_000_001_000), vec![51]);
    assert!(c.sweep_at(59_000_000_999).is_empty());
    assert_eq!(c.sweep_at(60_000_001_000), vec![50]);
    assert!(c.sweep_at(u64::MAX).is_empty());
}

#[test]
fn zero_ttl_expires_immediately_and_reflag_resets() {
    let mut c = EnforcementController::new(9);
    c.flag_at(70, Action::Medium, 0, 5);
    assert_eq!(c.sweep_at(5), vec![70]);
    c.flag_at(71, Action::Medium, 10, 0);
    c.flag_at(71, Action::Medium, 10, 20_000_000_000);
    assert!(c.sweep_at(25_000_000_000).is_empty());
    let mut gone = c.sweep_at(30_000_000_000);
    gone.sort();
    assert_eq!(gone, vec![71]);
}

#[test]
fn whitelisted_pids_are_never_flagged() {
    let mut c = EnforcementController::new(4321);
    c.flag(4321, Action::Kill, 60, "risk=9 name=agent");
    c.flag(1, Action::Kill, 60, "risk=9 name=init");
    assert!(c.sweep_at(u64::MAX).is_empty());
}

#[test]
fn clock_flag_survives_immediate_sweep() {
    let mut c = EnforcementController::new(4321);
    c.flag(77, Action::Medium, 60, "risk=7 name=locker");
    assert!(c.sweep().is_empty());
    assert_eq!(c.sweep_at(u64::MAX), vec![77]);
}

#[test]
fn descendants_are_found_depth_first() {
    let d = collect_descendants(100, &tree());
    assert_eq!(d, vec![101, 102, 103, 104]);
    assert_eq!(collect_descendants(200, &tree()), Vec::<u32>::new());
    let mut all = collect_descendants(1, &tree());
    all.sort();
    assert_eq!(all, vec![100, 101, 102, 103, 104, 200]);
}

#[test]
fn descendants_tolerate_cycles() {
    let procs = vec![link(5, 6), link(6, 5)];
    let mut d = collect_descendants(5, &procs);
    d.sort();
    assert_eq!(d, vec![5, 6]);
}

#[test]
fn userspace_plans_follow_action() {
    let c = EnforcementController::new(4321);
    let procs = tree();
    let p = c.apply_userspace(100, Action::Allow, &procs);
    assert!(p.applied);
    assert!(p.signals.is_empty());
    let p = c.apply_userspace(100, Action::Soft, &procs);
    assert!(p.applied);
    assert_eq!(p.signals, vec![SignalStep { pid: 100, signal: SIGSTOP }]);
    let p = c.apply_userspace(100, Action::Medium, &procs);
    let stops: Vec<(u32, i32)> = p.signals.iter().map(|s| (s.pid, s.signal)).collect();
    assert_eq!(stops, vec![(101, 19), (102, 19), (103, 19), (104, 19), (100, 19)]);
    let p = c.apply_userspace(100, Action::Kill, &procs);
    let kills: Vec<(u32, i32)> = p.signals.iter().map(|s| (s.pid, s.signal)).collect();
    assert_eq!(kills, vec![(104, 9), (103, 9), (102, 9), (101, 9), (100, SIGKILL)]);
}

#[test]
fn whitelisted_pid_gets_no_signals() {
    let c = EnforcementController::new(4321);
    let p = c.apply_userspace(1, Action::Kill, &tree());
    assert!(!p.applied);
    assert!(p.signals.is_empty());
    let p = c.apply_userspace(4321, Action::Soft, &tree());
    assert!(!p.applied);
}

fn detected(pid: u32, risk: u8, name: &str) -> FileHollow {
    FileHollow {
        pid,
        risk,
        process_hash: String::new(),
        process_name: name.into(),
        is_decoy: false,
    }
}

#[test]
fn reason_names_risk_and_process() {
    assert_eq!(containment_reason(&detected(5, 9, "locker.exe")), "risk=9 name=locker.exe");
    assert_eq!(containment_reason(&detected(5, 10, "")), "risk=10 name=");
}

#[test]
fn respond_flags_then_plans() {
    let mut c = EnforcementController::new(4321);
    let r = c.respond(&detected(100, 8, "cmd"), &tree());
    assert_eq!(r.action, Action::Medium);
    assert_eq!(r.reason, "risk=8 name=cmd");
    assert!(r.plan.applied);
    assert_eq!(r.plan.signals.len(), 5);
    assert!(c.sweep().is_empty());
    assert_eq!(FLAG_TTL_SECS, 60);
    assert_eq!(c.sweep_at(u64::MAX), vec![100]);

    let r = c.respond(&detected(1, 9, "init"), &tree());
    assert_eq!(r.action, Action::Kill);
    assert!(!r.plan.applied);
    assert!(r.plan.signals.is_empty());
    assert!(c.sweep_at(u64::MAX).is_empty());
}

#[test]
fn sibling_order_follows_snapshot_order() {
    let c = EnforcementController::new(4321);
    let procs = vec![link(12, 10), link(11, 10), link(13, 12)];
    assert_eq!(collect_descendants(10, &procs), vec![12, 11, 13]);
    let p = c.apply_userspace(10, Action::Kill, &procs);
    let kills: Vec<u32> = p.signals.iter().map(|s| s.pid).collect();
    assert_eq!(kills, vec![13, 11, 12, 10]);
}
