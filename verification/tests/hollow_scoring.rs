use ahr_endpoint::hollow::{EndpointAction, FileHollow, UserPrivilege};
use ahr_endpoint::imports::ImportSet;

#[test]
fn decoy_never_escalates() {
    let mut h = FileHollow::new("abc".into());
    h.is_decoy = true;
    h.entropy_delta_bits = 0.9f32.to_bits();
    h.backup_tamper = true;
    h.c2_contact = true;
    h.update_risk_score();
    assert_eq!(h.risk_score, 1);
    assert_eq!(h.recommended_action(), EndpointAction::LogOnly);
}

#[test]
fn domain_admin_high_risk_revokes_session_not_kill() {
    let mut h = FileHollow::new("abc".into());
    h.user_privilege = UserPrivilege::DomainAdmin;
    h.entropy_delta_bits = 0.9f32.to_bits();
    h.backup_tamper = true;
    h.c2_contact = true;
    h.threat_intel_match = true;
    h.update_risk_score();
    assert!(h.risk_score >= 8);
    assert_eq!(h.recommended_action(), EndpointAction::RevokeSession);
}

#[test]
fn unsigned_plus_injection_apis_outweighs_unsigned_alone() {
    let mut plain_unsigned = FileHollow::new("a".into());
    plain_unsigned.signed_status = false;
    plain_unsigned.update_risk_score();

    let mut injecting_unsigned = FileHollow::new("b".into());
    injecting_unsigned.signed_status = false;
    injecting_unsigned
        .suspicious_imports
        .insert("WriteProcessMemory".into());
    injecting_unsigned.update_risk_score();

    assert!(injecting_unsigned.risk_score > plain_unsigned.risk_score);
}

#[test]
fn new_hollow_has_quiet_defaults() {
    let h = FileHollow::new("deadbeef".into());
    assert_eq!(h.proc_hash, "deadbeef");
    assert_eq!(h.risk_score, 1);
    assert_eq!(h.anomaly_tenths, 0);
    assert_eq!(h.user_privilege, UserPrivilege::Standard);
    assert!(!h.signed_status);
    assert!(!h.is_decoy);
    assert_eq!(h.suspicious_imports.len(), 0);
    assert!(h.mitre_ttp.is_empty());
    assert!(h.score_reasons.is_empty());
}

#[test]
fn fresh_unsigned_hollow_scores_two_with_reason() {
    let mut h = FileHollow::new("x".into());
    h.update_risk_score();
    assert_eq!(h.risk_score, 2);
    assert_eq!(h.anomaly_tenths, 2);
    assert_eq!(h.score_reasons, vec!["unsigned binary (+1)".to_string()]);
}

#[test]
fn signed_quiet_hollow_scores_one_without_reasons() {
    let mut h = FileHollow::new("x".into());
    h.signed_status = true;
    h.update_risk_score();
    assert_eq!(h.risk_score, 1);
    assert!(h.score_reasons.is_empty());
}

#[test]
fn decoy_score_is_suppressed_with_reason() {
    let mut h = FileHollow::new("x".into());
    h.is_decoy = true;
    h.update_risk_score();
    assert_eq!(h.risk_score, 1);
    assert_eq!(h.anomaly_tenths, 1);
    assert_eq!(
        h.score_reasons,
        vec!["is_decoy: score suppressed (honeypot asset)".to_string()]
    );
    assert!(h.companion_actions().is_empty());
}

#[test]
fn reasons_follow_signal_order() {
    let mut h = FileHollow::new("x".into());
    h.entropy_delta_bits = 0.75f32.to_bits();
    h.write_velocity = 51;
    h.peer_risk_bits = 0.61f32.to_bits();
    h.signed_status = true;
    h.suspicious_imports.insert("CreateRemoteThread".into());
    h.process_tree_depth = 7;
    h.update_risk_score();
    assert_eq!(h.risk_score, 10);
    assert_eq!(
        h.score_reasons,
        vec![
            "high write entropy (mass encryption pattern) (+3)".to_string(),
            "abnormal write velocity (+2)".to_string(),
            "high similarity to known ransomware families (+2)".to_string(),
            "signed binary using process-injection APIs (still notable) (+1)".to_string(),
            "unusually deep process tree (+1)".to_string(),
        ]
    );
}

#[test]
fn thresholds_are_strict() {
    let mut h = FileHollow::new("x".into());
    h.signed_status = true;
    h.entropy_delta_bits = 0.7f32.to_bits();
    h.peer_risk_bits = 0.6f32.to_bits();
    h.write_velocity = 50;
    h.propagation_score = 3;
    h.injected_dll_count = 2;
    h.process_tree_depth = 6;
    h.update_risk_score();
    assert_eq!(h.risk_score, 1);
    h.entropy_delta_bits = f32::NAN.to_bits();
    h.update_risk_score();
    assert_eq!(h.risk_score, 1);
    h.entropy_delta_bits = f32::INFINITY.to_bits();
    h.update_risk_score();
    assert_eq!(h.risk_score, 4);
}

#[test]
fn score_clamps_at_ten() {
    let mut h = FileHollow::new("x".into());
    h.entropy_delta_bits = 0.95f32.to_bits();
    h.rename_burst = true;
    h.backup_tamper = true;
    h.c2_contact = true;
    h.decoy_touched = true;
    h.threat_intel_match = true;
    h.update_risk_score();
    assert_eq!(h.risk_score, 10);
    assert_eq!(h.anomaly_tenths, 10);
}

#[test]
fn recommendations_follow_privilege() {
    let mut h = FileHollow::new("x".into());
    h.risk_score = 9;
    assert_eq!(h.recommended_action(), EndpointAction::KillTree);
    h.user_privilege = UserPrivilege::Admin;
    assert_eq!(h.recommended_action(), EndpointAction::IsolateHost);
    h.risk_score = 6;
    assert_eq!(h.recommended_action(), EndpointAction::IsolateHost);
    h.user_privilege = UserPrivilege::DomainAdmin;
    assert_eq!(h.recommended_action(), EndpointAction::TriggerMfaReprompt);
    h.risk_score = 5;
    assert_eq!(h.recommended_action(), EndpointAction::SuspendProc);
    h.risk_score = 3;
    assert_eq!(h.recommended_action(), EndpointAction::LogOnly);
    h.risk_score = 11;
    assert_eq!(h.recommended_action(), EndpointAction::LogOnly);
}

#[test]
fn companion_actions_by_risk() {
    let mut h = FileHollow::new("x".into());
    h.risk_score = 9;
    assert_eq!(
        h.companion_actions(),
        vec![
            EndpointAction::SendSocWebhook,
            EndpointAction::QuarantineFile,
            EndpointAction::MemoryDump
        ]
    );
    h.signed_status = true;
    assert_eq!(
        h.companion_actions(),
        vec![EndpointAction::SendSocWebhook, EndpointAction::MemoryDump]
    );
    h.risk_score = 7;
    h.signed_status = false;
    assert_eq!(
        h.companion_actions(),
        vec![
            EndpointAction::SendSocWebhook,
            EndpointAction::QuarantineFile,
            EndpointAction::FlagForHumanReview
        ]
    );
    h.risk_score = 4;
    assert_eq!(h.companion_actions(), vec![EndpointAction::FlagForHumanReview]);
    h.risk_score = 2;
    assert!(h.companion_actions().is_empty());
}

#[test]
fn ttp_lookup_is_exact() {
    let mut h = FileHollow::new("x".into());
    h.mitre_ttp.push("T1486".into());
    h.mitre_ttp.push("T1490".into());
    assert!(h.has_ttp("T1490"));
    assert!(!h.has_ttp("T149"));
    assert!(!h.has_ttp("T1048"));
}

#[test]
fn summary_names_hash_prefix_risk_and_action() {
    let mut h = FileHollow::new("0123456789abcdef".into());
    h.c2_contact = true;
    h.backup_tamper = true;
    h.update_risk_score();
    h.mitre_ttp.push("T1486".into());
    assert_eq!(
        h.summary(),
        "FileHollow[01234567] Risk:8 Anomaly:0.80 TTPs:1 Action:KillTree"
    );
    let short = FileHollow::new("ab".into());
    assert_eq!(
        short.summary(),
        "FileHollow[ab] Risk:1 Anomaly:0.00 TTPs:0 Action:LogOnly"
    );
}

#[test]
fn anomaly_rendering_matches_float_formatting() {
    for t in 0u8..=30 {
        let mut h = FileHollow::new("h".into());
        h.anomaly_tenths = t;
        let expected = format!(
            "FileHollow[h] Risk:1 Anomaly:{:.2} TTPs:0 Action:LogOnly",
            t as f32 / 10.0
        );
        assert_eq!(h.summary(), expected);
    }
}

#[test]
fn import_set_keeps_each_name_once() {
    let mut s = ImportSet::new();
    assert!(s.insert("VirtualAllocEx".into()));
    assert!(!s.insert("VirtualAllocEx".into()));
    assert!(s.insert("LoadLibraryW".into()));
    assert_eq!(s.len(), 2);
    assert!(s.contains("LoadLibraryW"));
    assert!(!s.contains("loadlibraryw"));
    let c = s.clone();
    assert_eq!(c.len(), 2);
}

#[test]
fn harmless_imports_do_not_count_as_injection() {
    let mut a = FileHollow::new("a".into());
    a.suspicious_imports.insert("LoadLibraryW".into());
    a.update_risk_score();
    assert_eq!(a.risk_score, 2);
    let mut b = FileHollow::new("b".into());
    b.suspicious_imports.insert("QueueUserAPC".into());
    b.update_risk_score();
    assert_eq!(b.risk_score, 4);
}
