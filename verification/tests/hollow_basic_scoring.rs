use ahr_endpoint::hollow_basic::{EndpointAction, FileHollow};

#[test]
fn basic_fresh_hollow_scores_one() {
    let mut h = FileHollow::new("abc".into());
    h.update_risk_score();
    assert_eq!(h.risk_score, 1);
    assert_eq!(h.anomaly_tenths, 1);
    assert_eq!(h.recommended_action(), EndpointAction::LogOnly);
}

#[test]
fn basic_scores_add_and_clamp() {
    let mut h = FileHollow::new("abc".into());
    h.entropy_delta_bits = 0.9f32.to_bits();
    h.backup_tamper = true;
    h.update_risk_score();
    assert_eq!(h.risk_score, 7);
    assert_eq!(h.recommended_action(), EndpointAction::IsolateHost);
    h.c2_contact = true;
    h.threat_intel_match = true;
    h.update_risk_score();
    assert_eq!(h.risk_score, 10);
    assert_eq!(h.recommended_action(), EndpointAction::KillTree);
}

#[test]
fn basic_decoy_is_not_suppressed() {
    let mut h = FileHollow::new("abc".into());
    h.is_decoy = true;
    h.decoy_touched = true;
    h.rename_burst = true;
    h.update_risk_score();
    assert_eq!(h.risk_score, 5);
    assert_eq!(h.recommended_action(), EndpointAction::SuspendProc);
}

#[test]
fn basic_summary_and_ttps() {
    let mut h = FileHollow::new("feedfacecafe".into());
    h.mitre_ttp.push("T1048".into());
    h.injected_dll_count = 3;
    h.update_risk_score();
    assert!(h.has_ttp("T1048"));
    assert!(!h.has_ttp("T1486"));
    assert_eq!(h.summary(), "FileHollow[feedface] Risk:3 Anomaly:0.30 TTPs:1");
}
