use ahr_endpoint::detection::{
    assess_process, detect_ransomware_behavior, identity_hash_of, risk_for_signals, FileHollow,
    ProcessSample,
};
use sha2::{Digest, Sha256};
use std::time::Duration;

fn hollow_with_risk(risk: u8) -> FileHollow {
    FileHollow {
        pid: 0,
        risk,
        process_hash: String::new(),
        process_name: "test".into(),
        is_decoy: false,
    }
}

fn sample(pid: u32, name: &str, cpu: f32, memory: u64) -> ProcessSample {
    ProcessSample {
        pid,
        name: name.into(),
        cpu_usage_bits: cpu.to_bits(),
        memory,
    }
}

fn expected_hash(name: &str, pid: u32) -> String {
    let mut hasher = Sha256::new();
    hasher.update(name.as_bytes());
    hasher.update(pid.to_le_bytes());
    format!("{:x}", hasher.finalize())
}

#[test]
fn decoys_have_zero_jitter() {
    let mut h = hollow_with_risk(9);
    h.is_decoy = true;
    assert_eq!(h.dispatch_delay(), Duration::from_millis(0));
}

#[test]
fn high_risk_still_bounded_but_fast() {
    let h = hollow_with_risk(9);
    for _ in 0..50 {
        let d = h.dispatch_delay();
        assert!(d.as_millis() >= 50 && d.as_millis() <= 400 + 600);
    }
}

#[test]
fn boundary_scores_get_padding() {
    let h = hollow_with_risk(8);
    let d = h.dispatch_delay();
    assert!(d.as_millis() as u64 >= 50);
}

#[test]
fn dispatch_delay_stays_in_band() {
    for (risk, lo, hi) in [
        (10u8, 50u128, 400u128),
        (9, 650, 1000),
        (6, 900, 1800),
        (4, 1400, 3600),
        (2, 1500, 6000),
        (0, 1500, 6000),
    ] {
        let h = hollow_with_risk(risk);
        for _ in 0..20 {
            let ms = h.dispatch_delay().as_millis();
            assert!(ms >= lo && ms <= hi, "risk {} gave {}", risk, ms);
        }
    }
}

#[test]
fn jittered_delay_adds_boundary_padding() {
    assert_eq!(hollow_with_risk(10).jittered_delay_ms(100), 100);
    assert_eq!(hollow_with_risk(9).jittered_delay_ms(100), 700);
    assert_eq!(hollow_with_risk(3).jittered_delay_ms(2000), 2600);
    assert_eq!(hollow_with_risk(2).jittered_delay_ms(2000), 2000);
    let mut d = hollow_with_risk(9);
    d.is_decoy = true;
    assert_eq!(d.jittered_delay_ms(300), 0);
}

#[test]
fn risk_from_signals() {
    assert_eq!(risk_for_signals("ransomware.exe", true, false), Some(9));
    assert_eq!(risk_for_signals("my-encryptor", false, true), Some(9));
    assert_eq!(risk_for_signals("cmd.exe", true, true), Some(8));
    assert_eq!(risk_for_signals("pwsh", false, true), Some(7));
    assert_eq!(risk_for_signals("lockerd", true, false), Some(7));
    assert_eq!(risk_for_signals("cmd.exe", false, false), None);
    assert_eq!(risk_for_signals("firefox", true, true), None);
    assert_eq!(risk_for_signals("RANSOM", true, true), None);
}

#[test]
fn assess_lowercases_and_hashes() {
    let p = sample(4242, "RansomWare.EXE", 85.5, 10);
    let h = assess_process(&p).expect("flagged");
    assert_eq!(h.pid, 4242);
    assert_eq!(h.risk, 9);
    assert_eq!(h.process_name, "RansomWare.EXE");
    assert_eq!(h.process_hash, expected_hash("RansomWare.EXE", 4242));
    assert_eq!(h.process_hash.len(), 64);
    assert!(!h.is_decoy);
}

#[test]
fn assess_requires_pressure() {
    assert!(assess_process(&sample(1, "PowerShell", 40.0, 500_000_000)).is_none());
    let h = assess_process(&sample(1, "PowerShell", 40.5, 500_000_000)).unwrap();
    assert_eq!(h.risk, 7);
    let h = assess_process(&sample(1, "PowerShell", 41.0, 500_000_001)).unwrap();
    assert_eq!(h.risk, 8);
    assert!(assess_process(&sample(1, "cmd", f32::NAN, 0)).is_none());
}

#[test]
fn detect_reports_first_flagged_process() {
    let snapshot = vec![
        sample(10, "bash", 99.0, 900_000_000),
        sample(11, "Locker", 1.0, 600_000_000),
        sample(12, "encrypt", 90.0, 900_000_000),
    ];
    let h = detect_ransomware_behavior(&snapshot).unwrap();
    assert_eq!(h.pid, 11);
    assert_eq!(h.risk, 7);
    assert!(detect_ransomware_behavior(&vec![sample(1, "bash", 99.0, 0)]).is_none());
    assert!(detect_ransomware_behavior(&Vec::new()).is_none());
}

#[test]
fn identity_hash_is_sha256_of_name_and_pid() {
    assert_eq!(identity_hash_of("cmd.exe", 7), expected_hash("cmd.exe", 7));
    assert_eq!(identity_hash_of("", 0), expected_hash("", 0));
    assert_eq!(identity_hash_of("x", 0).len(), 64);
    assert_ne!(identity_hash_of("x", 1), identity_hash_of("x", 256));
}

#[test]
fn dispatch_delay_ms_stays_in_band() {
    for _ in 0..20 {
        let ms = hollow_with_risk(7).dispatch_delay_ms();
        assert!((900..=1800).contains(&ms));
    }
    let mut d = hollow_with_risk(7);
    d.is_decoy = true;
    assert_eq!(d.dispatch_delay_ms(), 0);
}
