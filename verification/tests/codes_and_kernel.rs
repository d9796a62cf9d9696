use ahr_endpoint::action::Action;
use ahr_endpoint::run_options::RunOptions;
use ahr_endpoint::kernel::{first_existing, kernel_should_kill, object_candidates};
use ahr_endpoint::text::{contains_chars, hex_lower_string, push_decimal};

#[test]
fn action_codes_round_trip() {
    for a in [Action::Allow, Action::Soft, Action::Medium, Action::Kill] {
        assert_eq!(Action::from(a.as_u8()), a);
    }
    assert_eq!(Action::Kill.as_u8(), 3);
    assert_eq!(Action::Allow.as_u8(), 0);
    assert_eq!(Action::from(2u8), Action::Medium);
    assert_eq!(Action::from(4u8), Action::Allow);
    assert_eq!(Action::from(255u8), Action::Allow);
}

#[test]
fn kernel_kills_only_kill_entries() {
    assert!(kernel_should_kill(Some(3)));
    assert!(kernel_should_kill(Some(200)));
    assert!(!kernel_should_kill(Some(2)));
    assert!(!kernel_should_kill(None));
    assert!(kernel_should_kill(Some(Action::Kill.as_u8())));
    assert!(!kernel_should_kill(Some(Action::Medium.as_u8())));
}

#[test]
fn object_search_order_puts_env_first() {
    let v = object_candidates(Some("/tmp/x.o".into()));
    assert_eq!(
        v,
        vec![
            "/tmp/x.o",
            "./ahr-ebpf.o",
            "./target/bpfel-unknown-none/release/ahr-ebpf",
            "/usr/lib/ahr-endpoint/ahr-ebpf.o",
        ]
    );
    assert_eq!(object_candidates(None).len(), 3);
}

#[test]
fn first_existing_picks_earliest_file() {
    let paths = object_candidates(None);
    assert_eq!(first_existing(&paths, &vec![false, true, true]), Some(1));
    assert_eq!(first_existing(&paths, &vec![false, false, false]), None);
}

#[test]
fn decimal_hex_and_search_helpers() {
    let mut s = String::from("n=");
    push_decimal(&mut s, 0);
    push_decimal(&mut s, 1907);
    assert_eq!(s, "n=01907");
    assert_eq!(hex_lower_string(&[0x00, 0x0f, 0xa5, 0xff]), "000fa5ff");
    let hay: Vec<char> = "powershell.exe".chars().collect();
    assert!(contains_chars(&hay, &"shell".chars().collect()));
    assert!(!contains_chars(&hay, &"shells".chars().collect()));
    assert!(contains_chars(&hay, &Vec::new()));
}

#[test]
fn run_options_from_arguments() {
    let o = RunOptions::from_args(&vec!["--dry-run".to_string(), "--once".to_string()]);
    assert!(o.dry_run && o.once);
    assert!(!o.enforces());
    assert!(!o.continues());
    let o = RunOptions::from_args(&vec!["--once".to_string(), "--verbose".to_string()]);
    assert!(!o.dry_run && o.once);
    assert!(o.enforces());
    let o = RunOptions::from_args(&Vec::new());
    assert!(o.enforces() && o.continues());
    let o = RunOptions::from_args(&vec!["--dry-run=yes".to_string()]);
    assert!(!o.dry_run);
}
