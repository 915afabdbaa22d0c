use git_auto_sync::attempt::{Failure, Outcome};
use git_auto_sync::config::{Config, ConfigError};
use git_auto_sync::conflicts::{conflict_path, conflict_paths, ConflictEntry};
use git_auto_sync::notify::{alert_asset_path, needs_alert};
use git_auto_sync::refs::{head_ref_name, remote_name, tracking_ref_name, ObjectId};
use git_auto_sync::schedule::Scheduler;

fn strings(v: &[&str]) -> Vec<String> {
    v.iter().map(|s| s.to_string()).collect()
}

#[test]
fn zero_interval_is_refused() {
    let r = Config::new(0, "/srv/notes".to_string(), "main".to_string());
    assert!(matches!(r, Err(ConfigError::ZeroInterval)));
}

#[test]
fn config_keeps_its_values_and_derives_times() {
    let c = Config::new(5, "/srv/notes".to_string(), "main".to_string()).ok().unwrap();
    assert_eq!(c.interval_minutes(), 5);
    assert_eq!(c.repo_path(), "/srv/notes");
    assert_eq!(c.branch_name(), "main");
    assert_eq!(c.interval_ms(), 300_000);
    assert_eq!(c.deadline_ms(), 150_000);
}

#[test]
fn largest_interval_fits() {
    let c = Config::new(u32::MAX, "r".to_string(), "b".to_string()).ok().unwrap();
    assert_eq!(c.interval_ms(), u32::MAX as u64 * 60_000);
    assert_eq!(c.deadline_ms(), u32::MAX as u64 * 30_000);
}

#[test]
fn timed_out_attempt_keeps_the_schedule() {
    let c = Config::new(10, "r".to_string(), "main".to_string()).ok().unwrap();
    let mut s = Scheduler::new(&c);
    assert_eq!(s.interval_ms(), 600_000);
    assert_eq!(s.next_due_ms(), 0);
    assert_eq!(s.begin(0), Some(300_000));
    assert_eq!(s.begin(1), None);
    let o = s.finish(None);
    assert!(matches!(o, Outcome::TimedOut));
    assert!(!s.is_running());
    assert_eq!(s.next_due_ms(), 600_000);
    assert_eq!(s.begin(599_999), None);
    assert_eq!(s.begin(600_000), Some(300_000));
    let o = s.finish(Some(Outcome::NoChanges));
    assert!(matches!(o, Outcome::NoChanges));
    assert_eq!(s.next_due_ms(), 1_200_000);
}

#[test]
fn finishing_while_idle_keeps_the_due_time() {
    let c = Config::new(1, "r".to_string(), "main".to_string()).ok().unwrap();
    let mut s = Scheduler::new(&c);
    let o = s.finish(Some(Outcome::Success));
    assert!(matches!(o, Outcome::Success));
    assert_eq!(s.next_due_ms(), 0);
    assert_eq!(s.deadline_ms(), 30_000);
}

#[test]
fn reference_names() {
    assert_eq!(remote_name(), "origin");
    assert_eq!(head_ref_name("main"), "refs/heads/main");
    assert_eq!(tracking_ref_name("feature/x"), "refs/remotes/origin/feature/x");
    assert_eq!(head_ref_name(""), "refs/heads/");
}

#[test]
fn object_ids_compare_by_every_byte() {
    let a = ObjectId { bytes: [7; 20] };
    let mut b = ObjectId { bytes: [7; 20] };
    assert!(a.same_as(&b));
    b.bytes[19] = 8;
    assert!(!a.same_as(&b));
}

#[test]
fn conflict_path_decodes_utf8() {
    let e = ConflictEntry { their_path: Some("docs/caf\u{e9}.md".as_bytes().to_vec()) };
    assert_eq!(conflict_path(&e), "docs/caf\u{e9}.md");
    let bad = ConflictEntry { their_path: Some(vec![0xc0, 0x80]) };
    assert_eq!(conflict_path(&bad), "<conflict_invalid_path>");
    let none = ConflictEntry { their_path: None };
    assert_eq!(conflict_path(&none), "<error_no_conflict>");
    assert!(conflict_paths(&vec![]).is_empty());
}

#[test]
fn alert_path_escapes_debug_directory() {
    let p = alert_asset_path(&strings(&["/", "proj", "target", "debug"]));
    assert_eq!(p, strings(&["/", "proj", "target", "debug", "..", "assets", "error.wav"]));
}

#[test]
fn alert_path_elsewhere() {
    assert_eq!(
        alert_asset_path(&strings(&["/", "opt", "sync"])),
        strings(&["/", "opt", "sync", "assets", "error.wav"])
    );
    assert_eq!(alert_asset_path(&strings(&["/", "Debug"])), strings(&["/", "Debug", "assets", "error.wav"]));
    assert_eq!(alert_asset_path(&vec![]), strings(&["assets", "error.wav"]));
}

#[test]
fn only_failures_alert() {
    assert!(!needs_alert(&Outcome::Success));
    assert!(!needs_alert(&Outcome::NoChanges));
    assert!(needs_alert(&Outcome::TimedOut));
    assert!(needs_alert(&Outcome::ConflictsDetected(vec!["a".to_string()])));
    assert!(needs_alert(&Outcome::Error(Failure::NoHead)));
}
