use card_share::audit::{audit_line, audit_message};
use card_share::control::{Controller, Phase, Policy};
use card_share::gate::{
    cleanup_steps, grant_at, grant_for, revoke_steps, AuditEvent, GateStep,
};
use card_share::record::{check_session, format_record, parse_record, SessionStatus};
use card_share::shutdown::Shutdown;
use card_share::stamp::{seconds_between, shift_seconds, Stamp};
use card_share::token::{classify_output, AllowList, Reading};

fn at(year: i32, month: u32, day: u32, hour: u32, minute: u32, second: u32) -> Stamp {
    Stamp { year, month, day, hour, minute, second }
}

fn t0() -> Stamp {
    at(2024, 5, 1, 12, 0, 0)
}

fn later(t: Stamp, secs: i64) -> Stamp {
    shift_seconds(t, secs).unwrap()
}

fn policy() -> Policy {
    Policy { allow: AllowList::new(vec!["79 DE 3F 02".to_string()]), window_minutes: 10 }
}

/// What the host looks like after a list of steps.
#[derive(Debug, Default)]
struct Host {
    record: Option<String>,
    share_open: bool,
    account_unlocked: bool,
    restarts: u32,
    audit: Vec<String>,
}

impl Host {
    fn apply(&mut self, steps: &[GateStep]) {
        for s in steps {
            match s {
                GateStep::WriteRecord(t) => self.record = Some(t.clone()),
                GateStep::RemoveRecord => self.record = None,
                GateStep::OpenShare => self.share_open = true,
                GateStep::CloseShare => self.share_open = false,
                GateStep::UnlockAccount => self.account_unlocked = true,
                GateStep::LockAccount => self.account_unlocked = false,
                GateStep::RestartService => self.restarts += 1,
                GateStep::Audit(e) => self.audit.push(audit_message(e)),
            }
        }
    }
}

#[test]
fn shift_crosses_leap_day() {
    let u = later(at(2024, 2, 28, 23, 55, 0), 600);
    assert_eq!(u, at(2024, 2, 29, 0, 5, 0));
    let v = later(at(2023, 12, 31, 23, 59, 59), 1);
    assert_eq!(v, at(2024, 1, 1, 0, 0, 0));
    let w = later(at(2024, 3, 1, 0, 0, 0), -1);
    assert_eq!(w, at(2024, 2, 29, 23, 59, 59));
}

#[test]
fn seconds_between_counts_signed() {
    assert_eq!(seconds_between(at(2024, 5, 1, 12, 10, 0), t0()), 600);
    assert_eq!(seconds_between(t0(), at(2024, 5, 1, 12, 10, 0)), -600);
    assert_eq!(seconds_between(at(2025, 1, 1, 0, 0, 0), at(2024, 1, 1, 0, 0, 0)), 366 * 86400);
}

#[test]
fn record_text_is_zero_padded() {
    assert_eq!(format_record(at(2024, 3, 5, 7, 8, 9)), "2024-03-05 07:08:09");
    assert_eq!(format_record(at(0, 1, 1, 0, 0, 0)), "0000-01-01 00:00:00");
    assert_eq!(format_record(at(9999, 12, 31, 23, 59, 59)), "9999-12-31 23:59:59");
}

#[test]
fn record_round_trips() {
    for t in [t0(), at(1999, 12, 31, 23, 59, 59), at(2000, 2, 29, 0, 0, 1), at(1, 1, 1, 0, 0, 0)] {
        assert_eq!(parse_record(&format_record(t)), Some(t));
    }
}

#[test]
fn record_accepts_surrounding_white_space() {
    assert_eq!(parse_record("  2024-03-05 07:08:09\n"), Some(at(2024, 3, 5, 7, 8, 9)));
}

#[test]
fn record_rejects_other_text() {
    assert_eq!(parse_record("garbage"), None);
    assert_eq!(parse_record(""), None);
    assert_eq!(parse_record("2024-3-5 07:08:09"), None);
    assert_eq!(parse_record("2024-03-05 7:08:09"), None);
    assert_eq!(parse_record("2024-13-01 00:00:00"), None);
    assert_eq!(parse_record("2023-02-29 00:00:00"), None);
    assert_eq!(parse_record("2024-03-05 24:00:00"), None);
    assert_eq!(parse_record("2024-03-05T07:08:09"), None);
    assert_eq!(parse_record("+10000-01-01 00:00:00"), None);
    assert_eq!(parse_record("2024-03-05 07:08:09 extra"), None);
}

#[test]
fn expiry_at_or_before_now_lapses() {
    let rec = format_record(t0());
    assert_eq!(check_session(Some(&rec), t0()), SessionStatus::Lapsed);
    assert_eq!(check_session(Some(&rec), later(t0(), 1)), SessionStatus::Lapsed);
    assert_eq!(check_session(Some(&rec), later(t0(), 86400 * 400)), SessionStatus::Lapsed);
}

#[test]
fn expiry_after_now_is_active() {
    let rec = format_record(t0());
    assert_eq!(check_session(Some(&rec), later(t0(), -1)), SessionStatus::Active { expires_at: t0() });
    assert_eq!(check_session(None, t0()), SessionStatus::Missing);
}

#[test]
fn authorized_card_scenario() {
    let mut c = Controller::new(t0());
    let steps = c.on_reading(&policy(), &Reading::Detected("79 DE 3F 02".to_string()), t0());
    assert_eq!(c.phase, Phase::Authenticated);
    let mut host = Host::default();
    host.apply(&steps);
    assert_eq!(host.record.as_deref(), Some("2024-05-01 12:10:00"));
    assert!(host.share_open && host.account_unlocked);
    assert_eq!(host.audit, vec!["Authorized card: 79 DE 3F 02", "File sharing enabled for 10 minutes"]);

    let rec = host.record.clone();
    let plan = c.tick(rec.as_deref(), later(t0(), 599));
    assert!(plan.steps.is_empty());
    assert!(!plan.poll_token);
    assert_eq!(c.phase, Phase::Authenticated);

    let plan = c.tick(rec.as_deref(), later(t0(), 601));
    assert_eq!(plan.steps.len(), 5);
    assert!(plan.poll_token);
    assert_eq!(c.phase, Phase::Unauthenticated);
    host.apply(&plan.steps);
    assert_eq!(host.record, None);
    assert!(!host.share_open && !host.account_unlocked);
}

#[test]
fn status_reported_every_interval() {
    let rec = format_record(later(t0(), 600));
    let mut c = Controller::new(t0());
    assert_eq!(c.tick(Some(&rec), later(t0(), 10)).report_remaining, None);
    assert_eq!(c.tick(Some(&rec), later(t0(), 31)).report_remaining, Some(569));
    assert_eq!(c.last_report, later(t0(), 31));
    assert_eq!(c.tick(Some(&rec), later(t0(), 50)).report_remaining, None);
    assert_eq!(c.tick(Some(&rec), later(t0(), 62)).report_remaining, Some(538));
}

#[test]
fn garbage_record_revokes_once() {
    let mut c = Controller::new(t0());
    let mut host = Host::default();
    host.record = Some("garbage".to_string());
    let plan = c.tick(host.record.as_deref(), t0());
    assert_eq!(plan.steps.len(), 5);
    assert!(matches!(plan.steps[0], GateStep::RemoveRecord));
    assert!(plan.poll_token);
    host.apply(&plan.steps);
    assert_eq!(host.record, None);
    let again = c.tick(host.record.as_deref(), later(t0(), 1));
    assert!(again.steps.is_empty());
    assert_eq!(host.audit, vec!["File sharing disabled"]);
}

#[test]
fn vanished_record_revokes_when_authenticated() {
    let rec = format_record(later(t0(), 600));
    let mut c = Controller::new(t0());
    c.tick(Some(&rec), t0());
    assert_eq!(c.phase, Phase::Authenticated);
    let plan = c.tick(None, later(t0(), 5));
    assert_eq!(plan.steps.len(), 5);
    assert_eq!(c.phase, Phase::Unauthenticated);
    assert!(c.tick(None, later(t0(), 6)).steps.is_empty());
}

#[test]
fn regrant_resets_expiry() {
    let mut c = Controller::new(t0());
    let card = Reading::Detected("79 DE 3F 02".to_string());
    let mut host = Host::default();
    host.apply(&c.on_reading(&policy(), &card, t0()));
    assert_eq!(host.record.as_deref(), Some("2024-05-01 12:10:00"));
    host.apply(&c.on_reading(&policy(), &card, later(t0(), 300)));
    assert_eq!(host.record.as_deref(), Some("2024-05-01 12:15:00"));
    assert_ne!(host.record.as_deref(), Some("2024-05-01 12:20:00"));
}

#[test]
fn unknown_card_opens_nothing() {
    let mut c = Controller::new(t0());
    let mut host = Host::default();
    let steps = c.on_reading(&policy(), &Reading::Detected("79 de 3f 02".to_string()), t0());
    host.apply(&steps);
    assert_eq!(c.phase, Phase::Unauthenticated);
    assert_eq!(host.record, None);
    assert!(!host.share_open && !host.account_unlocked);
    assert_eq!(host.audit, vec!["Unauthorized card: 79 de 3f 02", "File sharing disabled"]);
    assert!(c.on_reading(&policy(), &Reading::Absent, t0()).is_empty());
}

#[test]
fn start_revokes_first() {
    let (c, steps) = Controller::start(t0());
    assert_eq!(c.phase, Phase::Unauthenticated);
    let mut host = Host::default();
    host.record = Some("2024-05-01 12:10:00".to_string());
    host.share_open = true;
    host.account_unlocked = true;
    host.apply(&steps);
    assert_eq!(host.record, None);
    assert!(!host.share_open && !host.account_unlocked);
    assert_eq!(host.restarts, 1);
}

#[test]
fn revoke_without_session_changes_nothing() {
    let mut host = Host::default();
    host.apply(&revoke_steps());
    host.apply(&revoke_steps());
    assert_eq!(host.record, None);
    assert!(!host.share_open && !host.account_unlocked);
    assert_eq!(host.audit, vec!["File sharing disabled", "File sharing disabled"]);
}

#[test]
fn grant_needs_a_four_digit_year() {
    assert!(grant_at(at(9999, 12, 31, 23, 55, 0), 600).is_none());
    let g = grant_at(at(9999, 12, 31, 23, 40, 0), 600).unwrap();
    assert_eq!(g.record, "9999-12-31 23:50:00");
    let early = grant_at(at(-1, 12, 31, 23, 55, 0), 600).unwrap();
    assert_eq!(early.record, "0000-01-01 00:05:00");
    assert!(grant_at(at(-1, 12, 31, 23, 40, 0), 600).is_none());
    assert!(grant_for(None).is_none());
    assert!(grant_for(Some(at(10000, 1, 1, 0, 0, 0))).is_none());
}

#[test]
fn termination_during_session_closes_once() {
    let mut c = Controller::new(t0());
    let mut host = Host::default();
    host.apply(&c.on_reading(&policy(), &Reading::Detected("79 DE 3F 02".to_string()), t0()));
    let mut sd = Shutdown::new();
    assert!(sd.is_running());
    let first = sd.request();
    assert_eq!(first.len(), 5);
    host.apply(&first);
    assert!(!sd.is_running());
    assert!(sd.request().is_empty());
    // the loop, mid-tick, revokes on its own too
    host.apply(&c.tick(host.record.clone().as_deref(), later(t0(), 1)).steps);
    host.apply(&revoke_steps());
    let last = sd.finish();
    assert_eq!(last.len(), 5);
    host.apply(&last);
    assert!(sd.finish().is_empty());
    assert_eq!(host.record, None);
    assert!(!host.share_open && !host.account_unlocked);
    let closing = host.audit.iter().filter(|m| *m == "System completely cleaned up on exit").count();
    assert_eq!(closing, 1);
    assert_eq!(cleanup_steps().len(), 5);
}

#[test]
fn detector_output_is_classified() {
    for s in ["", "  ", "NO_CARD", "ERROR\n", "NO_READERS", "CONNECT_ERROR", "EXCEPTION: boom", "EXCEPTION:"] {
        assert!(matches!(classify_output(s), Reading::Absent), "{:?}", s);
    }
    match classify_output("  79 DE 3F 02\n") {
        Reading::Detected(id) => assert_eq!(id, "79 DE 3F 02"),
        Reading::Absent => panic!("expected a card"),
    }
    match classify_output("no_card") {
        Reading::Detected(id) => assert_eq!(id, "no_card"),
        Reading::Absent => panic!("sentinels are case-sensitive"),
    }
}

#[test]
fn allow_list_matches_exactly() {
    let list = AllowList::new(vec!["79 DE 3F 02".to_string(), "01 02 03 04".to_string()]);
    assert!(list.contains("79 DE 3F 02"));
    assert!(list.contains("01 02 03 04"));
    assert!(!list.contains("79 de 3f 02"));
    assert!(!list.contains("79 DE 3F 0"));
    assert!(!AllowList::new(vec![]).contains(""));
}

#[test]
fn audit_lines_are_formatted() {
    let e = AuditEvent::SharingEnabled { minutes: 10 };
    assert_eq!(audit_line(&e, t0()), "[2024-05-01 12:00:00] File sharing enabled for 10 minutes");
    assert_eq!(audit_message(&AuditEvent::SharingEnabled { minutes: 125 }), "File sharing enabled for 125 minutes");
    assert_eq!(audit_message(&AuditEvent::CleanupOnExit), "System completely cleaned up on exit");
    assert_eq!(audit_message(&AuditEvent::SharingDisabled), "File sharing disabled");
    assert_eq!(
        audit_line(&AuditEvent::UnauthorizedCard("AB".to_string()), at(999, 1, 2, 3, 4, 5)),
        "[0999-01-02 03:04:05] Unauthorized card: AB"
    );
}
