//! The polling loop's decisions: from the session record, the clock and the
//! detector's readings to the steps that the host must take.

use vstd::prelude::*;
use crate::stamp::{Stamp, seconds_between};
use crate::record::{
    SessionStatus, check_session, in_record_range, lemma_record_round_trip, record_stamp,
    record_view, recordable_instant, session_status, stamp_text,
};
use crate::token::{AllowList, Reading};
use crate::gate::{
    AuditEvent, GateStep, Grant, HostModel, apply_steps, grant_at, grant_plan, grant_steps,
    is_closed, is_grant_at, lemma_apply_concat, lemma_grant_overwrites, lemma_revoke_closes,
    revoke_plan, revoke_steps,
};

verus! {

/// Seconds between two reports of the remaining time while access is granted.
pub const STATUS_INTERVAL_SECS: i64 = 30;

/// Largest access window, in minutes: in seconds it must fit one calendar shift.
pub const MAX_WINDOW_MINUTES: u64 = 153722867280912;

/// Which cards open the share, and for how long.
pub struct Policy {
    pub allow: AllowList,
    pub window_minutes: u64,
}

impl Policy {
    pub open spec fn wf(&self) -> bool {
        1 <= self.window_minutes <= MAX_WINDOW_MINUTES
    }

    pub open spec fn window_secs(&self) -> int {
        self.window_minutes * 60
    }
}

#[derive(Clone, Copy, Debug, PartialEq, Eq, Structural)]
pub enum Phase {
    Unauthenticated,
    Authenticated,
}

/// What one tick of the loop asks of the host.
#[derive(Debug)]
pub struct TickPlan {
    /// Steps to carry out now: a revocation, or nothing.
    pub steps: Vec<GateStep>,
    /// Whether to poll the detector for a card in this tick.
    pub poll_token: bool,
    /// Seconds of access left, when a status report is due.
    pub report_remaining: Option<i64>,
}

/// The loop's state between ticks.
pub struct Controller {
    pub phase: Phase,
    /// When the remaining time was last reported, or access last absent.
    pub last_report: Stamp,
}

/// The phase that a record's status puts the loop in.
pub open spec fn phase_for(status: SessionStatus) -> Phase {
    match status {
        SessionStatus::Active { .. } => Phase::Authenticated,
        _ => Phase::Unauthenticated,
    }
}

/// Whether a tick that found `status` while in `phase` must revoke: the
/// record has lapsed or is unreadable, or it vanished while access was granted.
pub open spec fn tick_revokes(phase: Phase, status: SessionStatus) -> bool {
    ||| status is Lapsed
    ||| (status is Missing && phase == Phase::Authenticated)
}

/// The steps that a card reading leads to under `policy`, when granting
/// produces `grant` (`None` when the expiry cannot be recorded).
pub open spec fn reading_plan(id: String, known: bool, grant: Option<Grant>, minutes: u64) -> Seq<GateStep> {
    if !known {
        seq![GateStep::Audit(AuditEvent::UnauthorizedCard(id))] + revoke_plan()
    } else {
        match grant {
            Some(g) => seq![GateStep::Audit(AuditEvent::AuthorizedCard(id))] + grant_plan(g.record, minutes),
            None => seq![GateStep::Audit(AuditEvent::AuthorizedCard(id))] + revoke_plan(),
        }
    }
}

impl Controller {
    pub open spec fn wf(&self) -> bool {
        self.last_report.wf()
    }

    /// The loop as it starts: no access, whatever the record says, until a
    /// tick has read it.
    pub fn new(now: Stamp) -> (r: Controller)
        requires
            now.wf(),
        ensures
            r.wf(),
            r.phase == Phase::Unauthenticated,
            r.last_report == now,
    {
        Controller { phase: Phase::Unauthenticated, last_report: now }
    }

    /// The loop at process start, with the revocation that comes first, so
    /// that a record left from an earlier run grants nothing until a tick has
    /// read it anew.
    pub fn start(now: Stamp) -> (r: (Controller, Vec<GateStep>))
        requires
            now.wf(),
        ensures
            r.0.wf(),
            r.0.phase == Phase::Unauthenticated,
            r.0.last_report == now,
            r.1@ == revoke_plan(),
    {
        (Controller::new(now), revoke_steps())
    }

    /// One tick: reads the record (`None` when there is none) at `now`.
    /// Access that is still valid is kept without a card and reported every
    /// interval; anything else is revoked where needed and a card is polled for.
    pub fn tick(&mut self, record: Option<&str>, now: Stamp) -> (r: TickPlan)
        requires
            old(self).wf(),
            now.wf(),
        ensures
            final(self).wf(),
            ({
                let status = session_status(record_view(record), now);
                &&& final(self).phase == phase_for(status)
                &&& r.poll_token == !(status is Active)
                &&& r.steps@ == if tick_revokes(old(self).phase, status) {
                    revoke_plan()
                } else {
                    Seq::empty()
                }
                &&& match status {
                    SessionStatus::Active { expires_at } => {
                        if now.instant() - old(self).last_report.instant() > STATUS_INTERVAL_SECS {
                            &&& r.report_remaining == Some((expires_at.instant() - now.instant()) as i64)
                            &&& final(self).last_report == now
                        } else {
                            &&& r.report_remaining is None
                            &&& final(self).last_report == old(self).last_report
                        }
                    },
                    _ => r.report_remaining is None && final(self).last_report == now,
                }
            }),
    {
        let status = check_session(record, now);
        match status {
            SessionStatus::Active { expires_at } => {
                self.phase = Phase::Authenticated;
                let mut report: Option<i64> = None;
                if seconds_between(now, self.last_report) > STATUS_INTERVAL_SECS {
                    report = Some(seconds_between(expires_at, now));
                    self.last_report = now;
                }
                TickPlan { steps: Vec::new(), poll_token: false, report_remaining: report }
            },
            _ => {
                let revoke = match status {
                    SessionStatus::Lapsed => true,
                    _ => self.phase == Phase::Authenticated,
                };
                self.phase = Phase::Unauthenticated;
                self.last_report = now;
                let steps = if revoke { revoke_steps() } else { Vec::new() };
                proof {
                    if !revoke {
                        assert(steps@ =~= Seq::<GateStep>::empty());
                    }
                }
                TickPlan { steps, poll_token: true, report_remaining: None }
            },
        }
    }

    /// Acts on one reading of the detector at `now`. A card on the allow-list
    /// is logged and opens the share for the policy's window from `now`; any
    /// other card is logged and access is revoked; no card changes nothing.
    pub fn on_reading(&mut self, policy: &Policy, reading: &Reading, now: Stamp) -> (r: Vec<GateStep>)
        requires
            old(self).wf(),
            policy.wf(),
            now.wf(),
        ensures
            final(self).wf(),
            final(self).last_report == old(self).last_report,
            reading is Absent ==> r@ == Seq::<GateStep>::empty() && final(self).phase == old(self).phase,
            reading matches Reading::Detected(id) ==> exists|grant: Option<Grant>| {
                &&& (policy.allow@.contains(id@) ==> (grant is Some <==> recordable_instant(
                    now.instant() + policy.window_secs(),
                )))
                &&& (grant matches Some(g) ==> is_grant_at(g, now, policy.window_secs()))
                &&& r@ == reading_plan(*id, policy.allow@.contains(id@), grant, policy.window_minutes)
                &&& final(self).phase == if policy.allow@.contains(id@) && grant is Some {
                    Phase::Authenticated
                } else {
                    Phase::Unauthenticated
                }
            },
    {
        match reading {
            Reading::Absent => {
                let none: Vec<GateStep> = Vec::new();
                assert(none@ =~= Seq::<GateStep>::empty());
                none
            },
            Reading::Detected(id) => {
                let known = policy.allow.contains(id.as_str());
                let mut steps: Vec<GateStep> = Vec::new();
                if known {
                    steps.push(GateStep::Audit(AuditEvent::AuthorizedCard(id.clone())));
                    let grant = grant_at(now, (policy.window_minutes * 60) as i64);
                    let ghost g = grant;
                    match grant {
                        Some(gr) => {
                            let mut rest = grant_steps(gr.record, policy.window_minutes);
                            steps.append(&mut rest);
                            self.phase = Phase::Authenticated;
                        },
                        None => {
                            let mut rest = revoke_steps();
                            steps.append(&mut rest);
                            self.phase = Phase::Unauthenticated;
                        },
                    }
                    assert(steps@ =~= reading_plan(*id, true, g, policy.window_minutes));
                } else {
                    steps.push(GateStep::Audit(AuditEvent::UnauthorizedCard(id.clone())));
                    let mut rest = revoke_steps();
                    steps.append(&mut rest);
                    self.phase = Phase::Unauthenticated;
                    assert(steps@ =~= reading_plan(*id, false, None, policy.window_minutes));
                }
                steps
            },
        }
    }
}

/// A record whose expiry is not after `now` is no authorization: the tick
/// revokes, exactly once, and leaves the loop unauthenticated.
pub proof fn lemma_expired_record_revokes_once(e: Stamp, now: Stamp, phase: Phase)
    requires
        in_record_range(e),
        now.wf(),
        e.instant() <= now.instant(),
    ensures
        session_status(Some(stamp_text(e)), now) == SessionStatus::Lapsed,
        tick_revokes(phase, session_status(Some(stamp_text(e)), now)),
        phase_for(session_status(Some(stamp_text(e)), now)) == Phase::Unauthenticated,
{
    lemma_record_round_trip(e);
}

/// A record whose expiry is after `now` authorizes: the tick takes no step
/// and does not ask for a card.
pub proof fn lemma_valid_record_keeps_access(e: Stamp, now: Stamp, phase: Phase)
    requires
        in_record_range(e),
        now.wf(),
        e.instant() > now.instant(),
    ensures
        session_status(Some(stamp_text(e)), now) == (SessionStatus::Active { expires_at: e }),
        !tick_revokes(phase, session_status(Some(stamp_text(e)), now)),
        phase_for(session_status(Some(stamp_text(e)), now)) == Phase::Authenticated,
{
    lemma_record_round_trip(e);
}

/// Granting again replaces the window: after a grant at `t1` and another at
/// `t2`, the record holds `t2` plus the window, which lies after the first
/// expiry by `t2 - t1` and not by a further window.
pub proof fn lemma_regrant_resets_expiry(
    h: HostModel,
    first: Grant,
    second: Grant,
    t1: Stamp,
    t2: Stamp,
    window_secs: int,
    minutes: u64,
)
    requires
        is_grant_at(first, t1, window_secs),
        is_grant_at(second, t2, window_secs),
    ensures
        ({
            let after = apply_steps(
                apply_steps(h, grant_plan(first.record, minutes)),
                grant_plan(second.record, minutes),
            );
            &&& after.record is Some
            &&& record_stamp(after.record->0) == Some(second.expires_at)
            &&& second.expires_at.instant() == t2.instant() + window_secs
            &&& second.expires_at.instant() - first.expires_at.instant() == t2.instant() - t1.instant()
        }),
{
    let mid = apply_steps(h, grant_plan(first.record, minutes));
    lemma_grant_overwrites(mid, second.record, minutes);
    lemma_record_round_trip(second.expires_at);
}

/// A card that is not on the allow-list never opens the share: whatever the
/// host held, the steps of that reading leave it closed, with no record.
pub proof fn lemma_unknown_card_grants_nothing(h: HostModel, id: String, grant: Option<Grant>, minutes: u64)
    ensures
        is_closed(apply_steps(h, reading_plan(id, false, grant, minutes))),
{
    let head = seq![GateStep::Audit(AuditEvent::UnauthorizedCard(id))];
    lemma_apply_concat(h, head, revoke_plan());
    lemma_revoke_closes(apply_steps(h, head));
}

} // verus!
