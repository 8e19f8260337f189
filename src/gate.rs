//! Granting and revoking access: the steps each one takes on the host, and a
//! model of what those steps leave behind.

use vstd::prelude::*;
use crate::stamp::{Stamp, lemma_year_range, lemma_years_in_range, shift_seconds, MAX_SHIFT};
use crate::record::{format_record, in_record_range, recordable_instant, stamp_text};

verus! {

/// An entry of the audit log.
#[derive(Debug)]
pub enum AuditEvent {
    AuthorizedCard(String),
    UnauthorizedCard(String),
    SharingEnabled { minutes: u64 },
    SharingDisabled,
    CleanupOnExit,
}

/// One action on the host. Each is safe to repeat.
#[derive(Debug)]
pub enum GateStep {
    /// Overwrite the session record with this text.
    WriteRecord(String),
    /// Remove the session record; nothing happens when there is none.
    RemoveRecord,
    /// Loosen the shared folder's permissions.
    OpenShare,
    /// Tighten the shared folder's permissions.
    CloseShare,
    /// Unlock the dedicated file-transfer account.
    UnlockAccount,
    /// Lock the dedicated file-transfer account.
    LockAccount,
    /// Restart the file server, so that new permissions apply and open
    /// connections drop.
    RestartService,
    /// Append an entry to the audit log.
    Audit(AuditEvent),
}

/// What an observer of the host sees.
pub struct HostModel {
    pub record: Option<Seq<char>>,
    pub share_open: bool,
    pub account_unlocked: bool,
    pub audit: Seq<AuditEvent>,
}

pub open spec fn apply_step(h: HostModel, s: GateStep) -> HostModel {
    match s {
        GateStep::WriteRecord(t) => HostModel { record: Some(t@), ..h },
        GateStep::RemoveRecord => HostModel { record: None, ..h },
        GateStep::OpenShare => HostModel { share_open: true, ..h },
        GateStep::CloseShare => HostModel { share_open: false, ..h },
        GateStep::UnlockAccount => HostModel { account_unlocked: true, ..h },
        GateStep::LockAccount => HostModel { account_unlocked: false, ..h },
        GateStep::RestartService => h,
        GateStep::Audit(e) => HostModel { audit: h.audit.push(e), ..h },
    }
}

pub open spec fn apply_steps(h: HostModel, steps: Seq<GateStep>) -> HostModel
    decreases steps.len(),
{
    if steps.len() == 0 {
        h
    } else {
        apply_steps(apply_step(h, steps[0]), steps.drop_first())
    }
}

/// A host on which access is fully withdrawn.
pub open spec fn is_closed(h: HostModel) -> bool {
    h.record is None && !h.share_open && !h.account_unlocked
}

pub open spec fn grant_plan(record: String, minutes: u64) -> Seq<GateStep> {
    seq![
        GateStep::WriteRecord(record),
        GateStep::OpenShare,
        GateStep::UnlockAccount,
        GateStep::RestartService,
        GateStep::Audit(AuditEvent::SharingEnabled { minutes }),
    ]
}

pub open spec fn revoke_plan() -> Seq<GateStep> {
    seq![
        GateStep::RemoveRecord,
        GateStep::CloseShare,
        GateStep::LockAccount,
        GateStep::RestartService,
        GateStep::Audit(AuditEvent::SharingDisabled),
    ]
}

pub open spec fn cleanup_plan() -> Seq<GateStep> {
    seq![
        GateStep::CloseShare,
        GateStep::LockAccount,
        GateStep::RestartService,
        GateStep::RemoveRecord,
        GateStep::Audit(AuditEvent::CleanupOnExit),
    ]
}

/// The steps that open the share until the expiry whose record text is `record`.
pub fn grant_steps(record: String, minutes: u64) -> (r: Vec<GateStep>)
    ensures
        r@ == grant_plan(record, minutes),
{
    let mut v: Vec<GateStep> = Vec::new();
    v.push(GateStep::WriteRecord(record));
    v.push(GateStep::OpenShare);
    v.push(GateStep::UnlockAccount);
    v.push(GateStep::RestartService);
    v.push(GateStep::Audit(AuditEvent::SharingEnabled { minutes }));
    assert(v@ =~= grant_plan(record, minutes));
    v
}

/// The steps that withdraw access: the record first, then the host.
pub fn revoke_steps() -> (r: Vec<GateStep>)
    ensures
        r@ == revoke_plan(),
{
    let mut v: Vec<GateStep> = Vec::new();
    v.push(GateStep::RemoveRecord);
    v.push(GateStep::CloseShare);
    v.push(GateStep::LockAccount);
    v.push(GateStep::RestartService);
    v.push(GateStep::Audit(AuditEvent::SharingDisabled));
    assert(v@ =~= revoke_plan());
    v
}

/// The final pass on exit: the host first, then the record.
pub fn cleanup_steps() -> (r: Vec<GateStep>)
    ensures
        r@ == cleanup_plan(),
{
    let mut v: Vec<GateStep> = Vec::new();
    v.push(GateStep::CloseShare);
    v.push(GateStep::LockAccount);
    v.push(GateStep::RestartService);
    v.push(GateStep::RemoveRecord);
    v.push(GateStep::Audit(AuditEvent::CleanupOnExit));
    assert(v@ =~= cleanup_plan());
    v
}

/// An access window granted at some moment: its expiry and the record text.
#[derive(Debug)]
pub struct Grant {
    pub expires_at: Stamp,
    pub record: String,
}

/// The grant for an expiry that the calendar produced: one exists exactly
/// when the expiry exists and the record format can hold it.
pub fn grant_for(expiry: Option<Stamp>) -> (r: Option<Grant>)
    requires
        expiry matches Some(e) ==> e.wf(),
    ensures
        r is Some <==> (expiry matches Some(e) && in_record_range(e)),
        r matches Some(g) ==> expiry == Some(g.expires_at) && g.record@ == stamp_text(g.expires_at),
{
    match expiry {
        Some(e) => {
            if 0 <= e.year && e.year <= 9999 {
                Some(Grant { expires_at: e, record: format_record(e) })
            } else {
                None
            }
        },
        None => None,
    }
}

/// `g` opens a window of `window_secs` seconds starting at `now`.
pub open spec fn is_grant_at(g: Grant, now: Stamp, window_secs: int) -> bool {
    &&& in_record_range(g.expires_at)
    &&& g.expires_at.instant() == now.instant() + window_secs
    &&& g.record@ == stamp_text(g.expires_at)
}

/// The grant of a window of `window_secs` seconds that starts at `now`. A new
/// grant replaces any earlier one: its expiry counts from `now` alone.
pub fn grant_at(now: Stamp, window_secs: i64) -> (r: Option<Grant>)
    requires
        now.wf(),
        0 < window_secs <= MAX_SHIFT,
    ensures
        r is Some <==> recordable_instant(now.instant() + window_secs),
        r matches Some(g) ==> is_grant_at(g, now, window_secs as int),
{
    let expiry = shift_seconds(now, window_secs);
    proof {
        let x = now.instant() + window_secs;
        if recordable_instant(x) {
            lemma_years_in_range(0, 9999, x);
        }
        if let Some(u) = expiry {
            lemma_year_range(u, 0, 9999);
        }
    }
    grant_for(expiry)
}

/// Revoking leaves the host closed, whatever its state, and adds one entry
/// to the audit log.
pub proof fn lemma_revoke_closes(h: HostModel)
    ensures
        is_closed(apply_steps(h, revoke_plan())),
        apply_steps(h, revoke_plan()).audit == h.audit.push(AuditEvent::SharingDisabled),
{
    reveal_with_fuel(apply_steps, 6);
}

/// Revoking twice leaves the host as revoking once does, but for the second
/// entry in the audit log; on a host with no session it changes nothing else.
pub proof fn lemma_revoke_idempotent(h: HostModel)
    ensures
        ({
            let once = apply_steps(h, revoke_plan());
            let twice = apply_steps(once, revoke_plan());
            &&& twice.record == once.record
            &&& twice.share_open == once.share_open
            &&& twice.account_unlocked == once.account_unlocked
            &&& twice.audit == once.audit.push(AuditEvent::SharingDisabled)
        }),
        is_closed(h) ==> {
            let after = apply_steps(h, revoke_plan());
            &&& after.record == h.record
            &&& after.share_open == h.share_open
            &&& after.account_unlocked == h.account_unlocked
        },
{
    lemma_revoke_closes(h);
    lemma_revoke_closes(apply_steps(h, revoke_plan()));
}

/// Granting overwrites the record with the new expiry, whatever record the
/// host held before, and opens the share.
pub proof fn lemma_grant_overwrites(h: HostModel, record: String, minutes: u64)
    ensures
        apply_steps(h, grant_plan(record, minutes)).record == Some(record@),
        apply_steps(h, grant_plan(record, minutes)).share_open,
        apply_steps(h, grant_plan(record, minutes)).account_unlocked,
{
    reveal_with_fuel(apply_steps, 6);
}

/// Carrying out two lists of steps one after the other is carrying out
/// their concatenation.
pub proof fn lemma_apply_concat(h: HostModel, a: Seq<GateStep>, b: Seq<GateStep>)
    ensures
        apply_steps(h, a + b) == apply_steps(apply_steps(h, a), b),
    decreases a.len(),
{
    if a.len() == 0 {
        assert(a + b =~= b);
    } else {
        assert((a + b).drop_first() =~= a.drop_first() + b);
        lemma_apply_concat(apply_step(h, a[0]), a.drop_first(), b);
    }
}

} // verus!
