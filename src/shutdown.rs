//! Shutdown: on a termination request access is revoked and the loop told to
//! stop; after the loop has stopped one final cleanup pass runs, once.

use vstd::prelude::*;
use crate::gate::{
    AuditEvent, GateStep, HostModel, apply_step, apply_steps, cleanup_plan, cleanup_steps,
    is_closed, lemma_apply_concat, revoke_plan, revoke_steps,
};

verus! {

/// The coordinator's state, shared between the loop and the signal handler.
pub struct Shutdown {
    /// Whether the loop should go on polling.
    pub running: bool,
    /// Whether the termination request has been acted on.
    pub revoked: bool,
    /// Whether the final cleanup pass has been handed out.
    pub cleaned: bool,
}

impl Shutdown {
    pub fn new() -> (r: Shutdown)
        ensures
            r.running,
            !r.revoked,
            !r.cleaned,
    {
        Shutdown { running: true, revoked: false, cleaned: false }
    }

    /// Whether the loop should run another tick.
    pub fn is_running(&self) -> (r: bool)
        ensures
            r == self.running,
    {
        self.running
    }

    /// A termination request: the first one revokes access and stops the
    /// loop; a repeated one asks for nothing more.
    pub fn request(&mut self) -> (r: Vec<GateStep>)
        ensures
            !final(self).running,
            final(self).revoked,
            final(self).cleaned == old(self).cleaned,
            r@ == if old(self).revoked { Seq::<GateStep>::empty() } else { revoke_plan() },
    {
        self.running = false;
        if self.revoked {
            let none: Vec<GateStep> = Vec::new();
            assert(none@ =~= Seq::<GateStep>::empty());
            none
        } else {
            self.revoked = true;
            revoke_steps()
        }
    }

    /// The final pass once the loop has stopped: handed out the first time
    /// only, so that the log gets one closing entry.
    pub fn finish(&mut self) -> (r: Vec<GateStep>)
        ensures
            !final(self).running,
            final(self).cleaned,
            final(self).revoked == old(self).revoked,
            r@ == if old(self).cleaned { Seq::<GateStep>::empty() } else { cleanup_plan() },
    {
        self.running = false;
        if self.cleaned {
            let none: Vec<GateStep> = Vec::new();
            assert(none@ =~= Seq::<GateStep>::empty());
            none
        } else {
            self.cleaned = true;
            cleanup_steps()
        }
    }
}

/// How many closing entries an audit log holds.
pub open spec fn cleanup_entries(audit: Seq<AuditEvent>) -> nat
    decreases audit.len(),
{
    if audit.len() == 0 {
        0
    } else {
        cleanup_entries(audit.drop_last()) + if audit.last() is CleanupOnExit { 1nat } else { 0nat }
    }
}

proof fn lemma_cleanup_entries_push(audit: Seq<AuditEvent>, e: AuditEvent)
    ensures
        cleanup_entries(audit.push(e)) == cleanup_entries(audit) + if e is CleanupOnExit { 1nat } else { 0nat },
{
    assert(audit.push(e).drop_last() =~= audit);
}

/// No step of `steps` writes a closing entry.
pub open spec fn writes_no_closing_entry(steps: Seq<GateStep>) -> bool {
    forall|i: int| 0 <= i < steps.len() ==> !(#[trigger] steps[i] matches GateStep::Audit(
        AuditEvent::CleanupOnExit,
    ))
}

proof fn lemma_steps_keep_entries(h: HostModel, steps: Seq<GateStep>)
    requires
        writes_no_closing_entry(steps),
    ensures
        cleanup_entries(apply_steps(h, steps).audit) == cleanup_entries(h.audit),
    decreases steps.len(),
{
    if steps.len() > 0 {
        let s0 = steps[0];
        if let GateStep::Audit(e) = s0 {
            lemma_cleanup_entries_push(h.audit, e);
        }
        let rest = steps.drop_first();
        assert forall|i: int| 0 <= i < rest.len() implies !(#[trigger] rest[i] matches GateStep::Audit(
            AuditEvent::CleanupOnExit,
        )) by {
            assert(rest[i] == steps[i + 1]);
        }
        lemma_steps_keep_entries(apply_step(h, s0), rest);
    }
}

proof fn lemma_cleanup_closes(h: HostModel)
    ensures
        is_closed(apply_steps(h, cleanup_plan())),
        apply_steps(h, cleanup_plan()).audit == h.audit.push(AuditEvent::CleanupOnExit),
{
    reveal_with_fuel(apply_steps, 6);
}

/// Whatever steps came before it (the loop's revocations and grants, the
/// termination request's revocation, in any order), the final pass leaves the
/// host closed and adds exactly one closing entry to the log; when none of the
/// earlier steps wrote a closing entry, the log ends with exactly one more
/// than it had at the start.
pub proof fn lemma_shutdown_final_state(h: HostModel, before: Seq<GateStep>)
    ensures
        ({
            let end = apply_steps(h, before + cleanup_plan());
            &&& is_closed(end)
            &&& cleanup_entries(end.audit) == cleanup_entries(apply_steps(h, before).audit) + 1
            &&& writes_no_closing_entry(before) ==> cleanup_entries(end.audit)
                == cleanup_entries(h.audit) + 1
        }),
{
    let mid = apply_steps(h, before);
    lemma_apply_concat(h, before, cleanup_plan());
    lemma_cleanup_closes(mid);
    lemma_cleanup_entries_push(mid.audit, AuditEvent::CleanupOnExit);
    if writes_no_closing_entry(before) {
        lemma_steps_keep_entries(h, before);
    }
}

} // verus!
