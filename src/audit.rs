//! The audit log's lines: `[YYYY-MM-DD HH:MM:SS] <message>`.

use vstd::prelude::*;
use crate::stamp::Stamp;
use crate::record::{digit_char, format_record, in_record_range, stamp_text};
use crate::gate::AuditEvent;

verus! {

/// The decimal digits of `n`, without leading zeros.
pub open spec fn decimal_text(n: nat) -> Seq<char>
    decreases n,
{
    if n < 10 {
        seq![digit_char(n as int)]
    } else {
        decimal_text(n / 10).push(digit_char((n % 10) as int))
    }
}

/// Relies on `u64`'s `to_string`: its decimal digits, without sign or padding.
#[verifier::external_body]
fn u64_to_string(n: u64) -> (r: String)
    ensures
        r@ == decimal_text(n as nat),
{
    n.to_string()
}

/// The message that an audit entry carries.
pub open spec fn message_text(e: AuditEvent) -> Seq<char> {
    match e {
        AuditEvent::AuthorizedCard(id) => "Authorized card: "@ + id@,
        AuditEvent::UnauthorizedCard(id) => "Unauthorized card: "@ + id@,
        AuditEvent::SharingEnabled { minutes } => "File sharing enabled for "@ + decimal_text(
            minutes as nat,
        ) + " minutes"@,
        AuditEvent::SharingDisabled => "File sharing disabled"@,
        AuditEvent::CleanupOnExit => "System completely cleaned up on exit"@,
    }
}

/// The whole line of an entry written at `at`.
pub open spec fn audit_text(e: AuditEvent, at: Stamp) -> Seq<char> {
    "["@ + stamp_text(at) + "] "@ + message_text(e)
}

/// The message of an audit entry.
pub fn audit_message(e: &AuditEvent) -> (r: String)
    ensures
        r@ == message_text(*e),
{
    match e {
        AuditEvent::AuthorizedCard(id) => {
            let mut s = String::from_str("Authorized card: ");
            s.append(id.as_str());
            s
        },
        AuditEvent::UnauthorizedCard(id) => {
            let mut s = String::from_str("Unauthorized card: ");
            s.append(id.as_str());
            s
        },
        AuditEvent::SharingEnabled { minutes } => {
            let mut s = String::from_str("File sharing enabled for ");
            let digits = u64_to_string(*minutes);
            s.append(digits.as_str());
            s.append(" minutes");
            s
        },
        AuditEvent::SharingDisabled => String::from_str("File sharing disabled"),
        AuditEvent::CleanupOnExit => String::from_str("System completely cleaned up on exit"),
    }
}

/// The log line of an entry written at `at`.
pub fn audit_line(e: &AuditEvent, at: Stamp) -> (r: String)
    requires
        in_record_range(at),
    ensures
        r@ == audit_text(*e, at),
{
    let mut s = String::from_str("[");
    let when = format_record(at);
    s.append(when.as_str());
    s.append("] ");
    let msg = audit_message(e);
    s.append(msg.as_str());
    s
}

} // verus!
