//! Time-boxed access to a shared folder, granted when a recognised card is
//! presented and revoked at expiry, on a rejected card and on shutdown.
//!
//! The library holds the decisions: the session record's text format, the
//! validity check, the allow-list, the steps of granting and revoking, the
//! polling state machine and the shutdown coordination. The program around it
//! runs the detector, the clock loop and the operating-system commands.

pub mod stamp;
pub mod record;
pub mod token;
pub mod gate;
pub mod control;
pub mod shutdown;
pub mod audit;
