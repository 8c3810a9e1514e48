//! Verified core of a small money-transfer service: session management with
//! time-based one-time-password login, content negotiation between JSON and
//! HTML clients, a transaction request/accept/reject state machine, and a
//! single-slot notification registry.

pub mod errors;
pub mod negotiate;
pub mod notify;
pub mod otp;
pub mod session;
pub mod store;
pub mod transact;
pub mod util;
