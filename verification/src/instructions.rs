//! The ledger's caller-facing operations.

pub mod send_tip;
