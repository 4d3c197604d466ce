//! Verified core of an on-ledger voting program.
//!
//! An authority creates a poll with bounded text fields and a deadline,
//! distinct participants each cast at most one vote, and the authority may
//! close the poll early.  Every state transition is validated in full before
//! any record is mutated; failures leave the records untouched.
//!
//! The surrounding runtime resolves which records an operation addresses and
//! supplies the caller's authenticated identity and the current ledger time;
//! the functions here do the validation and the mutation, and return the
//! notification values that the runtime is to emit.

pub mod errors;
pub mod events;
pub mod laws;
pub mod ledger;
pub mod ops;
pub mod records;
