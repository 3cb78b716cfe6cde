//! Chunked uploads of large payloads to a ledger whose messages are small:
//! the largest payload one signed write message carries, the offset-addressed
//! plan of write units, the aggregation of their outcomes, the lifecycle of
//! the target account (allocate, write, finalize, hand authority on), and the
//! relay round proposal record.
use vstd::prelude::*;

pub mod account;
pub mod chunk;
pub mod config;
pub mod dispatch;
pub mod error;
pub mod instructions;
pub mod lifecycle;
pub mod message;
pub mod proposal;

verus! {

} // verus!
