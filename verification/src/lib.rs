//! Verified peg logic for a drivechain two-way peg.
//!
//! The library reconstructs individual deposits from the cumulative burn
//! totals a mainchain node reports, merges spent and failed withdrawal
//! lists into one outcome view, interprets blind-merged-mining (BMM)
//! verification responses, and assembles the pieces into one two-way-peg
//! snapshot. Transport, JSON encoding and the RPC method catalogue are the
//! caller's concern: every function here works on plain values.

use vstd::prelude::*;

pub mod auth;
pub mod bmm;
pub mod deposits;
pub mod endpoint;
pub mod hex_codec;
pub mod peg;
pub mod types;
pub mod withdrawals;

verus! {

/// Failure of a peg operation.
///
/// Domain absence ("block not found", "commitment not found") is not an
/// `Error`: it is reported as a typed outcome by the functions concerned.
#[derive(Debug)]
pub enum Error {
    /// The endpoint could not be asked, or answered with an application
    /// error that the peg logic does not interpret.
    Jsonrpsee { target: String },
    /// A candidate's raw transaction hex was not a hex string.
    Hex,
    /// A candidate's transaction bytes did not decode as a transaction.
    BitcoinConsensusEncode,
    /// A candidate's burn output index was past the decoded transaction's
    /// last output.
    MissingBurnOutput,
    /// No block succeeds the given one yet.
    NoNextBlock { prev_main_hash: types::BlockHash },
}

} // verus!
