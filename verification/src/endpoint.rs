//! The endpoint's failure shapes, classified once at the boundary.
//!
//! The boundary that performs an exchange tags each failure exactly
//! once; the peg logic matches on the tagged shape and never on raw
//! strings scattered through call sites. Domain absence — a block the
//! node does not know — is split off here as a typed outcome, distinct
//! from a failure of the exchange itself.

use vstd::prelude::*;
use vstd::string::StringExecFns;

use crate::types::BlockHash;

verus! {

/// Classified outcome of a failed endpoint exchange.
#[derive(Debug)]
pub enum MainchainError {
    /// The endpoint answered with a tagged application error.
    Application { code: i32, message: String },
    /// The endpoint could not be asked or not be understood: connection,
    /// timeout, malformed response.
    Transport { message: String },
}

/// The code the endpoint uses for generic server-side errors.
pub const GENERIC_SERVER_ERROR_CODE: i32 = -1;

/// The code the endpoint uses where a referenced key — here a block
/// hash — is unknown to it.
pub const UNKNOWN_BLOCK_ERROR_CODE: i32 = -5;

/// The node has no knowledge of this block hash. A domain signal, not a
/// failure: the lookup itself succeeded in asking.
#[derive(Debug)]
pub struct BlockNotFoundError {
    pub block_hash: BlockHash,
}

/// The exact message the endpoint reports for a block lookup on a hash
/// it does not know.
pub open spec fn block_not_found_message() -> Seq<char> {
    "Block not found"@
}

/// Whether a failure is the endpoint's "block not found" signal: the
/// unknown-key code with exactly the sentinel message.
pub open spec fn is_block_not_found(e: MainchainError) -> bool {
    match e {
        MainchainError::Application { code, message } => code == UNKNOWN_BLOCK_ERROR_CODE
            && message@ == block_not_found_message(),
        MainchainError::Transport { .. } => false,
    }
}

/// Interprets the outcome of a block lookup for `block_hash`.
///
/// A successful lookup passes its value through. The "block not found"
/// signal becomes a typed absence carrying the hash — an answer, not an
/// error. Every other failure is propagated.
pub fn interpret_block_lookup<T>(outcome: Result<T, MainchainError>, block_hash: BlockHash) -> (r:
    Result<Result<T, BlockNotFoundError>, MainchainError>)
    ensures
        outcome matches Ok(v) ==> r matches Ok(i) && i matches Ok(w) && w == v,
        outcome matches Err(e) ==> if is_block_not_found(e) {
            r matches Ok(i) && i matches Err(b) && b.block_hash@ == block_hash@
        } else {
            r matches Err(e2) && e2 == e
        },
{
    match outcome {
        Ok(v) => Ok(Ok(v)),
        Err(e) => {
            let not_found = match &e {
                MainchainError::Application { code, message } => {
                    let sentinel = String::from_str("Block not found");
                    *code == UNKNOWN_BLOCK_ERROR_CODE && *message == sentinel
                },
                MainchainError::Transport { .. } => false,
            };
            if not_found {
                Ok(Err(BlockNotFoundError { block_hash }))
            } else {
                Err(e)
            }
        },
    }
}

} // verus!
