//! Blind-merged-mining confirmation: interpreting the endpoint's answer
//! to a verification query, and the decision step of the wait-for-next-
//! block poll loop.

use vstd::prelude::*;
use vstd::string::StringExecFns;

use crate::endpoint::{MainchainError, GENERIC_SERVER_ERROR_CODE};
use crate::types::{Block, BlockHash};

verus! {

/// The exact message the endpoint reports where a block exists but
/// carries no matching commitment.
pub open spec fn commitment_not_found_message() -> Seq<char> {
    "h* not found in block"@
}

/// Whether a failure is the endpoint's "commitment not found" signal:
/// the generic server-error code with exactly the sentinel message.
pub open spec fn is_commitment_not_found(e: MainchainError) -> bool {
    match e {
        MainchainError::Application { code, message } => code == GENERIC_SERVER_ERROR_CODE
            && message@ == commitment_not_found_message(),
        MainchainError::Transport { .. } => false,
    }
}

/// What a verification query's outcome means: success confirms, the
/// "commitment not found" signal denies, anything else is a failure of
/// the query itself.
pub open spec fn bmm_verification_spec(outcome: Result<(), MainchainError>) -> Result<
    bool,
    MainchainError,
> {
    match outcome {
        Ok(_) => Ok(true),
        Err(e) => if is_commitment_not_found(e) {
            Ok(false)
        } else {
            Err(e)
        },
    }
}

/// Interprets the endpoint's answer to a BMM verification query.
///
/// A successful query confirms the commitment. An application error
/// carrying the generic server-error code and exactly the "commitment
/// not found" sentinel message denies it — that is an answer, not an
/// error. Every other failure is propagated.
pub fn interpret_verify_bmm(outcome: Result<(), MainchainError>) -> (r: Result<
    bool,
    MainchainError,
>)
    ensures
        r == bmm_verification_spec(outcome),
{
    match outcome {
        Ok(_) => Ok(true),
        Err(e) => {
            let not_found = match &e {
                MainchainError::Application { code, message } => {
                    let sentinel = String::from_str("h* not found in block");
                    *code == GENERIC_SERVER_ERROR_CODE && *message == sentinel
                },
                MainchainError::Transport { .. } => false,
            };
            if not_found {
                Ok(false)
            } else {
                Err(e)
            }
        },
    }
}

/// The decision the poll loop takes after fetching the block it waits
/// on.
#[derive(Debug)]
pub enum BmmNextBlockStep {
    /// No successor block yet: sleep the caller's interval and poll
    /// again.
    Retry,
    /// A successor exists: run the verification query against it.
    VerifyAgainst { main_hash: BlockHash },
}

/// One decision step of the wait-for-next-block poll loop: polling stops
/// exactly when the fetched block carries a successor hash, and the
/// verification then targets that successor.
pub fn next_block_poll_step(block: &Block) -> (r: BmmNextBlockStep)
    ensures
        block.nextblockhash matches Some(h) ==> r matches BmmNextBlockStep::VerifyAgainst {
            main_hash,
        } && main_hash@ == h@,
        block.nextblockhash is None ==> r is Retry,
{
    match &block.nextblockhash {
        Some(h) => BmmNextBlockStep::VerifyAgainst { main_hash: h.duplicate() },
        None => BmmNextBlockStep::Retry,
    }
}

} // verus!
