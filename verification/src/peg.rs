//! The two-way-peg snapshot: deposits and withdrawal outcomes of one
//! scan interval, assembled into the record the sidechain's consensus
//! layer applies.

use vstd::prelude::*;

use crate::deposits::{candidate_valid, candidates_decoded, decode_error_of, deposit_views,
    reconstruct_deposits, scan_deposits, scan_watermark};
use crate::types::{BlockHash, Deposit, FailedWithdrawal, SidechainId, SpentWithdrawal,
    TwoWayPegData, opt_hash_view};
use crate::withdrawals::{aggregate_spec, aggregate_withdrawals, bundle_views, failed_views,
    spent_views};
use crate::Error;

verus! {

/// Assembles one two-way-peg snapshot: the deposits reconstructed from
/// the interval's candidates, the new watermark, and the aggregated
/// withdrawal outcomes. The two parts are independent; a candidate that
/// does not decode fails the whole call.
pub fn two_way_peg_data(
    candidates: &Vec<Deposit>,
    start: &Option<BlockHash>,
    spent: &Vec<SpentWithdrawal>,
    failed: &Vec<FailedWithdrawal>,
    sidechain_id: SidechainId,
) -> (r: Result<TwoWayPegData, Error>)
    ensures
        r matches Ok(d) ==> {
            &&& forall|i: int|
                0 <= i < candidates@.len() ==> candidate_valid(#[trigger] candidates@[i]@)
            &&& deposit_views(d.deposits@) == scan_deposits(
                candidates_decoded(candidates@),
                opt_hash_view(*start),
            )
            &&& opt_hash_view(d.deposit_block_hash) == scan_watermark(
                candidates_decoded(candidates@),
                opt_hash_view(*start),
            )
            &&& bundle_views(d.bundle_statuses@) == aggregate_spec(
                spent_views(spent@),
                failed_views(failed@),
                sidechain_id.0,
            )
        },
        r matches Err(e) ==> exists|i: int|
            {
                &&& 0 <= i < candidates@.len()
                &&& !candidate_valid(#[trigger] candidates@[i]@)
                &&& e == decode_error_of(candidates@[i]@)
                &&& forall|j: int| 0 <= j < i ==> candidate_valid(#[trigger] candidates@[j]@)
            },
{
    let (deposits, deposit_block_hash) = match reconstruct_deposits(candidates, start) {
        Ok(p) => p,
        Err(e) => {
            return Err(e);
        },
    };
    let bundle_statuses = aggregate_withdrawals(spent, failed, sidechain_id);
    Ok(TwoWayPegData { deposits, deposit_block_hash, bundle_statuses })
}

} // verus!
