//! Withdrawal status aggregation: one consistent outcome view from the
//! node's "spent" and "failed" withdrawal lists.

use vstd::prelude::*;

use crate::types::{FailedWithdrawal, FailedWithdrawalV, SidechainId, SpentWithdrawal,
    SpentWithdrawalV, Txid, WithdrawalBundleStatus};

verus! {

/// Ghost images of a sequence of spent withdrawals.
pub open spec fn spent_views(v: Seq<SpentWithdrawal>) -> Seq<SpentWithdrawalV> {
    v.map_values(|s: SpentWithdrawal| s@)
}

/// Ghost images of a sequence of failed withdrawals.
pub open spec fn failed_views(v: Seq<FailedWithdrawal>) -> Seq<FailedWithdrawalV> {
    v.map_values(|f: FailedWithdrawal| f@)
}

/// Ghost images of a sequence of aggregated outcomes.
pub open spec fn bundle_views(v: Seq<(Txid, WithdrawalBundleStatus)>) -> Seq<
    (Seq<u8>, WithdrawalBundleStatus),
> {
    v.map_values(|p: (Txid, WithdrawalBundleStatus)| (p.0@, p.1))
}

/// The spent withdrawals of sidechain `id`, each confirmed, in list
/// order.
pub open spec fn confirmed_part(spent: Seq<SpentWithdrawalV>, id: u8) -> Seq<
    (Seq<u8>, WithdrawalBundleStatus),
> {
    spent.filter(|s: SpentWithdrawalV| s.nsidechain == id).map_values(
        |s: SpentWithdrawalV| (s.hash, WithdrawalBundleStatus::Confirmed),
    )
}

/// The failed withdrawals, each failed, in list order. The failed list
/// is already specific to one sidechain upstream, so it is not filtered.
pub open spec fn failed_part(failed: Seq<FailedWithdrawalV>) -> Seq<
    (Seq<u8>, WithdrawalBundleStatus),
> {
    failed.map_values(|f: FailedWithdrawalV| (f.hash, WithdrawalBundleStatus::Failed))
}

/// The combined outcome list: confirmed first, then failed, each part in
/// its source order. Nothing is deduplicated.
pub open spec fn aggregate_spec(
    spent: Seq<SpentWithdrawalV>,
    failed: Seq<FailedWithdrawalV>,
    id: u8,
) -> Seq<(Seq<u8>, WithdrawalBundleStatus)> {
    confirmed_part(spent, id) + failed_part(failed)
}

/// Merges the "spent" list, filtered to the given sidechain, and the
/// "failed" list into one outcome list: spent bundles are confirmed,
/// failed bundles failed, each source's order kept, spent first.
pub fn aggregate_withdrawals(
    spent: &Vec<SpentWithdrawal>,
    failed: &Vec<FailedWithdrawal>,
    sidechain_id: SidechainId,
) -> (r: Vec<(Txid, WithdrawalBundleStatus)>)
    ensures
        bundle_views(r@) == aggregate_spec(
            spent_views(spent@),
            failed_views(failed@),
            sidechain_id.0,
        ),
{
    let ghost sv = spent_views(spent@);
    let ghost fv = failed_views(failed@);
    let id = sidechain_id.0;
    let mut out: Vec<(Txid, WithdrawalBundleStatus)> = Vec::new();
    let n_spent = spent.len();
    for k in 0..n_spent
        invariant
            n_spent == spent@.len(),
            sv == spent_views(spent@),
            id == sidechain_id.0,
            bundle_views(out@) == confirmed_part(sv.take(k as int), id),
    {
        let ghost out0 = out@;
        let ghost pred = |s: SpentWithdrawalV| s.nsidechain == id;
        proof {
            reveal(Seq::filter);
            assert(sv.take(k + 1).drop_last() =~= sv.take(k as int));
            assert(sv.take(k + 1).drop_last() == sv.take(k as int));
            assert(sv.take(k + 1).last() == spent@[k as int]@);
        }
        if spent[k].nsidechain == id {
            out.push((spent[k].hash.duplicate(), WithdrawalBundleStatus::Confirmed));
            proof {
                reveal(Seq::filter);
                let ghost pairv = (spent@[k as int].hash@, WithdrawalBundleStatus::Confirmed);
                assert(bundle_views(out@) =~~= bundle_views(out0).push(pairv));
                assert(sv.take(k + 1).filter(pred) == sv.take(k as int).filter(pred).push(
                    sv[k as int],
                ));
                assert(confirmed_part(sv.take(k + 1), id) =~~= confirmed_part(
                    sv.take(k as int),
                    id,
                ).push(pairv));
                assert(bundle_views(out@) == confirmed_part(sv.take(k + 1), id));
            }
        } else {
            proof {
                reveal(Seq::filter);
                assert(sv.take(k + 1).filter(pred) == sv.take(k as int).filter(pred));
                assert(bundle_views(out@) == confirmed_part(sv.take(k + 1), id));
            }
        }
    }
    proof {
        assert(sv.take(n_spent as int) =~= sv);
    }
    let n_failed = failed.len();
    for k in 0..n_failed
        invariant
            n_failed == failed@.len(),
            sv == spent_views(spent@),
            fv == failed_views(failed@),
            id == sidechain_id.0,
            bundle_views(out@) == confirmed_part(sv, id) + failed_part(fv.take(k as int)),
    {
        let ghost out0 = out@;
        out.push((failed[k].hash.duplicate(), WithdrawalBundleStatus::Failed));
        proof {
            let ghost pairv = (failed@[k as int].hash@, WithdrawalBundleStatus::Failed);
            assert(fv.take(k + 1).last() == failed@[k as int]@);
            assert(bundle_views(out@) =~~= bundle_views(out0).push(pairv));
            assert(failed_part(fv.take(k + 1)) =~~= failed_part(fv.take(k as int)).push(pairv));
            assert(confirmed_part(sv, id) + failed_part(fv.take(k + 1)) =~~= (confirmed_part(
                sv,
                id,
            ) + failed_part(fv.take(k as int))).push(pairv));
            assert(bundle_views(out@) == confirmed_part(sv, id) + failed_part(fv.take(k + 1)));
        }
    }
    proof {
        assert(fv.take(n_failed as int) =~= fv);
    }
    out
}

} // verus!
