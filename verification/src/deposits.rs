//! Deposit reconstruction.
//!
//! The mainchain node reports deposits as candidates whose burn output
//! carries the cumulative total ever burned to the sidechain. This module
//! decodes each candidate's raw transaction, then diffs consecutive
//! totals into individual deposit amounts, skipping candidates already
//! accounted for by the previous scan's watermark and candidates whose
//! total went backward.

use vstd::prelude::*;

use crate::hex_codec::{hex_decode, hex_decoded, is_hex_str};
use crate::types::{BlockHash, Deposit, DepositInfo, DepositInfoV, DepositV, OutPoint, Output, Txid,
    opt_hash_view};
use crate::Error;

verus! {

/// Whether bitcoin's consensus decoder reads `bytes` as a transaction,
/// consuming them entirely.
pub uninterp spec fn parses_as_transaction(bytes: Seq<u8>) -> bool;

/// The txid of the transaction encoded by `bytes`, in internal byte
/// order. Meaningful only where `parses_as_transaction(bytes)`.
pub uninterp spec fn parsed_txid(bytes: Seq<u8>) -> Seq<u8>;

/// The satoshi values of the outputs of the transaction encoded by
/// `bytes`, in output order. Meaningful only where
/// `parses_as_transaction(bytes)`.
pub uninterp spec fn parsed_output_values(bytes: Seq<u8>) -> Seq<u64>;

/// Relies on bitcoin's `consensus::encode::deserialize::<Transaction>`,
/// which succeeds exactly when `bytes` is a whole consensus-encoded
/// transaction, on `Transaction::compute_txid` for the decoded
/// transaction's id, and on `Amount::to_sat` for its output values. All
/// three depend on `bytes` alone.
#[verifier::external_body]
fn decode_transaction(bytes: &Vec<u8>) -> (r: Result<(Txid, Vec<u64>), Error>)
    ensures
        r matches Ok(t) ==> parses_as_transaction(bytes@) && t.0@ == parsed_txid(bytes@)
            && t.1@ == parsed_output_values(bytes@),
        r matches Err(e) ==> !parses_as_transaction(bytes@) && e == Error::BitcoinConsensusEncode,
{
    match bitcoin::consensus::encode::deserialize::<bitcoin::Transaction>(bytes.as_slice()) {
        Ok(tx) => {
            let txid = Txid(bitcoin::hashes::Hash::to_byte_array(tx.compute_txid()).to_vec());
            let values = tx.output.iter().map(|o| o.value.to_sat()).collect();
            Ok((txid, values))
        },
        Err(_) => Err(Error::BitcoinConsensusEncode),
    }
}

/// A candidate whose raw transaction has been decoded: `total` is the
/// value of its burn output, `txid` the id of the decoded transaction.
#[derive(Debug)]
pub struct DecodedDeposit {
    pub hashblock: BlockHash,
    pub ntx: usize,
    pub nburnindex: usize,
    pub strdest: String,
    pub txid: Txid,
    pub total: u64,
}

/// Ghost image of a `DecodedDeposit`.
pub ghost struct DecodedDepositV {
    pub hashblock: Seq<u8>,
    pub ntx: int,
    pub nburnindex: int,
    pub strdest: Seq<char>,
    pub txid: Seq<u8>,
    pub total: u64,
}

impl View for DecodedDeposit {
    type V = DecodedDepositV;

    open spec fn view(&self) -> DecodedDepositV {
        DecodedDepositV {
            hashblock: self.hashblock@,
            ntx: self.ntx as int,
            nburnindex: self.nburnindex as int,
            strdest: self.strdest@,
            txid: self.txid@,
            total: self.total,
        }
    }
}

/// Whether a candidate decodes: its hex is well formed, the bytes parse
/// as a transaction, and the burn output index lands on an output.
pub open spec fn candidate_valid(c: DepositV) -> bool {
    &&& is_hex_str(c.txhex)
    &&& parses_as_transaction(hex_decoded(c.txhex))
    &&& c.nburnindex < parsed_output_values(hex_decoded(c.txhex)).len()
}

/// What a valid candidate decodes to.
pub open spec fn decoded_of(c: DepositV) -> DecodedDepositV {
    DecodedDepositV {
        hashblock: c.hashblock,
        ntx: c.ntx,
        nburnindex: c.nburnindex,
        strdest: c.strdest,
        txid: parsed_txid(hex_decoded(c.txhex)),
        total: parsed_output_values(hex_decoded(c.txhex))[c.nburnindex],
    }
}

/// The error an invalid candidate fails with, in the order the checks
/// run: hex first, then consensus decoding, then the burn output index.
pub open spec fn decode_error_of(c: DepositV) -> Error {
    if !is_hex_str(c.txhex) {
        Error::Hex
    } else if !parses_as_transaction(hex_decoded(c.txhex)) {
        Error::BitcoinConsensusEncode
    } else {
        Error::MissingBurnOutput
    }
}

/// Ghost images of a sequence of decoded candidates.
pub open spec fn decoded_views(v: Seq<DecodedDeposit>) -> Seq<DecodedDepositV> {
    v.map_values(|c: DecodedDeposit| c@)
}

/// What a sequence of raw candidates decodes to.
pub open spec fn candidates_decoded(s: Seq<Deposit>) -> Seq<DecodedDepositV> {
    s.map_values(|c: Deposit| decoded_of(c@))
}

/// Decodes every candidate's raw transaction. Corrupt input fails the
/// whole call: the first candidate that does not decode decides the
/// error, and no partial result is returned.
pub fn decode_deposits(candidates: &Vec<Deposit>) -> (r: Result<Vec<DecodedDeposit>, Error>)
    ensures
        r matches Ok(v) ==> {
            &&& forall|i: int|
                0 <= i < candidates@.len() ==> candidate_valid(#[trigger] candidates@[i]@)
            &&& decoded_views(v@) == candidates_decoded(candidates@)
        },
        r matches Err(e) ==> exists|i: int|
            {
                &&& 0 <= i < candidates@.len()
                &&& !candidate_valid(#[trigger] candidates@[i]@)
                &&& e == decode_error_of(candidates@[i]@)
                &&& forall|j: int| 0 <= j < i ==> candidate_valid(#[trigger] candidates@[j]@)
            },
{
    let n = candidates.len();
    let mut out: Vec<DecodedDeposit> = Vec::new();
    for k in 0..n
        invariant
            n == candidates@.len(),
            out@.len() == k,
            forall|j: int| 0 <= j < k ==> candidate_valid(#[trigger] candidates@[j]@),
            forall|j: int| 0 <= j < k ==> #[trigger] out@[j]@ == decoded_of(candidates@[j]@),
    {
        let candidate = &candidates[k];
        let bytes = match hex_decode(candidate.txhex.as_str()) {
            Ok(v) => v,
            Err(e) => {
                proof {
                    assert(!candidate_valid(candidates@[k as int]@));
                }
                return Err(e);
            },
        };
        let (txid, values) = match decode_transaction(&bytes) {
            Ok(t) => t,
            Err(e) => {
                proof {
                    assert(!candidate_valid(candidates@[k as int]@));
                }
                return Err(e);
            },
        };
        if candidate.nburnindex >= values.len() {
            proof {
                assert(!candidate_valid(candidates@[k as int]@));
            }
            return Err(Error::MissingBurnOutput);
        }
        let total = values[candidate.nburnindex];
        out.push(
            DecodedDeposit {
                hashblock: candidate.hashblock.duplicate(),
                ntx: candidate.ntx,
                nburnindex: candidate.nburnindex,
                strdest: candidate.strdest.clone(),
                txid,
                total,
            },
        );
    }
    proof {
        assert(decoded_views(out@) =~= candidates_decoded(candidates@));
    }
    Ok(out)
}

/// Whether the candidate sits in the block the previous scan already
/// accounted for.
pub open spec fn matches_start(c: DecodedDepositV, start: Option<Seq<u8>>) -> bool {
    match start {
        Some(s) => c.hashblock == s,
        None => false,
    }
}

/// The running total just before candidate `i` is processed: every
/// candidate, emitted or skipped, leaves its own total behind, so this is
/// the previous candidate's total, and zero at the front.
pub open spec fn prev_total(cs: Seq<DecodedDepositV>, i: int) -> int {
    if i == 0 {
        0
    } else {
        cs[i - 1].total as int
    }
}

/// Whether candidate `i` produces a deposit: it is not in the `start`
/// block, and its cumulative total did not go backward.
pub open spec fn emits_at(cs: Seq<DecodedDepositV>, start: Option<Seq<u8>>, i: int) -> bool {
    !matches_start(cs[i], start) && prev_total(cs, i) <= cs[i].total as int
}

/// The deposit candidate `i` produces: its value is the step the
/// cumulative total took at this candidate.
pub open spec fn deposit_at(cs: Seq<DecodedDepositV>, i: int) -> DepositInfoV {
    DepositInfoV {
        block_hash: cs[i].hashblock,
        tx_index: cs[i].ntx,
        txid: cs[i].txid,
        vout: cs[i].nburnindex,
        address: cs[i].strdest,
        value: (cs[i].total - prev_total(cs, i)) as u64,
    }
}

/// The deposits a candidate sequence reconstructs to, in candidate order.
pub open spec fn scan_deposits(cs: Seq<DecodedDepositV>, start: Option<Seq<u8>>) -> Seq<
    DepositInfoV,
>
    decreases cs.len(),
{
    if cs.len() == 0 {
        Seq::empty()
    } else {
        let rest = scan_deposits(cs.drop_last(), start);
        if emits_at(cs, start, cs.len() - 1) {
            rest.push(deposit_at(cs, cs.len() - 1))
        } else {
            rest
        }
    }
}

/// The new watermark: the block hash of the last candidate that produced
/// a deposit, absent where none did.
pub open spec fn scan_watermark(cs: Seq<DecodedDepositV>, start: Option<Seq<u8>>) -> Option<
    Seq<u8>,
>
    decreases cs.len(),
{
    if cs.len() == 0 {
        None
    } else if emits_at(cs, start, cs.len() - 1) {
        Some(cs[cs.len() - 1].hashblock)
    } else {
        scan_watermark(cs.drop_last(), start)
    }
}

/// Ghost images of a sequence of reconstructed deposits.
pub open spec fn deposit_views(v: Seq<DepositInfo>) -> Seq<DepositInfoV> {
    v.map_values(|d: DepositInfo| d@)
}

/// Diffs consecutive cumulative totals into individual deposits.
///
/// Candidates in the `start` block and candidates whose total went
/// backward produce nothing, but still reset the running total; every
/// emitted deposit's value is its total minus the previous candidate's,
/// and the watermark is the block of the last emitted deposit.
pub fn reconstruct_from_decoded(decoded: &Vec<DecodedDeposit>, start: &Option<BlockHash>) -> (r: (
    Vec<DepositInfo>,
    Option<BlockHash>,
))
    ensures
        deposit_views(r.0@) == scan_deposits(decoded_views(decoded@), opt_hash_view(*start)),
        opt_hash_view(r.1) == scan_watermark(decoded_views(decoded@), opt_hash_view(*start)),
{
    let ghost cs = decoded_views(decoded@);
    let ghost startv = opt_hash_view(*start);
    let n = decoded.len();
    let mut out: Vec<DepositInfo> = Vec::new();
    let mut last_total: u64 = 0;
    let mut last_block: Option<BlockHash> = None;
    for k in 0..n
        invariant
            n == decoded@.len(),
            cs == decoded_views(decoded@),
            startv == opt_hash_view(*start),
            last_total as int == prev_total(cs, k as int),
            deposit_views(out@) == scan_deposits(cs.take(k as int), startv),
            opt_hash_view(last_block) == scan_watermark(cs.take(k as int), startv),
    {
        let c = &decoded[k];
        proof {
            assert(cs.take(k + 1).drop_last() =~= cs.take(k as int));
            assert(cs.take(k + 1)[k as int] == c@);
        }
        let in_start_block = match start {
            Some(s) => c.hashblock == *s,
            None => false,
        };
        proof {
            assert(in_start_block == matches_start(cs[k as int], startv));
        }
        if in_start_block {
            last_total = c.total;
        } else if c.total < last_total {
            last_total = c.total;
        } else {
            let value = c.total - last_total;
            out.push(
                DepositInfo {
                    block_hash: c.hashblock.duplicate(),
                    tx_index: c.ntx,
                    outpoint: OutPoint { txid: c.txid.duplicate(), vout: c.nburnindex },
                    output: Output { address: c.strdest.clone(), value },
                },
            );
            last_total = c.total;
            last_block = Some(c.hashblock.duplicate());
        }
        proof {
            assert(deposit_views(out@) =~= scan_deposits(cs.take(k + 1), startv));
        }
    }
    proof {
        assert(cs.take(n as int) =~= cs);
    }
    (out, last_block)
}

/// Reconstructs the deposits of one scan interval from its raw
/// candidates: decodes every candidate, then diffs consecutive totals.
/// Returns the deposits in candidate order and the new watermark; a
/// candidate that does not decode fails the whole call.
pub fn reconstruct_deposits(candidates: &Vec<Deposit>, start: &Option<BlockHash>) -> (r: Result<
    (Vec<DepositInfo>, Option<BlockHash>),
    Error,
>)
    ensures
        r matches Ok(p) ==> {
            &&& forall|i: int|
                0 <= i < candidates@.len() ==> candidate_valid(#[trigger] candidates@[i]@)
            &&& deposit_views(p.0@) == scan_deposits(
                candidates_decoded(candidates@),
                opt_hash_view(*start),
            )
            &&& opt_hash_view(p.1) == scan_watermark(
                candidates_decoded(candidates@),
                opt_hash_view(*start),
            )
        },
        r matches Err(e) ==> exists|i: int|
            {
                &&& 0 <= i < candidates@.len()
                &&& !candidate_valid(#[trigger] candidates@[i]@)
                &&& e == decode_error_of(candidates@[i]@)
                &&& forall|j: int| 0 <= j < i ==> candidate_valid(#[trigger] candidates@[j]@)
            },
{
    let decoded = match decode_deposits(candidates) {
        Ok(v) => v,
        Err(e) => {
            return Err(e);
        },
    };
    Ok(reconstruct_from_decoded(&decoded, start))
}

/// The sum of the emitted deposit values.
pub open spec fn sum_deposit_values(ds: Seq<DepositInfoV>) -> int
    decreases ds.len(),
{
    if ds.len() == 0 {
        0
    } else {
        sum_deposit_values(ds.drop_last()) + ds.last().value
    }
}

/// Law: over candidates with strictly increasing burn totals, none of
/// which sits in the `start` block, the emitted deposit values sum
/// exactly to the final cumulative total minus the initial total of
/// zero.
pub proof fn lemma_emitted_values_telescope(cs: Seq<DecodedDepositV>, start: Option<Seq<u8>>)
    requires
        forall|i: int| 0 <= i < cs.len() - 1 ==> (#[trigger] cs[i].total) < cs[i + 1].total,
        forall|i: int| 0 <= i < cs.len() ==> !matches_start(#[trigger] cs[i], start),
    ensures
        sum_deposit_values(scan_deposits(cs, start)) == if cs.len() == 0 {
            0
        } else {
            cs.last().total as int
        },
    decreases cs.len(),
{
    if cs.len() > 0 {
        let prev = cs.drop_last();
        assert(forall|i: int|
            0 <= i < prev.len() - 1 ==> (#[trigger] prev[i].total) < prev[i + 1].total) by {
            assert(forall|i: int| 0 <= i < prev.len() ==> #[trigger] prev[i] == cs[i]);
        }
        assert(forall|i: int| 0 <= i < prev.len() ==> !matches_start(#[trigger] prev[i], start));
        lemma_emitted_values_telescope(prev, start);
        assert(emits_at(cs, start, cs.len() - 1));
        let dprev = scan_deposits(prev, start);
        let d = deposit_at(cs, cs.len() - 1);
        assert(scan_deposits(cs, start) == dprev.push(d));
        assert(dprev.push(d).drop_last() =~= dprev);
        assert(dprev.push(d).last() == d);
        if prev.len() > 0 {
            assert(prev.last() == cs[cs.len() - 2]);
        }
    }
}

/// Law: a candidate whose block hash equals the `start` bound never
/// produces a deposit, whatever its total: no emitted deposit carries
/// the `start` block hash.
pub proof fn lemma_start_block_never_emits(cs: Seq<DecodedDepositV>, s: Seq<u8>)
    ensures
        forall|k: int|
            0 <= k < scan_deposits(cs, Some(s)).len() ==> (#[trigger] scan_deposits(
                cs,
                Some(s),
            )[k]).block_hash != s,
    decreases cs.len(),
{
    if cs.len() > 0 {
        lemma_start_block_never_emits(cs.drop_last(), s);
        let ds = scan_deposits(cs, Some(s));
        let dprev = scan_deposits(cs.drop_last(), Some(s));
        assert forall|k: int| 0 <= k < ds.len() implies (#[trigger] ds[k]).block_hash != s by {
            if emits_at(cs, Some(s), cs.len() - 1) {
                assert(ds == dprev.push(deposit_at(cs, cs.len() - 1)));
                if k < dprev.len() {
                    assert(ds[k] == dprev[k]);
                } else {
                    assert(ds[k].block_hash == cs[cs.len() - 1].hashblock);
                    assert(!matches_start(cs[cs.len() - 1], Some(s)));
                }
            }
        }
    }
}

/// Every emitted deposit carries the block hash of one of the
/// candidates.
pub proof fn lemma_deposit_blocks_are_candidate_blocks(
    cs: Seq<DecodedDepositV>,
    start: Option<Seq<u8>>,
)
    ensures
        forall|k: int|
            0 <= k < scan_deposits(cs, start).len() ==> exists|i: int|
                0 <= i < cs.len() && (#[trigger] scan_deposits(cs, start)[k]).block_hash
                    == cs[i].hashblock,
    decreases cs.len(),
{
    if cs.len() > 0 {
        lemma_deposit_blocks_are_candidate_blocks(cs.drop_last(), start);
        let ds = scan_deposits(cs, start);
        let prev = scan_deposits(cs.drop_last(), start);
        assert forall|k: int| 0 <= k < ds.len() implies exists|i: int|
            0 <= i < cs.len() && (#[trigger] ds[k]).block_hash == cs[i].hashblock by {
            if k < prev.len() {
                let i = choose|i: int|
                    0 <= i < cs.drop_last().len() && prev[k].block_hash == cs.drop_last()[i].hashblock;
                assert(0 <= i < cs.len() && ds[k].block_hash == cs[i].hashblock);
            } else {
                assert(ds[k].block_hash == cs[cs.len() - 1].hashblock);
            }
        }
    }
}

/// Law: a candidate whose total is less than the running total produces
/// no deposit and leaves the emitted sequence and the watermark as they
/// were, but still resets the running total to its own.
pub proof fn lemma_backward_total_skips(
    cs: Seq<DecodedDepositV>,
    start: Option<Seq<u8>>,
    i: int,
)
    requires
        0 <= i < cs.len(),
        (cs[i].total as int) < prev_total(cs, i),
    ensures
        scan_deposits(cs.take(i + 1), start) == scan_deposits(cs.take(i), start),
        scan_watermark(cs.take(i + 1), start) == scan_watermark(cs.take(i), start),
        prev_total(cs, i + 1) == cs[i].total as int,
{
    assert(cs.take(i + 1).drop_last() =~= cs.take(i));
    assert(!emits_at(cs.take(i + 1), start, i));
}

/// The watermark is the block hash of the last deposit actually
/// accepted by the scan, and absent exactly where no deposit was.
pub proof fn lemma_watermark_is_last_deposit_block(
    cs: Seq<DecodedDepositV>,
    start: Option<Seq<u8>>,
)
    ensures
        scan_deposits(cs, start).len() == 0 ==> scan_watermark(cs, start) is None,
        scan_deposits(cs, start).len() > 0 ==> scan_watermark(cs, start) == Some(
            scan_deposits(cs, start).last().block_hash,
        ),
    decreases cs.len(),
{
    if cs.len() > 0 {
        lemma_watermark_is_last_deposit_block(cs.drop_last(), start);
        if emits_at(cs, start, cs.len() - 1) {
            let dprev = scan_deposits(cs.drop_last(), start);
            let d = deposit_at(cs, cs.len() - 1);
            assert(scan_deposits(cs, start) == dprev.push(d));
            assert(dprev.push(d).last() == d);
        }
    }
}

/// Law (watermark idempotence): a scan started at the previous scan's
/// returned watermark re-emits none of the previous scan's deposits,
/// provided the two candidate lists share blocks only at the watermark —
/// which is how consecutive scan intervals overlap.
pub proof fn lemma_watermark_idempotent(
    cs1: Seq<DecodedDepositV>,
    start1: Option<Seq<u8>>,
    cs2: Seq<DecodedDepositV>,
    w: Seq<u8>,
)
    requires
        scan_watermark(cs1, start1) == Some(w),
        forall|i: int, j: int|
            0 <= i < cs1.len() && 0 <= j < cs2.len() && (#[trigger] cs1[i].hashblock)
                == (#[trigger] cs2[j].hashblock) ==> cs2[j].hashblock == w,
    ensures
        forall|k1: int, k2: int|
            0 <= k1 < scan_deposits(cs1, start1).len() && 0 <= k2 < scan_deposits(
                cs2,
                Some(w),
            ).len() ==> (#[trigger] scan_deposits(cs1, start1)[k1]) != (#[trigger] scan_deposits(
                cs2,
                Some(w),
            )[k2]),
{
    let ds1 = scan_deposits(cs1, start1);
    let ds2 = scan_deposits(cs2, Some(w));
    lemma_start_block_never_emits(cs2, w);
    lemma_deposit_blocks_are_candidate_blocks(cs1, start1);
    lemma_deposit_blocks_are_candidate_blocks(cs2, Some(w));
    assert forall|k1: int, k2: int|
        0 <= k1 < ds1.len() && 0 <= k2 < ds2.len() implies (#[trigger] ds1[k1]) != (
    #[trigger] ds2[k2]) by {
        if ds1[k1] == ds2[k2] {
            let i = choose|i: int| 0 <= i < cs1.len() && ds1[k1].block_hash == cs1[i].hashblock;
            let j = choose|j: int| 0 <= j < cs2.len() && ds2[k2].block_hash == cs2[j].hashblock;
            assert(cs1[i].hashblock == cs2[j].hashblock);
            assert(ds2[k2].block_hash == w);
        }
    }
}

} // verus!
