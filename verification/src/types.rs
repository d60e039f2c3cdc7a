//! Data model of the peg: hashes, identifiers, the shapes the mainchain
//! node reports, and the records the peg produces.
//!
//! Hashes are held as their raw bytes in internal (little-endian) order, so
//! that every field the logic reads is a plain value.

use vstd::prelude::*;

verus! {

/// A mainchain block hash, as raw bytes in internal order.
#[derive(Debug)]
pub struct BlockHash(pub Vec<u8>);

impl View for BlockHash {
    type V = Seq<u8>;

    open spec fn view(&self) -> Seq<u8> {
        self.0@
    }
}

impl PartialEq for BlockHash {
    fn eq(&self, other: &Self) -> (r: bool) {
        let r = self.0 == other.0;
        proof {
            if r {
                assert(self@ =~= other@);
            }
        }
        r
    }
}

impl vstd::std_specs::cmp::PartialEqSpecImpl for BlockHash {
    open spec fn obeys_eq_spec() -> bool {
        true
    }

    open spec fn eq_spec(&self, other: &Self) -> bool {
        self@ == other@
    }
}

impl BlockHash {
    /// A copy holding the same bytes.
    pub fn duplicate(&self) -> (r: BlockHash)
        ensures
            r@ == self@,
    {
        let bytes = self.0.clone();
        proof {
            assert(bytes@ =~= self.0@);
        }
        BlockHash(bytes)
    }
}

/// A mainchain transaction id, as raw bytes in internal order.
#[derive(Debug)]
pub struct Txid(pub Vec<u8>);

impl View for Txid {
    type V = Seq<u8>;

    open spec fn view(&self) -> Seq<u8> {
        self.0@
    }
}

impl PartialEq for Txid {
    fn eq(&self, other: &Self) -> (r: bool) {
        let r = self.0 == other.0;
        proof {
            if r {
                assert(self@ =~= other@);
            }
        }
        r
    }
}

impl vstd::std_specs::cmp::PartialEqSpecImpl for Txid {
    open spec fn obeys_eq_spec() -> bool {
        true
    }

    open spec fn eq_spec(&self, other: &Self) -> bool {
        self@ == other@
    }
}

impl Txid {
    /// A copy holding the same bytes.
    pub fn duplicate(&self) -> (r: Txid)
        ensures
            r@ == self@,
    {
        let bytes = self.0.clone();
        proof {
            assert(bytes@ =~= self.0@);
        }
        Txid(bytes)
    }
}

/// Identifier of a sidechain known to the mainchain node.
#[derive(Clone, Copy, Debug, Eq, PartialEq, Structural)]
pub struct SidechainId(pub u8);

/// A vote on a pending sidechain proposal.
#[derive(Clone, Copy, Debug, Eq, PartialEq, Structural)]
pub enum Vote {
    Upvote,
    Abstain,
    Downvote,
}

/// A block header as the mainchain node reports it.
#[derive(Debug)]
pub struct Header {
    pub hash: BlockHash,
    pub height: u32,
    pub version: i32,
    /// All zeroes for the genesis block.
    pub prev_blockhash: BlockHash,
    pub merkle_root: Vec<u8>,
    pub time: u32,
    /// Difficulty target in compact form.
    pub bits: u32,
    pub nonce: u32,
}

/// A block as the mainchain node reports it, with the successor hash the
/// poll loop reads.
#[derive(Debug)]
pub struct Block {
    pub hash: BlockHash,
    pub confirmations: usize,
    pub strippedsize: usize,
    pub size: usize,
    pub weight: usize,
    pub height: usize,
    pub version: i32,
    pub version_hex: String,
    pub merkleroot: Vec<u8>,
    pub tx: Vec<Txid>,
    pub time: u32,
    pub mediantime: u32,
    pub nonce: u32,
    pub bits: String,
    pub chainwork: String,
    pub previousblockhash: Option<BlockHash>,
    pub nextblockhash: Option<BlockHash>,
}

/// A deposit candidate as returned by the mainchain node for a block
/// range: the burn output's value is the cumulative total ever burned to
/// the sidechain, not an increment.
#[derive(Debug)]
pub struct Deposit {
    pub hashblock: BlockHash,
    pub nburnindex: usize,
    pub ntx: usize,
    pub strdest: String,
    pub txhex: String,
}

/// Ghost image of a `Deposit` candidate.
pub ghost struct DepositV {
    pub hashblock: Seq<u8>,
    pub nburnindex: int,
    pub ntx: int,
    pub strdest: Seq<char>,
    pub txhex: Seq<char>,
}

impl View for Deposit {
    type V = DepositV;

    open spec fn view(&self) -> DepositV {
        DepositV {
            hashblock: self.hashblock@,
            nburnindex: self.nburnindex as int,
            ntx: self.ntx as int,
            strdest: self.strdest@,
            txhex: self.txhex@,
        }
    }
}

/// The mainchain output a deposit credits from.
#[derive(Debug)]
pub struct OutPoint {
    pub txid: Txid,
    pub vout: usize,
}

/// Destination and satoshi amount of one deposit.
#[derive(Debug)]
pub struct Output {
    pub address: String,
    pub value: u64,
}

/// One value-attributed deposit, as reconstructed from consecutive burn
/// totals.
#[derive(Debug)]
pub struct DepositInfo {
    pub block_hash: BlockHash,
    pub tx_index: usize,
    pub outpoint: OutPoint,
    pub output: Output,
}

/// Ghost image of a `DepositInfo`.
pub ghost struct DepositInfoV {
    pub block_hash: Seq<u8>,
    pub tx_index: int,
    pub txid: Seq<u8>,
    pub vout: int,
    pub address: Seq<char>,
    pub value: u64,
}

impl View for DepositInfo {
    type V = DepositInfoV;

    open spec fn view(&self) -> DepositInfoV {
        DepositInfoV {
            block_hash: self.block_hash@,
            tx_index: self.tx_index as int,
            txid: self.outpoint.txid@,
            vout: self.outpoint.vout as int,
            address: self.output.address@,
            value: self.output.value,
        }
    }
}

/// Terminal outcome of a previously broadcast withdrawal bundle.
#[derive(Clone, Copy, Debug, Eq, PartialEq, Structural)]
pub enum WithdrawalBundleStatus {
    Failed,
    Confirmed,
}

/// Progress of a pending withdrawal bundle, as the node reports it.
#[derive(Debug)]
pub struct WithdrawalStatus {
    pub hash: Txid,
    pub nblocksleft: usize,
    pub nworkscore: usize,
}

/// A withdrawal bundle the node saw spent on the mainchain.
#[derive(Debug)]
pub struct SpentWithdrawal {
    pub nsidechain: u8,
    pub hash: Txid,
    pub hashblock: BlockHash,
}

/// Ghost image of a `SpentWithdrawal`.
pub ghost struct SpentWithdrawalV {
    pub nsidechain: u8,
    pub hash: Seq<u8>,
    pub hashblock: Seq<u8>,
}

impl View for SpentWithdrawal {
    type V = SpentWithdrawalV;

    open spec fn view(&self) -> SpentWithdrawalV {
        SpentWithdrawalV {
            nsidechain: self.nsidechain,
            hash: self.hash@,
            hashblock: self.hashblock@,
        }
    }
}

/// A withdrawal bundle the node saw fail.
#[derive(Debug)]
pub struct FailedWithdrawal {
    pub nsidechain: u8,
    pub hash: Txid,
}

/// Ghost image of a `FailedWithdrawal`.
pub ghost struct FailedWithdrawalV {
    pub nsidechain: u8,
    pub hash: Seq<u8>,
}

impl View for FailedWithdrawal {
    type V = FailedWithdrawalV;

    open spec fn view(&self) -> FailedWithdrawalV {
        FailedWithdrawalV { nsidechain: self.nsidechain, hash: self.hash@ }
    }
}

/// One point-in-time snapshot of everything the peg needs to apply to
/// sidechain state for a scan interval.
#[derive(Debug)]
pub struct TwoWayPegData {
    pub deposits: Vec<DepositInfo>,
    /// New watermark: block hash of the last deposit accepted in this
    /// scan, absent if none were.
    pub deposit_block_hash: Option<BlockHash>,
    pub bundle_statuses: Vec<(Txid, WithdrawalBundleStatus)>,
}

/// Array item returned by the block commitments listing.
#[derive(Debug)]
pub enum BlockCommitment {
    BmmHStar { commitment: [u8; 32], sidechain_id: SidechainId, prev_bytes: [u8; 4] },
    ScdbUpdateBytes { script: String },
    SidechainActivationAck { commitment: [u8; 32] },
    SidechainProposal,
    WithdrawalBundleHash { commitment: [u8; 32], sidechain_id: SidechainId },
    WitnessCommitment { script: String },
}

/// A block template as the mainchain node offers it.
#[derive(Debug)]
pub struct BlockTemplate {
    pub prev_blockhash: BlockHash,
    /// Difficulty target in compact form.
    pub target: u32,
    pub height: u32,
}

/// Description of a sidechain, proposed or active.
#[derive(Debug)]
pub struct SidechainInfo {
    pub name: String,
    pub version: i32,
    pub description: String,
    pub hash_id_1: Vec<u8>,
    pub hash_id_2: Vec<u8>,
}

/// A proposed sidechain together with its requested slot.
#[derive(Debug)]
pub struct SidechainProposal {
    pub sidechain_id: SidechainId,
    pub info: SidechainInfo,
}

/// Ack progress of a pending sidechain proposal.
#[derive(Debug)]
pub struct SidechainActivationStatus {
    pub name: String,
    pub description: String,
    pub age: u32,
    pub fail: u32,
}

/// Ghost image of an `Option<BlockHash>`.
pub open spec fn opt_hash_view(o: Option<BlockHash>) -> Option<Seq<u8>> {
    match o {
        Some(h) => Some(h@),
        None => None,
    }
}

} // verus!
