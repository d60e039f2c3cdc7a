//! BMM verification interpretation, the poll step, and withdrawal
//! aggregation.

use drivechain_client::bmm::{interpret_verify_bmm, next_block_poll_step, BmmNextBlockStep};
use drivechain_client::endpoint::{
    interpret_block_lookup, MainchainError, GENERIC_SERVER_ERROR_CODE, UNKNOWN_BLOCK_ERROR_CODE,
};
use drivechain_client::types::{
    Block, BlockHash, FailedWithdrawal, SidechainId, SpentWithdrawal, Txid,
    WithdrawalBundleStatus,
};
use drivechain_client::withdrawals::aggregate_withdrawals;

#[test]
fn test_verify_bmm_ok_confirms() {
    let r = interpret_verify_bmm(Ok(()));
    assert!(matches!(r, Ok(true)));
}

#[test]
fn test_verify_bmm_sentinel_denies() {
    // The exact sentinel with the generic server-error code is an
    // answer, not an error.
    let e = MainchainError::Application {
        code: GENERIC_SERVER_ERROR_CODE,
        message: String::from("h* not found in block"),
    };
    let r = interpret_verify_bmm(Err(e));
    assert!(matches!(r, Ok(false)));
}

#[test]
fn test_verify_bmm_other_message_propagates() {
    let e = MainchainError::Application {
        code: GENERIC_SERVER_ERROR_CODE,
        message: String::from("some other failure"),
    };
    let r = interpret_verify_bmm(Err(e));
    assert!(matches!(r, Err(MainchainError::Application { .. })));
}

#[test]
fn test_verify_bmm_other_code_propagates() {
    let e = MainchainError::Application {
        code: -32601,
        message: String::from("h* not found in block"),
    };
    let r = interpret_verify_bmm(Err(e));
    assert!(matches!(r, Err(MainchainError::Application { code: -32601, .. })));
}

#[test]
fn test_verify_bmm_transport_propagates() {
    let e = MainchainError::Transport { message: String::from("connection refused") };
    let r = interpret_verify_bmm(Err(e));
    assert!(matches!(r, Err(MainchainError::Transport { .. })));
}

#[test]
fn test_block_lookup_ok_passes_through() {
    let r = interpret_block_lookup(Ok(7u32), BlockHash(vec![0x11; 32]));
    assert!(matches!(r, Ok(Ok(7))));
}

#[test]
fn test_block_lookup_not_found_is_typed_absence() {
    let e = MainchainError::Application {
        code: UNKNOWN_BLOCK_ERROR_CODE,
        message: String::from("Block not found"),
    };
    let r = interpret_block_lookup(Err::<u32, _>(e), BlockHash(vec![0x11; 32]));
    match r {
        Ok(Err(absent)) => assert_eq!(absent.block_hash.0, vec![0x11; 32]),
        _ => panic!("expected the typed absence"),
    }
}

#[test]
fn test_block_lookup_other_error_propagates() {
    let e = MainchainError::Application {
        code: UNKNOWN_BLOCK_ERROR_CODE,
        message: String::from("Block pruned"),
    };
    let r = interpret_block_lookup(Err::<u32, _>(e), BlockHash(vec![0x11; 32]));
    assert!(matches!(r, Err(MainchainError::Application { .. })));
}

fn block_with_successor(next: Option<BlockHash>) -> Block {
    Block {
        hash: BlockHash(vec![0x44; 32]),
        confirmations: 1,
        strippedsize: 200,
        size: 200,
        weight: 800,
        height: 10,
        version: 2,
        version_hex: String::from("00000002"),
        merkleroot: vec![0x55; 32],
        tx: vec![Txid(vec![0x66; 32])],
        time: 1700000000,
        mediantime: 1700000000,
        nonce: 42,
        bits: String::from("207fffff"),
        chainwork: String::from("00"),
        previousblockhash: Some(BlockHash(vec![0x33; 32])),
        nextblockhash: next,
    }
}

#[test]
fn test_poll_step_retries_without_successor() {
    let block = block_with_successor(None);
    let step = next_block_poll_step(&block);
    assert!(matches!(step, BmmNextBlockStep::Retry));
}

#[test]
fn test_poll_step_stops_on_successor() {
    let block = block_with_successor(Some(BlockHash(vec![0x77; 32])));
    let step = next_block_poll_step(&block);
    match step {
        BmmNextBlockStep::VerifyAgainst { main_hash } => {
            assert_eq!(main_hash.0, vec![0x77; 32]);
        },
        BmmNextBlockStep::Retry => panic!("expected a successor"),
    }
}

#[test]
fn test_withdrawal_aggregation() {
    // Spent [(A, sidechain 1), (B, sidechain 2)] and failed [(C,
    // sidechain 1)], aggregated for sidechain 1: exactly [(A,
    // Confirmed), (C, Failed)], order preserved, B excluded.
    let spent = vec![
        SpentWithdrawal {
            nsidechain: 1,
            hash: Txid(vec![0xaa; 32]),
            hashblock: BlockHash(vec![0x11; 32]),
        },
        SpentWithdrawal {
            nsidechain: 2,
            hash: Txid(vec![0xbb; 32]),
            hashblock: BlockHash(vec![0x22; 32]),
        },
    ];
    let failed = vec![FailedWithdrawal { nsidechain: 1, hash: Txid(vec![0xcc; 32]) }];
    let statuses = aggregate_withdrawals(&spent, &failed, SidechainId(1));
    assert_eq!(statuses.len(), 2);
    assert_eq!(statuses[0].0 .0, vec![0xaa; 32]);
    assert!(matches!(statuses[0].1, WithdrawalBundleStatus::Confirmed));
    assert_eq!(statuses[1].0 .0, vec![0xcc; 32]);
    assert!(matches!(statuses[1].1, WithdrawalBundleStatus::Failed));
}

#[test]
fn test_withdrawal_aggregation_keeps_duplicates() {
    // A txid on both lists appears twice: nothing is deduplicated.
    let spent = vec![SpentWithdrawal {
        nsidechain: 1,
        hash: Txid(vec![0xaa; 32]),
        hashblock: BlockHash(vec![0x11; 32]),
    }];
    let failed = vec![FailedWithdrawal { nsidechain: 1, hash: Txid(vec![0xaa; 32]) }];
    let statuses = aggregate_withdrawals(&spent, &failed, SidechainId(1));
    assert_eq!(statuses.len(), 2);
    assert_eq!(statuses[0].0 .0, statuses[1].0 .0);
}
