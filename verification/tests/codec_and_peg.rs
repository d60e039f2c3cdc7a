//! Hex decoding, the authorization header, and the assembled snapshot.

use drivechain_client::auth::auth_header_value;
use drivechain_client::hex_codec::decode_reverse_hex;
use drivechain_client::peg::two_way_peg_data;
use drivechain_client::types::{
    BlockHash, Deposit, FailedWithdrawal, SidechainId, SpentWithdrawal, Txid,
    WithdrawalBundleStatus,
};
use drivechain_client::Error;

#[test]
fn test_decode_reverse_hex() {
    let r = decode_reverse_hex("0102ff").unwrap();
    assert_eq!(r, vec![0xff, 0x02, 0x01]);
}

#[test]
fn test_decode_reverse_hex_mixed_case() {
    let r = decode_reverse_hex("aAbB").unwrap();
    assert_eq!(r, vec![0xbb, 0xaa]);
}

#[test]
fn test_decode_reverse_hex_empty() {
    let r = decode_reverse_hex("").unwrap();
    assert_eq!(r, Vec::<u8>::new());
}

#[test]
fn test_decode_reverse_hex_odd_length_fails() {
    assert!(matches!(decode_reverse_hex("abc"), Err(Error::Hex)));
}

#[test]
fn test_decode_reverse_hex_bad_digit_fails() {
    assert!(matches!(decode_reverse_hex("0g"), Err(Error::Hex)));
}

#[test]
fn test_auth_header_value() {
    assert_eq!(auth_header_value("user", "pass"), "Basic dXNlcjpwYXNz");
}

#[test]
fn test_auth_header_value_empty_credentials() {
    // ":" alone encodes to "Og==".
    assert_eq!(auth_header_value("", ""), "Basic Og==");
}

#[test]
fn test_two_way_peg_data_snapshot() {
    let mut txhex = String::from("0100000001");
    txhex.push_str(&"00".repeat(32));
    txhex.push_str("ffffffff00ffffffff01");
    txhex.push_str("6400000000000000");
    txhex.push_str("00");
    txhex.push_str("00000000");
    let candidates = vec![Deposit {
        hashblock: BlockHash(vec![0x11; 32]),
        nburnindex: 0,
        ntx: 0,
        strdest: String::from("dest"),
        txhex,
    }];
    let spent = vec![SpentWithdrawal {
        nsidechain: 5,
        hash: Txid(vec![0xaa; 32]),
        hashblock: BlockHash(vec![0x22; 32]),
    }];
    let failed = vec![FailedWithdrawal { nsidechain: 5, hash: Txid(vec![0xbb; 32]) }];
    let snapshot =
        two_way_peg_data(&candidates, &None, &spent, &failed, SidechainId(5)).unwrap();
    assert_eq!(snapshot.deposits.len(), 1);
    assert_eq!(snapshot.deposits[0].output.value, 100);
    assert_eq!(snapshot.deposit_block_hash.unwrap().0, vec![0x11; 32]);
    assert_eq!(snapshot.bundle_statuses.len(), 2);
    assert!(matches!(snapshot.bundle_statuses[0].1, WithdrawalBundleStatus::Confirmed));
    assert!(matches!(snapshot.bundle_statuses[1].1, WithdrawalBundleStatus::Failed));
}

#[test]
fn test_two_way_peg_data_no_deposits_no_watermark() {
    let snapshot =
        two_way_peg_data(&Vec::new(), &None, &Vec::new(), &Vec::new(), SidechainId(5)).unwrap();
    assert!(snapshot.deposits.is_empty());
    assert!(snapshot.deposit_block_hash.is_none());
    assert!(snapshot.bundle_statuses.is_empty());
}
