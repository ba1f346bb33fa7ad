use matrix_system::codec::{decode_user_account, encode_user_account, i64_at, u64_at};
use matrix_system::key::Key;
use matrix_system::state::{ReferralChain, ReferralUpline, UplineEntry, UserAccount};

fn key(n: u8) -> Key {
    Key { bytes: [n; 32] }
}

fn sample() -> UserAccount {
    UserAccount {
        is_registered: true,
        referrer: Some(key(2)),
        owner_wallet: key(3),
        upline: ReferralUpline {
            id: 0x01020304,
            depth: 2,
            upline: vec![UplineEntry { pda: key(4), wallet: key(5) }],
        },
        chain: ReferralChain { id: 9, slots: [Some(key(6)), None, None], filled_slots: 1 },
        reserved_sol: 0x1122334455667788,
    }
}

#[test]
fn user_account_layout() {
    let bytes = encode_user_account(&sample());
    let mut expected: Vec<u8> = vec![1, 1];
    expected.extend_from_slice(&[2u8; 32]);
    expected.extend_from_slice(&[3u8; 32]);
    expected.extend_from_slice(&[4, 3, 2, 1]);
    expected.push(2);
    expected.extend_from_slice(&[1, 0, 0, 0]);
    expected.extend_from_slice(&[4u8; 32]);
    expected.extend_from_slice(&[5u8; 32]);
    expected.extend_from_slice(&[9, 0, 0, 0]);
    expected.push(1);
    expected.extend_from_slice(&[6u8; 32]);
    expected.push(0);
    expected.push(0);
    expected.push(1);
    expected.extend_from_slice(&[0x88, 0x77, 0x66, 0x55, 0x44, 0x33, 0x22, 0x11]);
    assert_eq!(bytes, expected);
}

#[test]
fn decode_reads_back_what_encode_wrote() {
    let u = sample();
    let mut bytes = encode_user_account(&u);
    bytes.extend_from_slice(&[0xAA; 17]);
    let d = decode_user_account(&bytes).unwrap();
    assert_eq!(d.is_registered, u.is_registered);
    assert_eq!(d.referrer, u.referrer);
    assert_eq!(d.owner_wallet, u.owner_wallet);
    assert_eq!(d.upline.id, u.upline.id);
    assert_eq!(d.upline.depth, u.upline.depth);
    assert_eq!(d.upline.upline.len(), 1);
    assert_eq!(d.upline.upline[0].pda, key(4));
    assert_eq!(d.upline.upline[0].wallet, key(5));
    assert_eq!(d.chain.id, 9);
    assert_eq!(d.chain.slots, [Some(key(6)), None, None]);
    assert_eq!(d.chain.filled_slots, 1);
    assert_eq!(d.reserved_sol, 0x1122334455667788);
}

#[test]
fn decode_refuses_truncated_or_malformed_data() {
    let bytes = encode_user_account(&sample());
    assert!(decode_user_account(&bytes[..bytes.len() - 1]).is_none());
    assert!(decode_user_account(&[]).is_none());
    let mut bad_bool = bytes.clone();
    bad_bool[0] = 2;
    assert!(decode_user_account(&bad_bool).is_none());
    let mut bad_option = bytes.clone();
    bad_option[1] = 7;
    assert!(decode_user_account(&bad_option).is_none());
}

#[test]
fn little_endian_readers() {
    let mut data = vec![0u8; 20];
    data[4..12].copy_from_slice(&(-5i64).to_le_bytes());
    data[12..20].copy_from_slice(&123456789u64.to_le_bytes());
    assert_eq!(i64_at(&data, 4), -5);
    assert_eq!(u64_at(&data, 12), 123456789);
    data[4..12].copy_from_slice(&i64::MIN.to_le_bytes());
    assert_eq!(i64_at(&data, 4), i64::MIN);
}
