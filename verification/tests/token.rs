use matrix_system::error::ErrorCode;
use matrix_system::key::{known_address, Key, KnownAddress};
use matrix_system::state::AccountSnapshot;
use matrix_system::token::{read_and_validate_token_account, swap_received, TOKEN_ACCOUNT_LEN};

fn key(n: u8) -> Key {
    Key { bytes: [n; 32] }
}

fn token_account(mint: Key, owner: Key, amount: u64) -> Vec<u8> {
    let mut d = vec![0u8; TOKEN_ACCOUNT_LEN];
    d[0..32].copy_from_slice(&mint.bytes);
    d[32..64].copy_from_slice(&owner.bytes);
    d[64..72].copy_from_slice(&amount.to_le_bytes());
    d
}

#[test]
fn token_balance_is_read_from_a_valid_account() {
    let tp = known_address(KnownAddress::TokenProgram);
    let a = AccountSnapshot { key: key(1), owner: tp, lamports: 5, data: token_account(key(2), key(3), 777) };
    assert_eq!(read_and_validate_token_account(&a, &key(2), &key(3)), Ok(777));
    assert_eq!(read_and_validate_token_account(&a, &key(4), &key(3)), Err(ErrorCode::InvalidTokenMint));
    assert_eq!(read_and_validate_token_account(&a, &key(2), &key(4)), Err(ErrorCode::InvalidTokenOwner));
}

#[test]
fn missing_or_foreign_token_accounts_count_as_empty() {
    let tp = known_address(KnownAddress::TokenProgram);
    let unfunded = AccountSnapshot { key: key(1), owner: tp, lamports: 0, data: token_account(key(2), key(3), 777) };
    assert_eq!(read_and_validate_token_account(&unfunded, &key(2), &key(3)), Ok(0));
    let empty = AccountSnapshot { key: key(1), owner: tp, lamports: 5, data: vec![] };
    assert_eq!(read_and_validate_token_account(&empty, &key(2), &key(3)), Ok(0));
    let short = AccountSnapshot { key: key(1), owner: tp, lamports: 5, data: vec![1u8; 164] };
    assert_eq!(read_and_validate_token_account(&short, &key(2), &key(3)), Ok(0));
    let foreign = AccountSnapshot { key: key(1), owner: key(8), lamports: 5, data: token_account(key(2), key(3), 777) };
    assert_eq!(read_and_validate_token_account(&foreign, &key(9), &key(9)), Ok(0));
}

#[test]
fn swap_must_deliver_something() {
    assert_eq!(swap_received(10, 25), Ok(15));
    assert_eq!(swap_received(10, 10), Err(ErrorCode::SwapFailed));
    assert_eq!(swap_received(10, 3), Err(ErrorCode::SwapFailed));
}
