use vstd::prelude::*;
use vstd::bytes::spec_u64_from_le_bytes;
use crate::codec::u64_at;
use crate::error::ErrorCode;
use crate::key::{key_at, known_address, known_bytes, same_key, Key, KnownAddress};
use crate::state::AccountSnapshot;

verus! {

/// Length of a token account's data.
pub const TOKEN_ACCOUNT_LEN: usize = 165;

/// The balance that a token account holds for `wallet` in `mint`: zero for
/// an account that is empty, unfunded, too short or not a token account;
/// an error when it is a token account of another mint or another owner.
pub open spec fn spec_token_balance(lamports: u64, owner: Seq<u8>, data: Seq<u8>, mint: Seq<u8>, wallet: Seq<u8>) -> Result<u64, ErrorCode> {
    if data.len() == 0 || lamports == 0 {
        Ok(0)
    } else if data.len() < TOKEN_ACCOUNT_LEN {
        Ok(0)
    } else if owner != known_bytes(KnownAddress::TokenProgram) {
        Ok(0)
    } else if data.subrange(0, 32) != mint {
        Err(ErrorCode::InvalidTokenMint)
    } else if data.subrange(32, 64) != wallet {
        Err(ErrorCode::InvalidTokenOwner)
    } else {
        Ok(spec_u64_from_le_bytes(data.subrange(64, 72)))
    }
}

/// Reads the balance of a token account that should belong to
/// `expected_owner` and hold `expected_mint`.
pub fn read_and_validate_token_account(account: &AccountSnapshot, expected_mint: &Key, expected_owner: &Key) -> (r: Result<u64, ErrorCode>)
    ensures
        r == spec_token_balance(account.lamports, account.owner@, account.data@, expected_mint@, expected_owner@),
{
    let data = account.data.as_slice();
    if data.len() == 0 || account.lamports == 0 {
        return Ok(0);
    }
    if data.len() < TOKEN_ACCOUNT_LEN {
        return Ok(0);
    }
    if !same_key(&account.owner, &known_address(KnownAddress::TokenProgram)) {
        return Ok(0);
    }
    let mint = key_at(data, 0);
    if !same_key(&mint, expected_mint) {
        return Err(ErrorCode::InvalidTokenMint);
    }
    let owner = key_at(data, 32);
    if !same_key(&owner, expected_owner) {
        return Err(ErrorCode::InvalidTokenOwner);
    }
    Ok(u64_at(data, 64))
}

/// The DONUT that a swap delivered: the growth of the balance, which must
/// be positive.
pub fn swap_received(balance_before: u64, balance_after: u64) -> (r: Result<u64, ErrorCode>)
    ensures
        balance_after > balance_before ==> r == Ok::<u64, ErrorCode>((balance_after - balance_before) as u64),
        balance_after <= balance_before ==> r == Err::<u64, ErrorCode>(ErrorCode::SwapFailed),
{
    let received = balance_after.saturating_sub(balance_before);
    if received == 0 {
        return Err(ErrorCode::SwapFailed);
    }
    Ok(received)
}

} // verus!
