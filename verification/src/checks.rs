use vstd::prelude::*;
use crate::error::{ErrorCode, Failure};
use crate::key::{known_address, known_bytes, same_key, Key, KnownAddress};

verus! {

/// Minimum deposit, in USD with 8 decimals.
pub const MINIMUM_USD_DEPOSIT: u64 = 10_00000000;

/// Oldest price feed answer, in seconds, that is still trusted.
pub const MAX_PRICE_FEED_AGE: i64 = 86400;

/// SOL price, in USD with 8 decimals, used in place of a stale answer.
pub const DEFAULT_SOL_PRICE: i128 = 100_00000000;

/// The decimals of the default SOL price.
pub const DEFAULT_SOL_PRICE_DECIMALS: u32 = 8;

/// The outcome of checking a list of (provided, expected, error) triples in
/// order: the error of the first pair that differs, or success.
pub open spec fn check_all(list: Seq<(Seq<u8>, Seq<u8>, ErrorCode)>) -> Result<(), ErrorCode>
    decreases list.len(),
{
    if list.len() == 0 {
        Ok(())
    } else if list[0].0 != list[0].1 {
        Err(list[0].2)
    } else {
        check_all(list.drop_first())
    }
}

/// Succeeds when `provided` is `expected`, and fails with `error_code`
/// otherwise.
pub fn verify_address_strict(provided: &Key, expected: &Key, error_code: ErrorCode) -> (r: Result<(), ErrorCode>)
    ensures
        r == (if provided@ == expected@ { Ok::<(), ErrorCode>(()) } else { Err(error_code) }),
{
    if !same_key(provided, expected) {
        return Err(error_code);
    }
    Ok(())
}

fn verify_known(provided: &Key, which: KnownAddress, error_code: ErrorCode) -> (r: Result<(), ErrorCode>)
    ensures
        r == (if provided@ == known_bytes(which) { Ok::<(), ErrorCode>(()) } else { Err(error_code) }),
{
    verify_address_strict(provided, &known_address(which), error_code)
}

pub open spec fn chainlink_checks(chainlink_program: Seq<u8>, chainlink_feed: Seq<u8>) -> Seq<(Seq<u8>, Seq<u8>, ErrorCode)> {
    seq![
        (chainlink_program, known_bytes(KnownAddress::ChainlinkProgram), ErrorCode::InvalidChainlinkProgram),
        (chainlink_feed, known_bytes(KnownAddress::SolUsdFeed), ErrorCode::InvalidPriceFeed),
    ]
}

/// Checks the Chainlink program and the SOL/USD feed, in that order.
pub fn verify_chainlink_addresses(chainlink_program: &Key, chainlink_feed: &Key) -> (r: Result<(), ErrorCode>)
    ensures
        r == check_all(chainlink_checks(chainlink_program@, chainlink_feed@)),
{
    proof {
        reveal_with_fuel(check_all, 3);
    }
    verify_known(chainlink_program, KnownAddress::ChainlinkProgram, ErrorCode::InvalidChainlinkProgram)?;
    verify_known(chainlink_feed, KnownAddress::SolUsdFeed, ErrorCode::InvalidPriceFeed)?;
    Ok(())
}

pub open spec fn fixed_checks(
    pool: Seq<u8>,
    b_vault: Seq<u8>,
    b_token_vault: Seq<u8>,
    b_vault_lp_mint: Seq<u8>,
    b_vault_lp: Seq<u8>,
    token_mint: Seq<u8>,
    wsol_mint: Seq<u8>,
) -> Seq<(Seq<u8>, Seq<u8>, ErrorCode)> {
    seq![
        (pool, known_bytes(KnownAddress::Pool), ErrorCode::InvalidPoolAddress),
        (b_vault_lp, known_bytes(KnownAddress::BVaultLp), ErrorCode::InvalidVaultAddress),
        (b_vault, known_bytes(KnownAddress::BVault), ErrorCode::InvalidVaultAddress),
        (b_token_vault, known_bytes(KnownAddress::BTokenVault), ErrorCode::InvalidVaultAddress),
        (b_vault_lp_mint, known_bytes(KnownAddress::BVaultLpMint), ErrorCode::InvalidVaultAddress),
        (token_mint, known_bytes(KnownAddress::TokenMint), ErrorCode::InvalidTokenMintAddress),
        (wsol_mint, known_bytes(KnownAddress::WsolMint), ErrorCode::InvalidTokenMintAddress),
    ]
}

/// Checks the pool, the vault B accounts and both mints against the known
/// addresses, in the order pool, vault B LP, vault B, vault B token vault,
/// vault B LP mint, token mint, wrapped SOL mint.
pub fn verify_all_fixed_addresses(
    pool: &Key,
    b_vault: &Key,
    b_token_vault: &Key,
    b_vault_lp_mint: &Key,
    b_vault_lp: &Key,
    token_mint: &Key,
    wsol_mint: &Key,
) -> (r: Result<(), ErrorCode>)
    ensures
        r == check_all(fixed_checks(pool@, b_vault@, b_token_vault@, b_vault_lp_mint@, b_vault_lp@, token_mint@, wsol_mint@)),
{
    proof {
        reveal_with_fuel(check_all, 8);
    }
    verify_known(pool, KnownAddress::Pool, ErrorCode::InvalidPoolAddress)?;
    verify_known(b_vault_lp, KnownAddress::BVaultLp, ErrorCode::InvalidVaultAddress)?;
    verify_known(b_vault, KnownAddress::BVault, ErrorCode::InvalidVaultAddress)?;
    verify_known(b_token_vault, KnownAddress::BTokenVault, ErrorCode::InvalidVaultAddress)?;
    verify_known(b_vault_lp_mint, KnownAddress::BVaultLpMint, ErrorCode::InvalidVaultAddress)?;
    verify_known(token_mint, KnownAddress::TokenMint, ErrorCode::InvalidTokenMintAddress)?;
    verify_known(wsol_mint, KnownAddress::WsolMint, ErrorCode::InvalidTokenMintAddress)?;
    Ok(())
}

pub open spec fn vault_a_checks(a_vault: Seq<u8>, a_vault_lp: Seq<u8>, a_vault_lp_mint: Seq<u8>, a_token_vault: Seq<u8>) -> Seq<(Seq<u8>, Seq<u8>, ErrorCode)> {
    seq![
        (a_vault, known_bytes(KnownAddress::AVault), ErrorCode::InvalidVaultAddress),
        (a_vault_lp, known_bytes(KnownAddress::AVaultLp), ErrorCode::InvalidVaultAddress),
        (a_vault_lp_mint, known_bytes(KnownAddress::AVaultLpMint), ErrorCode::InvalidVaultAddress),
        (a_token_vault, known_bytes(KnownAddress::ATokenVault), ErrorCode::InvalidVaultAddress),
    ]
}

/// Checks the four vault A accounts against the known addresses.
pub fn verify_vault_a_addresses(a_vault: &Key, a_vault_lp: &Key, a_vault_lp_mint: &Key, a_token_vault: &Key) -> (r: Result<(), ErrorCode>)
    ensures
        r == check_all(vault_a_checks(a_vault@, a_vault_lp@, a_vault_lp_mint@, a_token_vault@)),
{
    proof {
        reveal_with_fuel(check_all, 5);
    }
    verify_known(a_vault, KnownAddress::AVault, ErrorCode::InvalidVaultAddress)?;
    verify_known(a_vault_lp, KnownAddress::AVaultLp, ErrorCode::InvalidVaultAddress)?;
    verify_known(a_vault_lp_mint, KnownAddress::AVaultLpMint, ErrorCode::InvalidVaultAddress)?;
    verify_known(a_token_vault, KnownAddress::ATokenVault, ErrorCode::InvalidVaultAddress)?;
    Ok(())
}

pub open spec fn program_checks(vault_program: Seq<u8>, amm_program: Seq<u8>, protocol_token_fee: Seq<u8>) -> Seq<(Seq<u8>, Seq<u8>, ErrorCode)> {
    seq![
        (vault_program, known_bytes(KnownAddress::MeteoraVaultProgram), ErrorCode::InvalidVaultProgram),
        (amm_program, known_bytes(KnownAddress::MeteoraAmmProgram), ErrorCode::InvalidAmmProgram),
        (protocol_token_fee, known_bytes(KnownAddress::ProtocolTokenBFee), ErrorCode::InvalidProtocolFeeAccount),
    ]
}

/// Checks the Meteora vault program, the AMM program and the protocol fee
/// account, in that order.
pub fn verify_program_addresses(vault_program: &Key, amm_program: &Key, protocol_token_fee: &Key) -> (r: Result<(), ErrorCode>)
    ensures
        r == check_all(program_checks(vault_program@, amm_program@, protocol_token_fee@)),
{
    proof {
        reveal_with_fuel(check_all, 4);
    }
    verify_known(vault_program, KnownAddress::MeteoraVaultProgram, ErrorCode::InvalidVaultProgram)?;
    verify_known(amm_program, KnownAddress::MeteoraAmmProgram, ErrorCode::InvalidAmmProgram)?;
    verify_known(protocol_token_fee, KnownAddress::ProtocolTokenBFee, ErrorCode::InvalidProtocolFeeAccount)?;
    Ok(())
}

/// Succeeds when the account's owner is the system program, that is, when
/// the account is a plain wallet.
pub fn verify_wallet_is_system_account(owner: &Key) -> (r: Result<(), ErrorCode>)
    ensures
        r == (if owner@ == known_bytes(KnownAddress::SystemProgram) { Ok::<(), ErrorCode>(()) } else { Err(ErrorCode::PaymentWalletInvalid) }),
{
    verify_known(owner, KnownAddress::SystemProgram, ErrorCode::PaymentWalletInvalid)
}

/// The outcome of the checks made before registering a user without a
/// referrer.
pub open spec fn spec_validate_base_registration(
    owner: Seq<u8>,
    multisig_treasury: Seq<u8>,
    pool: Seq<u8>,
    b_vault: Seq<u8>,
    b_token_vault: Seq<u8>,
    b_vault_lp_mint: Seq<u8>,
    b_vault_lp: Seq<u8>,
    token_mint: Seq<u8>,
    wsol_mint: Seq<u8>,
    vault_program: Seq<u8>,
    amm_program: Seq<u8>,
    protocol_token_fee: Seq<u8>,
) -> Result<(), ErrorCode> {
    if owner != multisig_treasury {
        Err(ErrorCode::NotAuthorized)
    } else {
        match check_all(fixed_checks(pool, b_vault, b_token_vault, b_vault_lp_mint, b_vault_lp, token_mint, wsol_mint)) {
            Err(e) => Err(e),
            Ok(()) => check_all(program_checks(vault_program, amm_program, protocol_token_fee)),
        }
    }
}

/// Checks that the signer is the treasury recorded in the state, then the
/// fixed pool and vault addresses, then the programs.
pub fn validate_base_registration(
    owner: &Key,
    multisig_treasury: &Key,
    pool: &Key,
    b_vault: &Key,
    b_token_vault: &Key,
    b_vault_lp_mint: &Key,
    b_vault_lp: &Key,
    token_mint: &Key,
    wsol_mint: &Key,
    vault_program: &Key,
    amm_program: &Key,
    protocol_token_fee: &Key,
) -> (r: Result<(), ErrorCode>)
    ensures
        r == spec_validate_base_registration(
            owner@, multisig_treasury@, pool@, b_vault@, b_token_vault@, b_vault_lp_mint@, b_vault_lp@,
            token_mint@, wsol_mint@, vault_program@, amm_program@, protocol_token_fee@,
        ),
{
    if !same_key(owner, multisig_treasury) {
        return Err(ErrorCode::NotAuthorized);
    }
    verify_all_fixed_addresses(pool, b_vault, b_token_vault, b_vault_lp_mint, b_vault_lp, token_mint, wsol_mint)?;
    verify_program_addresses(vault_program, amm_program, protocol_token_fee)
}

/// The price used for the minimum deposit, with its decimals: the feed's
/// answer with the feed's decimals, or, when the answer is more than a day
/// old, the default price with its own eight decimals.
pub open spec fn spec_effective_price(answer: i128, decimals: u32, now: i64, feed_timestamp: i64) -> (i128, u32) {
    if now - feed_timestamp > MAX_PRICE_FEED_AGE {
        (DEFAULT_SOL_PRICE, DEFAULT_SOL_PRICE_DECIMALS)
    } else {
        (answer, decimals)
    }
}

/// Chooses the SOL price for the minimum deposit, with its decimals; the
/// age of the answer must fit in 64 bits.
pub fn effective_sol_price(answer: i128, decimals: u32, now: i64, feed_timestamp: i64) -> (r: Result<(i128, u32), Failure>)
    ensures
        (i64::MIN <= now - feed_timestamp <= i64::MAX) ==> r == Ok::<(i128, u32), Failure>(
            spec_effective_price(answer, decimals, now, feed_timestamp),
        ),
        !(i64::MIN <= now - feed_timestamp <= i64::MAX) ==> r == Err::<(i128, u32), Failure>(Failure::Overflow),
{
    let age = match now.checked_sub(feed_timestamp) {
        Some(a) => a,
        None => return Err(Failure::Overflow),
    };
    if age > MAX_PRICE_FEED_AGE {
        Ok((DEFAULT_SOL_PRICE, DEFAULT_SOL_PRICE_DECIMALS))
    } else {
        Ok((answer, decimals))
    }
}

/// Fails with `InsufficientDeposit` when the deposit is below the minimum.
pub fn check_deposit(deposit_amount: u64, minimum_deposit: u64) -> (r: Result<(), ErrorCode>)
    ensures
        r == (if deposit_amount < minimum_deposit { Err(ErrorCode::InsufficientDeposit) } else { Ok::<(), ErrorCode>(()) }),
{
    if deposit_amount < minimum_deposit {
        return Err(ErrorCode::InsufficientDeposit);
    }
    Ok(())
}

} // verus!
