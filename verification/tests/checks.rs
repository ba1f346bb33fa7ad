use matrix_system::checks::{
    check_deposit, effective_sol_price, validate_base_registration, verify_address_strict, verify_all_fixed_addresses,
    verify_chainlink_addresses, verify_program_addresses, verify_vault_a_addresses, verify_wallet_is_system_account,
    DEFAULT_SOL_PRICE, DEFAULT_SOL_PRICE_DECIMALS, MAX_PRICE_FEED_AGE, MINIMUM_USD_DEPOSIT,
};
use matrix_system::error::{ErrorCode, Failure};
use matrix_system::key::{known_address, Key, KnownAddress};

fn k(which: KnownAddress) -> Key {
    known_address(which)
}

fn other() -> Key {
    Key { bytes: [9u8; 32] }
}

#[test]
fn constants_have_their_values() {
    assert_eq!(MINIMUM_USD_DEPOSIT, 1_000_000_000);
    assert_eq!(MAX_PRICE_FEED_AGE, 86_400);
    assert_eq!(DEFAULT_SOL_PRICE, 10_000_000_000);
}

#[test]
fn strict_check_reports_the_given_error() {
    let a = other();
    assert_eq!(verify_address_strict(&a, &a, ErrorCode::InvalidPoolAddress), Ok(()));
    assert_eq!(
        verify_address_strict(&a, &k(KnownAddress::Pool), ErrorCode::InvalidAmmProgram),
        Err(ErrorCode::InvalidAmmProgram)
    );
}

#[test]
fn chainlink_program_is_checked_before_feed() {
    let p = k(KnownAddress::ChainlinkProgram);
    let f = k(KnownAddress::SolUsdFeed);
    assert_eq!(verify_chainlink_addresses(&p, &f), Ok(()));
    assert_eq!(verify_chainlink_addresses(&other(), &other()), Err(ErrorCode::InvalidChainlinkProgram));
    assert_eq!(verify_chainlink_addresses(&p, &other()), Err(ErrorCode::InvalidPriceFeed));
}

#[test]
fn fixed_addresses_are_checked_in_order() {
    let pool = k(KnownAddress::Pool);
    let bv = k(KnownAddress::BVault);
    let btv = k(KnownAddress::BTokenVault);
    let blm = k(KnownAddress::BVaultLpMint);
    let bl = k(KnownAddress::BVaultLp);
    let tm = k(KnownAddress::TokenMint);
    let wm = k(KnownAddress::WsolMint);
    let x = other();
    assert_eq!(verify_all_fixed_addresses(&pool, &bv, &btv, &blm, &bl, &tm, &wm), Ok(()));
    assert_eq!(verify_all_fixed_addresses(&x, &x, &x, &x, &x, &x, &x), Err(ErrorCode::InvalidPoolAddress));
    assert_eq!(verify_all_fixed_addresses(&pool, &bv, &btv, &blm, &bl, &x, &wm), Err(ErrorCode::InvalidTokenMintAddress));
    assert_eq!(verify_all_fixed_addresses(&pool, &bv, &btv, &blm, &bl, &tm, &x), Err(ErrorCode::InvalidTokenMintAddress));
    assert_eq!(verify_all_fixed_addresses(&pool, &x, &btv, &blm, &bl, &tm, &wm), Err(ErrorCode::InvalidVaultAddress));
    // The LP account of vault B is checked before vault B itself.
    assert_eq!(verify_all_fixed_addresses(&pool, &bv, &btv, &blm, &x, &x, &wm), Err(ErrorCode::InvalidVaultAddress));
}

#[test]
fn vault_a_addresses_must_all_match() {
    let a = k(KnownAddress::AVault);
    let l = k(KnownAddress::AVaultLp);
    let m = k(KnownAddress::AVaultLpMint);
    let t = k(KnownAddress::ATokenVault);
    assert_eq!(verify_vault_a_addresses(&a, &l, &m, &t), Ok(()));
    assert_eq!(verify_vault_a_addresses(&a, &l, &m, &other()), Err(ErrorCode::InvalidVaultAddress));
    assert_eq!(verify_vault_a_addresses(&l, &a, &m, &t), Err(ErrorCode::InvalidVaultAddress));
}

#[test]
fn program_addresses_each_have_their_error() {
    let vp = k(KnownAddress::MeteoraVaultProgram);
    let amm = k(KnownAddress::MeteoraAmmProgram);
    let fee = k(KnownAddress::ProtocolTokenBFee);
    assert_eq!(verify_program_addresses(&vp, &amm, &fee), Ok(()));
    assert_eq!(verify_program_addresses(&other(), &amm, &fee), Err(ErrorCode::InvalidVaultProgram));
    assert_eq!(verify_program_addresses(&vp, &other(), &fee), Err(ErrorCode::InvalidAmmProgram));
    assert_eq!(verify_program_addresses(&vp, &amm, &other()), Err(ErrorCode::InvalidProtocolFeeAccount));
}

#[test]
fn only_system_owned_wallets_are_paid() {
    assert_eq!(verify_wallet_is_system_account(&k(KnownAddress::SystemProgram)), Ok(()));
    assert_eq!(verify_wallet_is_system_account(&k(KnownAddress::TokenProgram)), Err(ErrorCode::PaymentWalletInvalid));
}

#[test]
fn base_registration_needs_the_treasury_first() {
    let treasury = k(KnownAddress::MultisigTreasury);
    let x = other();
    let ok = validate_base_registration(
        &treasury,
        &treasury,
        &k(KnownAddress::Pool),
        &k(KnownAddress::BVault),
        &k(KnownAddress::BTokenVault),
        &k(KnownAddress::BVaultLpMint),
        &k(KnownAddress::BVaultLp),
        &k(KnownAddress::TokenMint),
        &k(KnownAddress::WsolMint),
        &k(KnownAddress::MeteoraVaultProgram),
        &k(KnownAddress::MeteoraAmmProgram),
        &k(KnownAddress::ProtocolTokenBFee),
    );
    assert_eq!(ok, Ok(()));
    let not_owner = validate_base_registration(&x, &treasury, &x, &x, &x, &x, &x, &x, &x, &x, &x, &x);
    assert_eq!(not_owner, Err(ErrorCode::NotAuthorized));
    let bad_pool = validate_base_registration(&treasury, &treasury, &x, &x, &x, &x, &x, &x, &x, &x, &x, &x);
    assert_eq!(bad_pool, Err(ErrorCode::InvalidPoolAddress));
    let bad_amm = validate_base_registration(
        &treasury,
        &treasury,
        &k(KnownAddress::Pool),
        &k(KnownAddress::BVault),
        &k(KnownAddress::BTokenVault),
        &k(KnownAddress::BVaultLpMint),
        &k(KnownAddress::BVaultLp),
        &k(KnownAddress::TokenMint),
        &k(KnownAddress::WsolMint),
        &k(KnownAddress::MeteoraVaultProgram),
        &x,
        &k(KnownAddress::ProtocolTokenBFee),
    );
    assert_eq!(bad_amm, Err(ErrorCode::InvalidAmmProgram));
}

#[test]
fn stale_price_falls_back_to_default() {
    let answer: i128 = 150_00000000;
    assert_eq!(effective_sol_price(answer, 6, 1_000_000, 1_000_000 - 86_400), Ok((answer, 6)));
    assert_eq!(effective_sol_price(answer, 6, 1_000_000, 1_000_000 - 86_401), Ok((DEFAULT_SOL_PRICE, 8)));
    assert_eq!(DEFAULT_SOL_PRICE_DECIMALS, 8);
    // A feed time after the clock counts as fresh.
    assert_eq!(effective_sol_price(answer, 8, 1_000, 5_000), Ok((answer, 8)));
    assert_eq!(effective_sol_price(answer, 8, i64::MAX, -1), Err(Failure::Overflow));
}

#[test]
fn deposit_must_reach_minimum() {
    assert_eq!(check_deposit(100, 100), Ok(()));
    assert_eq!(check_deposit(99, 100), Err(ErrorCode::InsufficientDeposit));
}
