use matrix_system::admin::{initialize, Initialize, MatrixCompletion};
use matrix_system::base::{register_without_referrer, RegisterWithoutReferrerDeposit};
use matrix_system::codec::{decode_user_account, encode_user_account};
use matrix_system::deposit::RegisterWithSolDeposit;
use matrix_system::deposit_exec::register_with_sol_deposit;
use matrix_system::effects::{AccountRef, Effect};
use matrix_system::error::{ErrorCode, Failure};
use matrix_system::flow::{Event, Request};
use matrix_system::key::{known_address, Key, KnownAddress};
use matrix_system::matrix::initialize_base_user_data;
use matrix_system::state::{AccountSnapshot, ProgramState, UplineEntry, UserAccount};
use matrix_system::token::TOKEN_ACCOUNT_LEN;

fn key(n: u8) -> Key {
    Key { bytes: [n; 32] }
}

fn kn(which: KnownAddress) -> Key {
    known_address(which)
}

const USER_WALLET: u8 = 1;
const USER: u8 = 2;
const WSOL: u8 = 3;
const DONUT: u8 = 4;
const REFERRER: u8 = 5;
const REFERRER_WALLET: u8 = 6;
const VAULT: u8 = 7;

fn program_state(active: bool) -> ProgramState {
    ProgramState {
        owner: kn(KnownAddress::AuthorizedInitializer),
        multisig_treasury: kn(KnownAddress::MultisigTreasury),
        next_upline_id: 10,
        next_chain_id: 20,
        airdrop_active: active,
        airdrop_end_timestamp: 0,
    }
}

fn snap(k: Key, owner: Key, lamports: u64, data: Vec<u8>) -> AccountSnapshot {
    AccountSnapshot { key: k, owner, lamports, data }
}

fn base_remaining() -> Vec<AccountSnapshot> {
    let sys = kn(KnownAddress::SystemProgram);
    let mut r = vec![
        snap(kn(KnownAddress::AVault), sys, 1, vec![]),
        snap(kn(KnownAddress::AVaultLp), sys, 1, vec![]),
        snap(kn(KnownAddress::AVaultLpMint), sys, 1, vec![]),
        snap(kn(KnownAddress::ATokenVault), sys, 1, vec![]),
        snap(kn(KnownAddress::SolUsdFeed), sys, 1, vec![]),
        snap(kn(KnownAddress::ChainlinkProgram), sys, 1, vec![]),
    ];
    for i in 0..8u8 {
        r.push(snap(key(200 + i), sys, 1, vec![]));
    }
    r
}

fn accounts(referrer: UserAccount, active: bool) -> RegisterWithSolDeposit {
    RegisterWithSolDeposit {
        state: program_state(active),
        user_wallet: key(USER_WALLET),
        referrer,
        referrer_key: key(REFERRER),
        referrer_wallet: key(REFERRER_WALLET),
        referrer_wallet_owner: kn(KnownAddress::SystemProgram),
        user: key(USER),
        user_wsol_account: key(WSOL),
        user_wsol_data_len: 0,
        user_donut_account: key(DONUT),
        wsol_mint: kn(KnownAddress::WsolMint),
        pool: kn(KnownAddress::Pool),
        b_vault: kn(KnownAddress::BVault),
        b_token_vault: kn(KnownAddress::BTokenVault),
        b_vault_lp_mint: kn(KnownAddress::BVaultLpMint),
        b_vault_lp: kn(KnownAddress::BVaultLp),
        vault_program: kn(KnownAddress::MeteoraVaultProgram),
        program_sol_vault: key(VAULT),
        token_mint: kn(KnownAddress::TokenMint),
        protocol_token_fee: kn(KnownAddress::ProtocolTokenBFee),
        amm_program: kn(KnownAddress::MeteoraAmmProgram),
        token_program: kn(KnownAddress::TokenProgram),
        system_program: kn(KnownAddress::SystemProgram),
        associated_token_program: kn(KnownAddress::AssociatedTokenProgram),
    }
}

fn referrer_with(filled: u8, reserved: u64) -> UserAccount {
    let mut r = initialize_base_user_data(key(REFERRER_WALLET), 1, 2);
    for i in 0..filled as usize {
        r.chain.slots[i] = Some(key(100 + i as u8));
    }
    r.chain.filled_slots = filled;
    r.reserved_sol = reserved;
    r
}

fn donut(amount: u64) -> Event {
    let mut d = vec![0u8; TOKEN_ACCOUNT_LEN];
    d[0..32].copy_from_slice(&kn(KnownAddress::TokenMint).bytes);
    d[32..64].copy_from_slice(&key(USER_WALLET).bytes);
    d[64..72].copy_from_slice(&amount.to_le_bytes());
    Event::Account(snap(key(DONUT), kn(KnownAddress::TokenProgram), 2_039_280, d))
}

fn price() -> Event {
    Event::Price { answer: 150_00000000, decimals: 8, now: 10_000, feed_timestamp: 9_000 }
}

const DEPOSIT: u64 = 100_000_000;

#[test]
fn first_slot_swaps_and_burns_the_deposit() {
    let (mut d, q) = register_with_sol_deposit(accounts(referrer_with(0, 0), false), base_remaining(), DEPOSIT).unwrap();
    assert!(matches!(q, Request::ReadPrice));
    let (e, q) = d.step(price()).unwrap();
    assert!(e.is_empty());
    assert!(matches!(q, Request::ComputeMinimum { price: 150_00000000, decimals: 8 }));
    let (e, q) = d.step(Event::Minimum(66_666_666)).unwrap();
    assert_eq!(e.len(), 3);
    assert!(matches!(e[0], Effect::CreateWsolAccount));
    assert!(matches!(e[1], Effect::WrapTransfer { lamports: DEPOSIT }));
    assert!(matches!(e[2], Effect::SyncNative));
    assert!(matches!(q, Request::ReadAccount(AccountRef::UserDonut)));
    let (e, q) = d.step(donut(10)).unwrap();
    assert!(matches!(e[..], [Effect::Swap { amount_in: DEPOSIT, minimum_out: 1 }]));
    assert!(matches!(q, Request::ReadAccount(AccountRef::UserDonut)));
    let (e, q) = d.step(donut(60)).unwrap();
    assert_eq!(e.len(), 2);
    assert!(matches!(e[0], Effect::Burn { amount: 50 }));
    match &e[1] {
        Effect::Emit(s) => {
            assert_eq!(s.slot_idx, 0);
            assert_eq!(s.chain_id, 2);
            assert_eq!(s.user, key(USER));
            assert_eq!(s.owner, key(REFERRER));
        },
        _ => panic!("expected the slot event"),
    }
    assert!(matches!(q, Request::Finish));
    assert_eq!(d.referrer.chain.slots[0], Some(key(USER)));
    assert_eq!(d.referrer.chain.filled_slots, 1);
    let u = d.user.as_ref().unwrap();
    assert_eq!(u.upline.id, 10);
    assert_eq!(u.chain.id, 20);
    assert_eq!(u.referrer, Some(key(REFERRER)));
    assert_eq!(u.upline.upline.len(), 1);
    assert_eq!(u.upline.upline[0].pda, key(REFERRER));
    assert_eq!(d.state.next_upline_id, 11);
    assert_eq!(d.state.next_chain_id, 21);
    assert!(matches!(d.step(donut(60)), Err(Failure::OutOfBounds)));
}

#[test]
fn second_slot_reserves_the_deposit_for_the_referrer() {
    let mut a = accounts(referrer_with(1, 0), false);
    a.user_wsol_data_len = 165;
    let (mut d, _) = register_with_sol_deposit(a, base_remaining(), DEPOSIT).unwrap();
    d.step(price()).unwrap();
    let (e, q) = d.step(Event::Minimum(DEPOSIT)).unwrap();
    assert_eq!(e.len(), 3);
    assert!(matches!(e[0], Effect::CloseWsol));
    match &e[1] {
        Effect::ReserveSol { vault, lamports } => {
            assert_eq!(*vault, key(VAULT));
            assert_eq!(*lamports, DEPOSIT);
        },
        _ => panic!("expected the reserve"),
    }
    assert!(matches!(e[2], Effect::Emit(_)));
    assert!(matches!(q, Request::Finish));
    assert_eq!(d.referrer.reserved_sol, DEPOSIT);
    assert_eq!(d.referrer.chain.slots[1], Some(key(USER)));
    assert_eq!(d.referrer.chain.filled_slots, 2);
}

#[test]
fn third_slot_pays_the_referrer_and_completes_its_matrix() {
    let (mut d, _) = register_with_sol_deposit(accounts(referrer_with(2, 700), false), base_remaining(), DEPOSIT).unwrap();
    d.step(price()).unwrap();
    let (e, q) = d.step(Event::Minimum(DEPOSIT)).unwrap();
    assert_eq!(e.len(), 5);
    assert!(matches!(e[0], Effect::CreateWsolAccount));
    match &e[1] {
        Effect::PayFromVault { vault, to, to_key, lamports } => {
            assert_eq!(*vault, key(VAULT));
            assert_eq!(*to, AccountRef::ReferrerWallet);
            assert_eq!(*to_key, key(REFERRER_WALLET));
            assert_eq!(*lamports, 700);
        },
        _ => panic!("expected the payment"),
    }
    assert!(matches!(e[2], Effect::WrapTransfer { lamports: DEPOSIT }));
    assert!(matches!(e[3], Effect::SyncNative));
    assert!(matches!(e[4], Effect::Emit(_)));
    assert!(matches!(q, Request::ReadAccount(AccountRef::UserDonut)));
    assert_eq!(d.referrer.reserved_sol, 0);
    assert_eq!(d.referrer.chain.filled_slots, 0);
    assert_eq!(d.referrer.chain.slots, [None, None, None]);
    assert_eq!(d.referrer.chain.id, 21);
    assert_eq!(d.state.next_chain_id, 22);
    d.step(donut(0)).unwrap();
    let (e, q) = d.step(donut(5)).unwrap();
    assert!(matches!(e[..], [Effect::Burn { amount: 5 }]));
    assert!(matches!(q, Request::ReadAccount(AccountRef::UserWsol)));
    let wsol = snap(key(WSOL), kn(KnownAddress::TokenProgram), 1, vec![0u8; 165]);
    let (e, q) = d.step(Event::Account(wsol)).unwrap();
    assert!(matches!(e[..], [Effect::CloseWsol]));
    assert!(matches!(q, Request::Finish));
}

fn upline_account_data(u: &UserAccount) -> Vec<u8> {
    let mut d = vec![0u8; 8];
    d.extend(encode_user_account(u));
    d.extend(vec![0u8; 64]);
    d
}

fn non_base_referrer(entries: Vec<UplineEntry>) -> UserAccount {
    let mut r = referrer_with(2, 0);
    r.referrer = Some(key(50));
    r.upline.upline = entries;
    r.upline.depth = 2;
    r
}

#[test]
fn third_slot_walks_up_to_an_upline_first_slot() {
    let entry = UplineEntry { pda: key(50), wallet: key(51) };
    let mut rem = base_remaining();
    let upline = initialize_base_user_data(key(51), 3, 4);
    rem.push(snap(key(50), kn(KnownAddress::MatrixProgram), 1, upline_account_data(&upline)));
    rem.push(snap(key(51), kn(KnownAddress::SystemProgram), 1, vec![]));
    let (mut d, _) = register_with_sol_deposit(accounts(non_base_referrer(vec![entry]), false), rem, DEPOSIT).unwrap();
    d.step(price()).unwrap();
    let (e, q) = d.step(Event::Minimum(DEPOSIT)).unwrap();
    assert!(matches!(e[e.len() - 1], Effect::Emit(_)));
    assert!(matches!(q, Request::ReadAccount(AccountRef::Remaining(14))));
    let acct = snap(d.remaining[14].key, d.remaining[14].owner, 1, d.remaining[14].data.clone());
    let (e, q) = d.step(Event::Account(acct)).unwrap();
    match &e[..] {
        [Effect::Emit(s)] => {
            assert_eq!(s.slot_idx, 0);
            assert_eq!(s.chain_id, 4);
            assert_eq!(s.user, key(REFERRER));
            assert_eq!(s.owner, key(50));
        },
        _ => panic!("expected the upline's slot event"),
    }
    assert!(matches!(q, Request::ReadAccount(AccountRef::UserDonut)));
    d.step(donut(0)).unwrap();
    let (e, q) = d.step(donut(8)).unwrap();
    assert_eq!(e.len(), 2);
    assert!(matches!(e[0], Effect::Burn { amount: 8 }));
    match &e[1] {
        Effect::WriteUserAccount { target, bytes } => {
            assert_eq!(*target, 14);
            let stored = decode_user_account(bytes).unwrap();
            assert_eq!(stored.chain.slots[0], Some(key(REFERRER)));
            assert_eq!(stored.chain.filled_slots, 1);
        },
        _ => panic!("expected the upline's record"),
    }
    assert!(matches!(q, Request::ReadAccount(AccountRef::UserWsol)));
    let (e, q) = d.step(Event::Account(snap(key(WSOL), kn(KnownAddress::TokenProgram), 1, vec![]))).unwrap();
    assert!(e.is_empty());
    assert!(matches!(q, Request::Finish));
}

#[test]
fn an_upline_visited_twice_is_refused() {
    let entry = UplineEntry { pda: key(50), wallet: key(51) };
    let mut rem = base_remaining();
    let mut upline = initialize_base_user_data(key(51), 3, 4);
    upline.chain.filled_slots = 2;
    upline.chain.slots = [Some(key(90)), Some(key(91)), None];
    for _ in 0..2 {
        rem.push(snap(key(50), kn(KnownAddress::MatrixProgram), 1, upline_account_data(&upline)));
        rem.push(snap(key(51), kn(KnownAddress::SystemProgram), 1, vec![]));
    }
    let (mut d, _) = register_with_sol_deposit(accounts(non_base_referrer(vec![entry, entry]), false), rem, DEPOSIT).unwrap();
    d.step(price()).unwrap();
    let (_, q) = d.step(Event::Minimum(DEPOSIT)).unwrap();
    assert!(matches!(q, Request::ReadAccount(AccountRef::Remaining(14))));
    let first = snap(d.remaining[14].key, d.remaining[14].owner, 1, d.remaining[14].data.clone());
    let (e, q) = d.step(Event::Account(first)).unwrap();
    assert!(matches!(e[e.len() - 1], Effect::WriteUserAccount { target: 14, .. }));
    assert!(matches!(q, Request::ReadAccount(AccountRef::Remaining(16))));
    let second = snap(d.remaining[16].key, d.remaining[16].owner, 1, d.remaining[16].data.clone());
    assert!(matches!(d.step(Event::Account(second)), Err(Failure::Code(ErrorCode::DuplicateUplineExploit))));
}

#[test]
fn non_base_referrer_needs_uplines_for_the_third_slot() {
    let entry = UplineEntry { pda: key(50), wallet: key(51) };
    let (mut d, _) = register_with_sol_deposit(accounts(non_base_referrer(vec![entry]), false), base_remaining(), DEPOSIT).unwrap();
    d.step(price()).unwrap();
    assert!(matches!(d.step(Event::Minimum(DEPOSIT)), Err(Failure::Code(ErrorCode::UplineRequiredForNonBase))));
}

#[test]
fn registration_refusals() {
    let mut unregistered = referrer_with(0, 0);
    unregistered.is_registered = false;
    assert!(matches!(
        register_with_sol_deposit(accounts(unregistered, false), base_remaining(), DEPOSIT),
        Err(Failure::Code(ErrorCode::ReferrerNotRegistered))
    ));
    assert!(matches!(
        register_with_sol_deposit(accounts(referrer_with(0, 0), false), base_remaining()[..5].to_vec_snapshots(), DEPOSIT),
        Err(Failure::Code(ErrorCode::MissingVaultAAccounts))
    ));
    assert!(matches!(
        register_with_sol_deposit(accounts(referrer_with(0, 0), true), base_remaining(), DEPOSIT),
        Err(Failure::Code(ErrorCode::UserNotRegisteredInAirdrop))
    ));
    let mut bad_pool = accounts(referrer_with(0, 0), false);
    bad_pool.pool = key(99);
    assert!(matches!(
        register_with_sol_deposit(bad_pool, base_remaining(), DEPOSIT),
        Err(Failure::Code(ErrorCode::InvalidPoolAddress))
    ));
    let mut bad_feed = base_remaining();
    bad_feed[4].key = key(98);
    assert!(matches!(
        register_with_sol_deposit(accounts(referrer_with(0, 0), false), bad_feed, DEPOSIT),
        Err(Failure::Code(ErrorCode::InvalidPriceFeed))
    ));
    let (mut d, _) = register_with_sol_deposit(accounts(referrer_with(0, 0), false), base_remaining(), DEPOSIT).unwrap();
    assert!(matches!(d.step(Event::Minimum(1)), Err(Failure::OutOfBounds)));
    d.step(price()).unwrap();
    assert!(matches!(d.step(Event::Minimum(DEPOSIT + 1)), Err(Failure::Code(ErrorCode::InsufficientDeposit))));
}

trait SnapshotSlice {
    fn to_vec_snapshots(&self) -> Vec<AccountSnapshot>;
}

impl SnapshotSlice for [AccountSnapshot] {
    fn to_vec_snapshots(&self) -> Vec<AccountSnapshot> {
        self.iter().map(|a| snap(a.key, a.owner, a.lamports, a.data.clone())).collect()
    }
}

#[test]
fn stale_price_uses_the_default() {
    let (mut d, _) = register_with_sol_deposit(accounts(referrer_with(0, 0), false), base_remaining(), DEPOSIT).unwrap();
    let (_, q) = d.step(Event::Price { answer: 150_000000, decimals: 6, now: 200_000, feed_timestamp: 100 }).unwrap();
    assert!(matches!(q, Request::ComputeMinimum { price: 100_00000000, decimals: 8 }));
    let (mut fresh, _) = register_with_sol_deposit(accounts(referrer_with(0, 0), false), base_remaining(), DEPOSIT).unwrap();
    let (_, q) = fresh.step(Event::Price { answer: 150_000000, decimals: 6, now: 200_000, feed_timestamp: 199_000 }).unwrap();
    assert!(matches!(q, Request::ComputeMinimum { price: 150_000000, decimals: 6 }));
}

fn base_accounts(owner: Key) -> RegisterWithoutReferrerDeposit {
    RegisterWithoutReferrerDeposit {
        state: program_state(true),
        owner,
        user_wallet: key(USER_WALLET),
        user: key(USER),
        user_wsol_account: key(WSOL),
        user_wsol_data_len: 165,
        user_donut_account: key(DONUT),
        wsol_mint: kn(KnownAddress::WsolMint),
        pool: kn(KnownAddress::Pool),
        b_vault: kn(KnownAddress::BVault),
        b_token_vault: kn(KnownAddress::BTokenVault),
        b_vault_lp_mint: kn(KnownAddress::BVaultLpMint),
        b_vault_lp: kn(KnownAddress::BVaultLp),
        vault_program: kn(KnownAddress::MeteoraVaultProgram),
        token_mint: kn(KnownAddress::TokenMint),
        protocol_token_fee: kn(KnownAddress::ProtocolTokenBFee),
        amm_program: kn(KnownAddress::MeteoraAmmProgram),
        token_program: kn(KnownAddress::TokenProgram),
        system_program: kn(KnownAddress::SystemProgram),
        associated_token_program: kn(KnownAddress::AssociatedTokenProgram),
    }
}

#[test]
fn base_registration_burns_the_whole_deposit() {
    let (mut b, e, q) = register_without_referrer(base_accounts(kn(KnownAddress::MultisigTreasury)), base_remaining(), 5_000).unwrap();
    assert_eq!(e.len(), 2);
    assert!(matches!(e[0], Effect::WrapTransfer { lamports: 5_000 }));
    assert!(matches!(e[1], Effect::SyncNative));
    assert!(matches!(q, Request::ReadAccount(AccountRef::UserDonut)));
    assert_eq!(b.user.upline.id, 10);
    assert_eq!(b.user.chain.id, 20);
    assert_eq!(b.user.referrer, None);
    assert_eq!(b.state.next_upline_id, 11);
    assert_eq!(b.state.next_chain_id, 21);
    let (e, _) = b.step(donut(3)).unwrap();
    assert!(matches!(e[..], [Effect::Swap { amount_in: 5_000, minimum_out: 1 }]));
    let (e, q) = b.step(donut(4)).unwrap();
    assert!(matches!(e[..], [Effect::Burn { amount: 1 }]));
    assert!(matches!(q, Request::Finish));
}

#[test]
fn base_registration_refusals() {
    assert!(matches!(
        register_without_referrer(base_accounts(key(9)), base_remaining(), 5_000),
        Err(Failure::Code(ErrorCode::NotAuthorized))
    ));
    assert!(matches!(
        register_without_referrer(base_accounts(kn(KnownAddress::MultisigTreasury)), base_remaining()[..3].to_vec_snapshots(), 5_000),
        Err(Failure::Code(ErrorCode::MissingVaultAAccounts))
    ));
    let (mut b, _, _) = register_without_referrer(base_accounts(kn(KnownAddress::MultisigTreasury)), base_remaining(), 5_000).unwrap();
    b.step(donut(3)).unwrap();
    assert!(matches!(b.step(donut(3)), Err(Failure::Code(ErrorCode::SwapFailed))));
}

#[test]
fn only_the_authorized_initializer_sets_up_the_state() {
    let s = initialize(&Initialize { owner: kn(KnownAddress::AuthorizedInitializer) }).unwrap();
    assert_eq!(s.owner, kn(KnownAddress::AuthorizedInitializer));
    assert_eq!(s.multisig_treasury, kn(KnownAddress::MultisigTreasury));
    assert_eq!(s.next_upline_id, 1);
    assert_eq!(s.next_chain_id, 1);
    assert!(s.airdrop_active);
    assert_eq!(s.airdrop_end_timestamp, 0);
    assert_eq!(initialize(&Initialize { owner: key(3) }).err(), Some(ErrorCode::NotAuthorized));
}

#[test]
fn matrix_completion_needs_the_referrer_own_account() {
    let m = MatrixCompletion {
        state: program_state(true),
        referrer_wallet: key(REFERRER_WALLET),
        referrer: referrer_with(0, 0),
        user: key(USER),
        system_program: kn(KnownAddress::SystemProgram),
    };
    assert_eq!(m.validate(), Ok(()));
    let other = MatrixCompletion { referrer_wallet: key(77), ..m };
    assert_eq!(other.validate(), Err(ErrorCode::InvalidAccountOwner));
}

#[test]
fn an_empty_third_slot_deposit_is_never_placed() {
    let (mut d, _) = register_with_sol_deposit(accounts(referrer_with(2, 0), false), base_remaining(), 0).unwrap();
    d.step(price()).unwrap();
    assert!(matches!(d.step(Event::Minimum(0)), Err(Failure::Code(ErrorCode::UnusedDepositDetected))));
}

#[test]
fn a_full_matrix_takes_no_one_and_nothing_follows() {
    let mut full = referrer_with(3, 0);
    full.chain.slots = [Some(key(100)), Some(key(101)), Some(key(102))];
    let (mut d, _) = register_with_sol_deposit(accounts(full, false), base_remaining(), DEPOSIT).unwrap();
    d.step(price()).unwrap();
    let (e, q) = d.step(Event::Minimum(DEPOSIT)).unwrap();
    assert_eq!(e.len(), 1);
    assert!(matches!(e[0], Effect::CreateWsolAccount));
    assert!(matches!(q, Request::Finish));
    assert_eq!(d.referrer.chain.filled_slots, 3);
}

#[test]
fn an_upline_second_slot_keeps_the_deposit_in_reserve() {
    let entry = UplineEntry { pda: key(50), wallet: key(51) };
    let mut rem = base_remaining();
    let mut upline = initialize_base_user_data(key(51), 3, 4);
    upline.chain.filled_slots = 1;
    upline.chain.slots = [Some(key(90)), None, None];
    rem.push(snap(key(50), kn(KnownAddress::MatrixProgram), 1, upline_account_data(&upline)));
    rem.push(snap(key(51), kn(KnownAddress::SystemProgram), 1, vec![]));
    let (mut d, _) = register_with_sol_deposit(accounts(non_base_referrer(vec![entry]), false), rem, DEPOSIT).unwrap();
    d.step(price()).unwrap();
    d.step(Event::Minimum(DEPOSIT)).unwrap();
    let acct = snap(d.remaining[14].key, d.remaining[14].owner, 1, d.remaining[14].data.clone());
    let (e, q) = d.step(Event::Account(acct)).unwrap();
    assert_eq!(e.len(), 4);
    assert!(matches!(e[0], Effect::Emit(_)));
    assert!(matches!(e[1], Effect::CloseWsol));
    assert!(matches!(e[2], Effect::ReserveSol { lamports: DEPOSIT, .. }));
    match &e[3] {
        Effect::WriteUserAccount { target: 14, bytes } => {
            let stored = decode_user_account(bytes).unwrap();
            assert_eq!(stored.reserved_sol, DEPOSIT);
            assert_eq!(stored.chain.slots[1], Some(key(REFERRER)));
            assert_eq!(stored.chain.filled_slots, 2);
        },
        _ => panic!("expected the upline's record"),
    }
    assert!(matches!(q, Request::Finish));
}

#[test]
fn an_upline_third_slot_pays_it_and_the_walk_goes_on() {
    let e1 = UplineEntry { pda: key(60), wallet: key(61) };
    let e2 = UplineEntry { pda: key(50), wallet: key(51) };
    let mut rem = base_remaining();
    let mut first = initialize_base_user_data(key(51), 3, 4);
    first.chain.filled_slots = 2;
    first.chain.slots = [Some(key(90)), Some(key(91)), None];
    first.reserved_sol = 300;
    let second = initialize_base_user_data(key(61), 5, 6);
    rem.push(snap(key(50), kn(KnownAddress::MatrixProgram), 1, upline_account_data(&first)));
    rem.push(snap(key(51), kn(KnownAddress::SystemProgram), 1, vec![]));
    rem.push(snap(key(60), kn(KnownAddress::MatrixProgram), 1, upline_account_data(&second)));
    rem.push(snap(key(61), kn(KnownAddress::SystemProgram), 1, vec![]));
    let (mut d, _) = register_with_sol_deposit(accounts(non_base_referrer(vec![e1, e2]), false), rem, DEPOSIT).unwrap();
    d.step(price()).unwrap();
    let (_, q) = d.step(Event::Minimum(DEPOSIT)).unwrap();
    assert!(matches!(q, Request::ReadAccount(AccountRef::Remaining(14))));
    let acct = snap(d.remaining[14].key, d.remaining[14].owner, 1, d.remaining[14].data.clone());
    let (e, q) = d.step(Event::Account(acct)).unwrap();
    assert_eq!(e.len(), 3);
    match &e[1] {
        Effect::PayFromVault { to, to_key, lamports, .. } => {
            assert_eq!(*to, AccountRef::Remaining(15));
            assert_eq!(*to_key, key(51));
            assert_eq!(*lamports, 300);
        },
        _ => panic!("expected the upline's payment"),
    }
    match &e[2] {
        Effect::WriteUserAccount { target: 14, bytes } => {
            let stored = decode_user_account(bytes).unwrap();
            assert_eq!(stored.reserved_sol, 0);
            assert_eq!(stored.chain.filled_slots, 0);
            assert_eq!(stored.chain.id, 22);
        },
        _ => panic!("expected the upline's record"),
    }
    assert!(matches!(q, Request::ReadAccount(AccountRef::Remaining(16))));
    let acct = snap(d.remaining[16].key, d.remaining[16].owner, 1, d.remaining[16].data.clone());
    let (e, q) = d.step(Event::Account(acct)).unwrap();
    match &e[0] {
        Effect::Emit(s) => {
            assert_eq!(s.user, key(50));
            assert_eq!(s.owner, key(60));
            assert_eq!(s.slot_idx, 0);
        },
        _ => panic!("expected the second upline's slot event"),
    }
    assert!(matches!(q, Request::ReadAccount(AccountRef::UserDonut)));
    assert_eq!(d.state.next_chain_id, 23);
}

fn walk_to_upline(upline_data: Vec<u8>, upline_owner: Key, wallet_owner: Key) -> Result<(Vec<Effect>, Request), Failure> {
    let entry = UplineEntry { pda: key(50), wallet: key(51) };
    let mut rem = base_remaining();
    rem.push(snap(key(50), upline_owner, 1, upline_data));
    rem.push(snap(key(51), wallet_owner, 1, vec![]));
    let (mut d, _) = register_with_sol_deposit(accounts(non_base_referrer(vec![entry]), false), rem, DEPOSIT).unwrap();
    d.step(price()).unwrap();
    d.step(Event::Minimum(DEPOSIT)).unwrap();
    let acct = snap(d.remaining[14].key, d.remaining[14].owner, 1, d.remaining[14].data.clone());
    d.step(Event::Account(acct))
}

#[test]
fn upline_account_refusals() {
    let matrix = kn(KnownAddress::MatrixProgram);
    let sys = kn(KnownAddress::SystemProgram);
    let good = upline_account_data(&initialize_base_user_data(key(51), 3, 4));
    assert!(walk_to_upline(good.clone(), matrix, sys).is_ok());
    assert!(matches!(walk_to_upline(good.clone(), key(9), sys), Err(Failure::Code(ErrorCode::InvalidSlotOwner))));
    assert!(matches!(walk_to_upline(good.clone(), matrix, key(9)), Err(Failure::Code(ErrorCode::PaymentWalletInvalid))));
    assert!(matches!(walk_to_upline(vec![0u8; 8], matrix, sys), Err(Failure::InvalidAccountData)));
    assert!(matches!(walk_to_upline(vec![0u8; 12], matrix, sys), Err(Failure::Deserialize)));
    let mut unregistered = initialize_base_user_data(key(51), 3, 4);
    unregistered.is_registered = false;
    assert!(matches!(
        walk_to_upline(upline_account_data(&unregistered), matrix, sys),
        Err(Failure::Code(ErrorCode::SlotNotRegistered))
    ));
    let mut full = initialize_base_user_data(key(51), 3, 4);
    full.chain.filled_slots = 3;
    assert!(matches!(walk_to_upline(upline_account_data(&full), matrix, sys), Err(Failure::OutOfBounds)));
    let mut tight = vec![0u8; 8];
    tight.extend(encode_user_account(&initialize_base_user_data(key(51), 3, 4)));
    let mut with_reserve = initialize_base_user_data(key(51), 3, 4);
    with_reserve.chain.filled_slots = 1;
    with_reserve.chain.slots = [Some(key(90)), None, None];
    let mut exact = vec![0u8; 8];
    exact.extend(encode_user_account(&with_reserve));
    assert!(walk_to_upline(tight, matrix, sys).is_ok());
    let mut short = exact.clone();
    short.truncate(exact.len() - 1);
    assert!(matches!(walk_to_upline(short, matrix, sys), Err(Failure::Deserialize)));
}

#[test]
fn an_upline_account_too_small_for_its_record_is_refused() {
    // The record grows by one slot address when the deposit takes the
    // upline's second slot; an account that only just held it cannot.
    let mut upline = initialize_base_user_data(key(51), 3, 4);
    upline.chain.filled_slots = 1;
    let mut data = vec![0u8; 8];
    data.extend(encode_user_account(&upline));
    assert!(matches!(
        walk_to_upline(data, kn(KnownAddress::MatrixProgram), kn(KnownAddress::SystemProgram)),
        Err(Failure::Serialize)
    ));
}

#[test]
fn exhausted_id_counters_fail() {
    let mut a = accounts(referrer_with(0, 0), false);
    a.state.next_upline_id = u32::MAX;
    let (mut d, _) = register_with_sol_deposit(a, base_remaining(), DEPOSIT).unwrap();
    d.step(price()).unwrap();
    assert!(matches!(d.step(Event::Minimum(DEPOSIT)), Err(Failure::Overflow)));
    let mut b = base_accounts(kn(KnownAddress::MultisigTreasury));
    b.state.next_chain_id = u32::MAX;
    assert!(matches!(register_without_referrer(b, base_remaining(), 1), Err(Failure::Overflow)));
}

fn airdrop_key(seeds: &[&[u8]]) -> Key {
    let program = solana_program::pubkey::Pubkey::new_from_array(kn(KnownAddress::AirdropProgram).bytes);
    Key { bytes: solana_program::pubkey::Pubkey::find_program_address(seeds, &program).0.to_bytes() }
}

fn airdrop_remaining(week: u8, start: i64) -> Vec<AccountSnapshot> {
    let airdrop = kn(KnownAddress::AirdropProgram);
    let wallet = key(REFERRER_WALLET);
    let mut r = base_remaining();
    let mut state_data = vec![0u8; 113];
    state_data[72] = week;
    state_data[105..113].copy_from_slice(&start.to_le_bytes());
    r[7] = snap(airdrop_key(&[b"program_state"]), airdrop, 1, state_data);
    r[8] = snap(airdrop_key(&[b"user_account", &wallet.bytes]), airdrop, 1, vec![1]);
    r[9] = snap(airdrop_key(&[b"weekly_data", &[week]]), airdrop, 1, vec![1]);
    r[10] = snap(airdrop_key(&[b"weekly_data", &[2u8]]), airdrop, 1, vec![1]);
    r[11] = snap(wallet, kn(KnownAddress::SystemProgram), 1, vec![]);
    r[12] = snap(airdrop, kn(KnownAddress::SystemProgram), 1, vec![]);
    r[13] = snap(kn(KnownAddress::InstructionsSysvar), kn(KnownAddress::SystemProgram), 1, vec![]);
    r
}

fn copy_all(r: &[AccountSnapshot]) -> Vec<AccountSnapshot> {
    r.iter().map(|a| snap(a.key, a.owner, a.lamports, a.data.clone())).collect()
}

#[test]
fn a_completed_matrix_is_notified_while_the_airdrop_runs() {
    const WEEK: i64 = 604_800;
    let rem = airdrop_remaining(2, 0);
    let (mut d, _) = register_with_sol_deposit(accounts(referrer_with(2, 0), true), copy_all(&rem), DEPOSIT).unwrap();
    d.step(price()).unwrap();
    let (e, q) = d.step(Event::Minimum(DEPOSIT)).unwrap();
    assert!(matches!(e[e.len() - 1], Effect::Emit(_)));
    assert!(matches!(q, Request::ReadRemaining));
    let (e, q) = d.step(Event::Remaining(copy_all(&rem))).unwrap();
    assert!(e.is_empty());
    assert!(matches!(q, Request::ReadClock));
    let (e, q) = d.step(Event::Clock(WEEK + 7)).unwrap();
    match &e[..] {
        [Effect::Notify(p)] => {
            assert!(p.is_last);
            assert_eq!(p.current_week, 2);
            assert_eq!(p.actual_week, 2);
            assert_eq!(p.program_state_account, 7);
            assert_eq!(p.user_account, 8);
            assert_eq!(p.referrer_wallet, 11);
        },
        _ => panic!("expected the notice"),
    }
    assert!(matches!(q, Request::ReadAccount(AccountRef::UserDonut)));
    assert!(d.state.airdrop_active);
    assert_eq!(d.referrer.chain.filled_slots, 0);
    assert_eq!(d.referrer.chain.id, 21);
}

#[test]
fn a_notice_after_the_last_week_ends_the_airdrop() {
    const WEEK: i64 = 604_800;
    let rem = airdrop_remaining(2, 0);
    let (mut d, _) = register_with_sol_deposit(accounts(referrer_with(2, 0), true), copy_all(&rem), DEPOSIT).unwrap();
    d.step(price()).unwrap();
    d.step(Event::Minimum(DEPOSIT)).unwrap();
    d.step(Event::Remaining(copy_all(&rem))).unwrap();
    let (e, q) = d.step(Event::Clock(40 * WEEK)).unwrap();
    assert!(e.is_empty());
    assert!(matches!(q, Request::ReadAccount(AccountRef::UserDonut)));
    assert!(!d.state.airdrop_active);
    assert_eq!(d.state.airdrop_end_timestamp, 40 * WEEK);
}

#[test]
fn the_reserve_goes_only_to_the_referrer_own_wallet() {
    let mut a = accounts(referrer_with(2, 700), false);
    a.referrer_wallet = key(66);
    let (mut d, _) = register_with_sol_deposit(a, base_remaining(), DEPOSIT).unwrap();
    d.step(price()).unwrap();
    assert!(matches!(d.step(Event::Minimum(DEPOSIT)), Err(Failure::Code(ErrorCode::InvalidAccountOwner))));
    // Without a reserve nothing is paid, so the wallet is not looked at.
    let mut b = accounts(referrer_with(2, 0), false);
    b.referrer_wallet = key(66);
    let (mut d, _) = register_with_sol_deposit(b, base_remaining(), DEPOSIT).unwrap();
    d.step(price()).unwrap();
    assert!(d.step(Event::Minimum(DEPOSIT)).is_ok());
}
