use matrix_system::airdrop::{check_and_update_airdrop_status, current_airdrop_week, notified_week, user_exists_in_airdrop};
use matrix_system::cascade::{count_total_notifications, count_upline_airdrop_pdas, validate_upline_pairs};
use matrix_system::codec::encode_user_account;
use matrix_system::error::{ErrorCode, Failure};
use matrix_system::key::{known_address, Key, KnownAddress};
use matrix_system::matrix::initialize_base_user_data;
use matrix_system::notify::{notify_begin, notify_finish, NotifyStart};
use matrix_system::state::{AccountSnapshot, ProgramState, UplineEntry};
use solana_program::pubkey::Pubkey;

const WEEK: i64 = 604_800;

fn key(n: u8) -> Key {
    Key { bytes: [n; 32] }
}

fn airdrop_pda(seeds: &[&[u8]]) -> Key {
    let program = Pubkey::new_from_array(known_address(KnownAddress::AirdropProgram).bytes);
    Key { bytes: Pubkey::find_program_address(seeds, &program).0.to_bytes() }
}

fn acct(k: Key, owner: Key, lamports: u64, data: Vec<u8>) -> AccountSnapshot {
    AccountSnapshot { key: k, owner, lamports, data }
}

fn state(active: bool) -> ProgramState {
    ProgramState {
        owner: key(1),
        multisig_treasury: key(2),
        next_upline_id: 5,
        next_chain_id: 6,
        airdrop_active: active,
        airdrop_end_timestamp: 0,
    }
}

fn airdrop_state_data(week: u8, start: i64) -> Vec<u8> {
    let mut d = vec![0u8; 113];
    d[72] = week;
    d[105..113].copy_from_slice(&start.to_le_bytes());
    d
}

#[test]
fn airdrop_week_counts_from_one_and_caps() {
    assert_eq!(current_airdrop_week(1000, 1000), 1);
    assert_eq!(current_airdrop_week(1000, 999), 1);
    assert_eq!(current_airdrop_week(1000, 1000 + WEEK - 1), 1);
    assert_eq!(current_airdrop_week(1000, 1000 + WEEK), 2);
    assert_eq!(current_airdrop_week(0, 35 * WEEK), 36);
    assert_eq!(current_airdrop_week(0, 100 * WEEK), 36);
    assert_eq!(current_airdrop_week(i64::MIN, i64::MAX), 36);
}

#[test]
fn notified_week_rounds_toward_zero_and_wraps() {
    assert_eq!(notified_week(0, 3 * WEEK + 5), 4);
    assert_eq!(notified_week(0, -5), 1);
    assert_eq!(notified_week(2 * WEEK, 0), 255);
    assert_eq!(notified_week(0, 50 * WEEK), 36);
}

#[test]
fn airdrop_ends_at_its_last_week() {
    let mut s = state(true);
    check_and_update_airdrop_status(&mut s, &airdrop_state_data(3, 0), 2 * WEEK);
    assert!(s.airdrop_active);
    let mut s = state(true);
    check_and_update_airdrop_status(&mut s, &airdrop_state_data(36, 0), 2 * WEEK);
    assert!(!s.airdrop_active);
    assert_eq!(s.airdrop_end_timestamp, 2 * WEEK);
    let mut s = state(true);
    check_and_update_airdrop_status(&mut s, &airdrop_state_data(3, 0), 35 * WEEK);
    assert!(!s.airdrop_active);
    assert_eq!(s.airdrop_end_timestamp, 35 * WEEK);
    let mut s = state(true);
    check_and_update_airdrop_status(&mut s, &airdrop_state_data(36, 0)[..112], 2 * WEEK);
    assert!(s.airdrop_active);
    let mut s = state(false);
    check_and_update_airdrop_status(&mut s, &airdrop_state_data(36, 0), 2 * WEEK);
    assert!(!s.airdrop_active);
    assert_eq!(s.airdrop_end_timestamp, 0);
}

#[test]
fn user_exists_only_with_a_live_airdrop_account() {
    let wallet = key(7);
    let pda = airdrop_pda(&[b"user_account", &wallet.bytes]);
    let airdrop = known_address(KnownAddress::AirdropProgram);
    let live = vec![acct(key(1), key(0), 1, vec![]), acct(pda, airdrop, 10, vec![1])];
    assert_eq!(user_exists_in_airdrop(&live, &wallet), Ok(true));
    let unfunded = vec![acct(pda, airdrop, 0, vec![1])];
    assert_eq!(user_exists_in_airdrop(&unfunded, &wallet), Ok(false));
    let empty = vec![acct(pda, airdrop, 10, vec![])];
    assert_eq!(user_exists_in_airdrop(&empty, &wallet), Ok(false));
    let foreign = vec![acct(pda, key(3), 10, vec![1])];
    assert_eq!(user_exists_in_airdrop(&foreign, &wallet), Ok(false));
    assert_eq!(user_exists_in_airdrop(&vec![], &wallet), Ok(false));
    // Only the first account at the address is looked at.
    let shadowed = vec![acct(pda, key(3), 10, vec![1]), acct(pda, airdrop, 10, vec![1])];
    assert_eq!(user_exists_in_airdrop(&shadowed, &wallet), Ok(false));
}

#[test]
fn airdrop_accounts_are_counted_until_the_first_other() {
    let airdrop = known_address(KnownAddress::AirdropProgram);
    let mut accts: Vec<AccountSnapshot> = (0..14).map(|i| acct(key(i), key(0), 1, vec![])).collect();
    assert_eq!(count_upline_airdrop_pdas(&accts, 14), 0);
    for i in 0..3 {
        accts.push(acct(key(50 + i), airdrop, 1, vec![]));
    }
    accts.push(acct(key(60), key(0), 1, vec![]));
    accts.push(acct(key(61), airdrop, 1, vec![]));
    assert_eq!(count_upline_airdrop_pdas(&accts, 14), 3);
    let many: Vec<AccountSnapshot> = (0..30).map(|i| acct(key(i), airdrop, 1, vec![])).collect();
    assert_eq!(count_upline_airdrop_pdas(&many, 14), 6);
}

#[test]
fn upline_pairs_come_newest_first() {
    let expected = vec![
        UplineEntry { pda: key(1), wallet: key(101) },
        UplineEntry { pda: key(2), wallet: key(102) },
        UplineEntry { pda: key(3), wallet: key(103) },
    ];
    let mut accts: Vec<AccountSnapshot> = (0..5).map(|i| acct(key(200 + i), key(0), 1, vec![])).collect();
    accts.push(acct(key(3), key(0), 1, vec![]));
    accts.push(acct(key(103), key(0), 1, vec![]));
    accts.push(acct(key(2), key(0), 1, vec![]));
    accts.push(acct(key(102), key(0), 1, vec![]));
    assert_eq!(validate_upline_pairs(&accts, 5, &expected), Ok(2));
    let mut odd = accts.clone_snapshots();
    odd.push(acct(key(1), key(0), 1, vec![]));
    assert_eq!(validate_upline_pairs(&odd, 5, &expected), Err(ErrorCode::MissingUplineAccount));
    assert_eq!(validate_upline_pairs(&accts, 5, &expected[..1].to_vec()), Err(ErrorCode::InvalidUplineCount));
    let mut wrong_order = accts.clone_snapshots();
    wrong_order.swap(5, 7);
    assert_eq!(validate_upline_pairs(&wrong_order, 5, &expected), Err(ErrorCode::InvalidUplineOrder));
    let mut wrong_wallet = accts.clone_snapshots();
    wrong_wallet[6].key = key(99);
    assert_eq!(validate_upline_pairs(&wrong_wallet, 5, &expected), Err(ErrorCode::InvalidUplineWallet));
}

trait CloneSnapshots {
    fn clone_snapshots(&self) -> Vec<AccountSnapshot>;
}

impl CloneSnapshots for Vec<AccountSnapshot> {
    fn clone_snapshots(&self) -> Vec<AccountSnapshot> {
        self.iter().map(|a| acct(a.key, a.owner, a.lamports, a.data.clone())).collect()
    }
}

fn user_data(filled: u8, registered: bool) -> Vec<u8> {
    let mut u = initialize_base_user_data(key(9), 1, 1);
    u.chain.filled_slots = filled;
    u.is_registered = registered;
    let mut d = vec![0u8; 8];
    d.extend(encode_user_account(&u));
    d
}

#[test]
fn notices_count_the_uplines_one_slot_from_complete() {
    let matrix = known_address(KnownAddress::MatrixProgram);
    let wallet = acct(key(100), key(0), 1, vec![]);
    let mut accts = vec![acct(key(0), key(0), 1, vec![])];
    accts.push(acct(key(1), matrix, 1, user_data(2, true)));
    accts.push(acct(wallet.key, wallet.owner, 1, vec![]));
    accts.push(acct(key(2), matrix, 1, user_data(1, true)));
    accts.push(acct(key(102), key(0), 1, vec![]));
    accts.push(acct(key(3), key(5), 1, user_data(2, true)));
    accts.push(acct(key(103), key(0), 1, vec![]));
    accts.push(acct(key(4), matrix, 1, user_data(2, false)));
    accts.push(acct(key(104), key(0), 1, vec![]));
    accts.push(acct(key(5), matrix, 1, user_data(2, true)));
    accts.push(acct(key(105), key(0), 1, vec![]));
    assert_eq!(count_total_notifications(&accts, 1, 5), 3);
    assert_eq!(count_total_notifications(&accts, 1, 1), 2);
    assert_eq!(count_total_notifications(&accts, 1, 0), 1);
}

fn notice_accounts(wallet: Key, data: Vec<u8>) -> Vec<AccountSnapshot> {
    let airdrop = known_address(KnownAddress::AirdropProgram);
    let ps = airdrop_pda(&[b"program_state"]);
    let ua = airdrop_pda(&[b"user_account", &wallet.bytes]);
    let cw = airdrop_pda(&[b"weekly_data", &[3u8]]);
    let nw = airdrop_pda(&[b"weekly_data", &[4u8]]);
    let mut accts: Vec<AccountSnapshot> = (0..7).map(|i| acct(key(200 + i), key(0), 1, vec![])).collect();
    accts.push(acct(ps, airdrop, 1, data));
    accts.push(acct(ua, airdrop, 1, vec![1]));
    accts.push(acct(cw, airdrop, 1, vec![1]));
    accts.push(acct(nw, airdrop, 1, vec![1]));
    accts.push(acct(wallet, key(0), 1, vec![]));
    accts.push(acct(airdrop, key(0), 1, vec![]));
    accts.push(acct(known_address(KnownAddress::InstructionsSysvar), key(0), 1, vec![]));
    accts
}

#[test]
fn notice_is_skipped_when_the_airdrop_is_over() {
    let r = notify_begin(&vec![], &key(7), false);
    assert!(matches!(r, Ok(NotifyStart::Skip)));
}

#[test]
fn notice_needs_the_wallet_airdrop_account_and_the_state() {
    let wallet = key(7);
    assert!(matches!(
        notify_begin(&vec![], &wallet, true),
        Err(Failure::Code(ErrorCode::UserNotRegisteredInAirdrop))
    ));
    let accts = notice_accounts(wallet, airdrop_state_data(3, 0));
    assert!(matches!(notify_begin(&accts, &wallet, true), Ok(NotifyStart::NeedClock { program_state_account: 7 })));
    let short = notice_accounts(wallet, vec![0u8; 100]);
    assert!(matches!(
        notify_begin(&short, &wallet, true),
        Err(Failure::Code(ErrorCode::MissingUplineAccount))
    ));
    let mut no_state = notice_accounts(wallet, airdrop_state_data(3, 0));
    no_state[7].key = key(99);
    assert!(matches!(
        notify_begin(&no_state, &wallet, true),
        Err(Failure::Code(ErrorCode::MissingUplineAccount))
    ));
}

#[test]
fn notice_plan_names_the_accounts_and_weeks() {
    let wallet = key(7);
    let data = airdrop_state_data(3, 0);
    let accts = notice_accounts(wallet, data.clone());
    let keys: Vec<Key> = accts.iter().map(|a| a.key).collect();
    let mut s = state(true);
    let plan = notify_finish(&keys, &data, &mut s, &wallet, true, 3 * WEEK + 10, 7).unwrap().unwrap();
    assert!(s.airdrop_active);
    assert_eq!(plan.program_state_account, 7);
    assert_eq!(plan.user_account, 8);
    assert_eq!(plan.current_week_data, 9);
    assert_eq!(plan.next_week_data, 10);
    assert_eq!(plan.referrer_wallet, 11);
    assert_eq!(plan.airdrop_program, 12);
    assert_eq!(plan.instructions_sysvar, 13);
    assert_eq!(plan.current_week, 3);
    assert_eq!(plan.actual_week, 4);
    assert!(plan.is_last);
    assert_eq!(plan.targets.referrer_wallet, wallet);
}

#[test]
fn notice_finds_accounts_anywhere_when_not_in_place() {
    let wallet = key(7);
    let data = airdrop_state_data(3, 0);
    let mut accts = notice_accounts(wallet, data.clone());
    accts.swap(8, 11);
    let keys: Vec<Key> = accts.iter().map(|a| a.key).collect();
    let mut s = state(true);
    let plan = notify_finish(&keys, &data, &mut s, &wallet, false, 3 * WEEK, 7).unwrap().unwrap();
    assert_eq!(plan.user_account, 11);
    assert_eq!(plan.referrer_wallet, 8);
    assert!(!plan.is_last);
}

#[test]
fn notice_reports_a_missing_weekly_account() {
    let wallet = key(7);
    let data = airdrop_state_data(3, 0);
    let mut accts = notice_accounts(wallet, data.clone());
    accts[10].key = key(98);
    let keys: Vec<Key> = accts.iter().map(|a| a.key).collect();
    let mut s = state(true);
    let r = notify_finish(&keys, &data, &mut s, &wallet, false, 3 * WEEK, 7);
    assert!(matches!(r, Err(Failure::Code(ErrorCode::MissingUplineAccount))));
}

#[test]
fn notice_ends_the_airdrop_instead_after_its_last_week() {
    let wallet = key(7);
    let data = airdrop_state_data(36, 0);
    let accts = notice_accounts(wallet, data.clone());
    let keys: Vec<Key> = accts.iter().map(|a| a.key).collect();
    let mut s = state(true);
    let r = notify_finish(&keys, &data, &mut s, &wallet, false, 3 * WEEK, 7);
    assert!(matches!(r, Ok(None)));
    assert!(!s.airdrop_active);
    assert_eq!(s.airdrop_end_timestamp, 3 * WEEK);
}

#[test]
fn airdrop_state_fields_sit_at_the_offsets_read() {
    let mut data = vec![0xEEu8; 8];
    data.extend_from_slice(&[1u8; 32]);
    data.extend_from_slice(&[2u8; 32]);
    data.push(36);
    data.extend_from_slice(&[3u8; 32]);
    data.extend_from_slice(&(-77i64).to_le_bytes());
    data.extend_from_slice(&[0u8; 300]);
    assert_eq!(data[72], 36);
    assert_eq!(matrix_system::codec::i64_at(&data, 105), -77);
    let mut s = state(true);
    check_and_update_airdrop_status(&mut s, &data, 10);
    assert!(!s.airdrop_active);
    assert_eq!(s.airdrop_end_timestamp, 10);
}
