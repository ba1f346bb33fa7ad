use matrix_system::effects::{instruction_for, key_bytes, AccountRef, Effect, FlowKeys, Invocation};
use matrix_system::error::{ErrorCode, Failure};
use matrix_system::key::{known_address, Key, KnownAddress};
use matrix_system::notify::{NotifyPlan, NotifyTargets};
use matrix_system::solana::Ix;
use matrix_system::state::SlotFilled;
use solana_program::instruction::Instruction;
use solana_program::pubkey::Pubkey;

fn key(n: u8) -> Key {
    Key { bytes: [n; 32] }
}

fn pk(k: &Key) -> Pubkey {
    Pubkey::new_from_array(k.bytes)
}

fn flow_keys() -> FlowKeys {
    FlowKeys {
        user_wallet: key(1),
        user_wsol_account: key(2),
        user_donut_account: key(3),
        wsol_mint: known_address(KnownAddress::WsolMint),
        pool: known_address(KnownAddress::Pool),
        b_vault: known_address(KnownAddress::BVault),
        b_token_vault: known_address(KnownAddress::BTokenVault),
        b_vault_lp_mint: known_address(KnownAddress::BVaultLpMint),
        b_vault_lp: known_address(KnownAddress::BVaultLp),
        vault_program: known_address(KnownAddress::MeteoraVaultProgram),
        token_mint: known_address(KnownAddress::TokenMint),
        protocol_token_fee: known_address(KnownAddress::ProtocolTokenBFee),
        amm_program: known_address(KnownAddress::MeteoraAmmProgram),
        token_program: known_address(KnownAddress::TokenProgram),
        system_program: known_address(KnownAddress::SystemProgram),
        associated_token_program: known_address(KnownAddress::AssociatedTokenProgram),
    }
}

fn vault_a() -> Vec<Key> {
    vec![
        known_address(KnownAddress::AVault),
        known_address(KnownAddress::AVaultLp),
        known_address(KnownAddress::AVaultLpMint),
        known_address(KnownAddress::ATokenVault),
    ]
}

fn same_ix(ix: &Ix, expected: &Instruction) {
    assert_eq!(pk(&ix.program_id), expected.program_id);
    assert_eq!(ix.data, expected.data);
    assert_eq!(ix.accounts.len(), expected.accounts.len());
    for (m, e) in ix.accounts.iter().zip(expected.accounts.iter()) {
        assert_eq!(pk(&m.key), e.pubkey);
        assert_eq!(m.is_signer, e.is_signer);
        assert_eq!(m.is_writable, e.is_writable);
    }
}

fn call(e: Effect) -> Invocation {
    instruction_for(&e, &flow_keys(), &vault_a()).unwrap().unwrap()
}

#[test]
fn wrapping_is_a_system_transfer_to_the_wsol_account() {
    let inv = call(Effect::WrapTransfer { lamports: 1_234 });
    same_ix(&inv.ix, &solana_program::system_instruction::transfer(&pk(&key(1)), &pk(&key(2)), 1_234));
    assert_eq!(inv.accounts, vec![AccountRef::UserWallet, AccountRef::UserWsol]);
    assert!(!inv.vault_signs);
    assert_eq!(inv.on_error, Some(ErrorCode::WrapSolFailed));
}

#[test]
fn sync_and_close_are_token_instructions() {
    let tp = pk(&known_address(KnownAddress::TokenProgram));
    let sync = call(Effect::SyncNative);
    same_ix(&sync.ix, &spl_token::instruction::sync_native(&tp, &pk(&key(2))).unwrap());
    assert_eq!(sync.on_error, Some(ErrorCode::WrapSolFailed));
    let close = call(Effect::CloseWsol);
    same_ix(&close.ix, &spl_token::instruction::close_account(&tp, &pk(&key(2)), &pk(&key(1)), &pk(&key(1)), &[]).unwrap());
    assert_eq!(close.accounts, vec![AccountRef::UserWsol, AccountRef::UserWallet, AccountRef::UserWallet]);
    assert_eq!(close.on_error, Some(ErrorCode::UnwrapSolFailed));
}

#[test]
fn reserve_and_payment_move_lamports_through_the_vault() {
    let vault = key(40);
    let reserve = call(Effect::ReserveSol { vault, lamports: 500 });
    same_ix(&reserve.ix, &solana_program::system_instruction::transfer(&pk(&key(1)), &pk(&vault), 500));
    assert_eq!(reserve.on_error, Some(ErrorCode::SolReserveFailed));
    assert!(!reserve.vault_signs);
    let pay = call(Effect::PayFromVault { vault, to: AccountRef::ReferrerWallet, to_key: key(41), lamports: 700 });
    same_ix(&pay.ix, &solana_program::system_instruction::transfer(&pk(&vault), &pk(&key(41)), 700));
    assert_eq!(pay.accounts, vec![AccountRef::ProgramSolVault, AccountRef::ReferrerWallet]);
    assert!(pay.vault_signs);
    assert_eq!(pay.on_error, Some(ErrorCode::ReferrerPaymentFailed));
}

#[test]
fn burn_is_a_token_burn_of_the_amount() {
    let tp = pk(&known_address(KnownAddress::TokenProgram));
    let burn = call(Effect::Burn { amount: 99 });
    let expected = spl_token::instruction::burn(&tp, &pk(&key(3)), &pk(&known_address(KnownAddress::TokenMint)), &pk(&key(1)), &[], 99).unwrap();
    same_ix(&burn.ix, &expected);
    assert_eq!(burn.on_error, Some(ErrorCode::BurnFailed));
    let mut k = flow_keys();
    k.token_program = key(77);
    let refused = instruction_for(&Effect::Burn { amount: 99 }, &k, &vault_a());
    assert!(matches!(refused, Err(Failure::Code(ErrorCode::BurnFailed))));
}

#[test]
fn wsol_account_creation_uses_the_associated_token_program() {
    let inv = call(Effect::CreateWsolAccount);
    let expected = spl_associated_token_account::instruction::create_associated_token_account(
        &pk(&key(1)),
        &pk(&key(1)),
        &pk(&known_address(KnownAddress::WsolMint)),
        &spl_token::id(),
    );
    same_ix(&inv.ix, &expected);
    assert_eq!(inv.accounts.len(), 7);
    assert_eq!(inv.on_error, None);
}

#[test]
fn swap_names_pool_vaults_and_amounts() {
    let inv = call(Effect::Swap { amount_in: 1_000, minimum_out: 1 });
    assert_eq!(inv.ix.program_id, known_address(KnownAddress::MeteoraAmmProgram));
    let mut data = vec![248u8, 198, 158, 145, 225, 117, 135, 200];
    data.extend_from_slice(&1_000u64.to_le_bytes());
    data.extend_from_slice(&1u64.to_le_bytes());
    assert_eq!(inv.ix.data, data);
    assert_eq!(inv.ix.accounts.len(), 15);
    assert_eq!(inv.ix.accounts[3].key, known_address(KnownAddress::AVault));
    assert_eq!(inv.ix.accounts[5].key, known_address(KnownAddress::ATokenVault));
    assert_eq!(inv.ix.accounts[7].key, known_address(KnownAddress::AVaultLpMint));
    assert_eq!(inv.ix.accounts[9].key, known_address(KnownAddress::AVaultLp));
    assert!(inv.ix.accounts[12].is_signer);
    assert!(!inv.ix.accounts[12].is_writable);
    assert_eq!(inv.accounts[3], AccountRef::Remaining(0));
    assert_eq!(inv.on_error, Some(ErrorCode::SwapFailed));
}

#[test]
fn notice_carries_its_flag_and_weeks() {
    let t = NotifyTargets {
        program_state: key(10),
        referrer_wallet: key(11),
        user_account: key(12),
        current_week_data: key(13),
        next_week_data: key(14),
        instructions_sysvar: known_address(KnownAddress::InstructionsSysvar),
        airdrop_program: known_address(KnownAddress::AirdropProgram),
    };
    let p = NotifyPlan {
        program_state_account: 7,
        referrer_wallet: 11,
        user_account: 8,
        current_week_data: 9,
        next_week_data: 10,
        instructions_sysvar: 13,
        airdrop_program: 12,
        targets: t,
        current_week: 3,
        actual_week: 4,
        is_last: true,
    };
    let inv = call(Effect::Notify(p));
    assert_eq!(inv.ix.program_id, known_address(KnownAddress::AirdropProgram));
    assert_eq!(inv.ix.data, vec![88u8, 30, 2, 65, 55, 218, 137, 194, 1, 3, 4]);
    assert_eq!(inv.ix.accounts.len(), 8);
    assert_eq!(inv.ix.accounts[5].key, key(1));
    assert!(inv.ix.accounts[5].is_signer && inv.ix.accounts[5].is_writable);
    assert_eq!(inv.accounts[0], AccountRef::Remaining(7));
    assert_eq!(inv.accounts.len(), 9);
}

#[test]
fn events_and_writes_call_nothing() {
    let e = Effect::Emit(SlotFilled { slot_idx: 0, chain_id: 1, user: key(1), owner: key(2) });
    assert!(instruction_for(&e, &flow_keys(), &vault_a()).unwrap().is_none());
    let w = Effect::WriteUserAccount { target: 3, bytes: vec![1, 2] };
    assert!(instruction_for(&w, &flow_keys(), &vault_a()).unwrap().is_none());
}

#[test]
fn key_bytes_copies_the_address() {
    assert_eq!(key_bytes(&key(5)), vec![5u8; 32]);
}
