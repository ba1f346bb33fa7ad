use vstd::prelude::*;
use vstd::bytes::{spec_u64_to_le_bytes, u64_to_le_bytes};
use crate::error::{ErrorCode, Failure};
use crate::key::{known_address, known_bytes, Key, KnownAddress};
use crate::notify::{NotifyPlan, NotifyPlanV};
use crate::solana::{
    ata_address, ata_seeds, create_associated_token_account, find_program_address, metas_v, program_address,
    system_transfer, token_burn, token_close_account, token_sync_native, Ix, Meta, MetaV,
};
use crate::state::SlotFilled;

verus! {

/// An account that the instruction was given, by its role.
#[derive(Clone, Copy, Debug, PartialEq, Eq, Structural)]
pub enum AccountRef {
    UserWallet,
    UserWsol,
    UserDonut,
    WsolMint,
    Pool,
    BVault,
    BTokenVault,
    BVaultLpMint,
    BVaultLp,
    TokenMint,
    ProtocolTokenFee,
    VaultProgram,
    AmmProgram,
    TokenProgram,
    SystemProgram,
    AssociatedTokenProgram,
    ProgramSolVault,
    ReferrerWallet,
    /// The remaining account at this position.
    Remaining(usize),
}

/// The addresses of the accounts that a registration is given by role.
#[derive(Clone, Copy, Debug)]
pub struct FlowKeys {
    pub user_wallet: Key,
    pub user_wsol_account: Key,
    pub user_donut_account: Key,
    pub wsol_mint: Key,
    pub pool: Key,
    pub b_vault: Key,
    pub b_token_vault: Key,
    pub b_vault_lp_mint: Key,
    pub b_vault_lp: Key,
    pub vault_program: Key,
    pub token_mint: Key,
    pub protocol_token_fee: Key,
    pub amm_program: Key,
    pub token_program: Key,
    pub system_program: Key,
    pub associated_token_program: Key,
}

/// Something the runtime must do for the program, in order.
#[derive(Debug)]
pub enum Effect {
    /// Create the user's wrapped-SOL token account.
    CreateWsolAccount,
    /// Move lamports from the user's wallet to the wrapped-SOL account.
    WrapTransfer { lamports: u64 },
    /// Bring the wrapped-SOL balance in line with the account's lamports.
    SyncNative,
    /// Close the wrapped-SOL account, returning its lamports to the wallet.
    CloseWsol,
    /// Move lamports from the user's wallet to the program's SOL vault.
    ReserveSol { vault: Key, lamports: u64 },
    /// Pay lamports from the program's SOL vault, which signs, to a wallet.
    PayFromVault { vault: Key, to: AccountRef, to_key: Key, lamports: u64 },
    /// Swap wrapped SOL for DONUT in the pool.
    Swap { amount_in: u64, minimum_out: u64 },
    /// Burn DONUT from the user's DONUT account.
    Burn { amount: u64 },
    /// Tell the airdrop program that a matrix was completed.
    Notify(NotifyPlan),
    /// Record that a user took a slot.
    Emit(SlotFilled),
    /// Store a user account's bytes after the 8-byte tag of the remaining
    /// account at `target`.
    WriteUserAccount { target: usize, bytes: Vec<u8> },
}

/// The abstract content of an effect.
pub enum EffectV {
    CreateWsolAccount,
    WrapTransfer { lamports: u64 },
    SyncNative,
    CloseWsol,
    ReserveSol { vault: Seq<u8>, lamports: u64 },
    PayFromVault { vault: Seq<u8>, to: AccountRef, to_key: Seq<u8>, lamports: u64 },
    Swap { amount_in: u64, minimum_out: u64 },
    Burn { amount: u64 },
    Notify(NotifyPlanV),
    Emit(SlotFilled),
    WriteUserAccount { target: usize, bytes: Seq<u8> },
}

impl View for Effect {
    type V = EffectV;

    open spec fn view(&self) -> EffectV {
        match self {
            Effect::CreateWsolAccount => EffectV::CreateWsolAccount,
            Effect::WrapTransfer { lamports } => EffectV::WrapTransfer { lamports: *lamports },
            Effect::SyncNative => EffectV::SyncNative,
            Effect::CloseWsol => EffectV::CloseWsol,
            Effect::ReserveSol { vault, lamports } => EffectV::ReserveSol { vault: vault@, lamports: *lamports },
            Effect::PayFromVault { vault, to, to_key, lamports } => EffectV::PayFromVault { vault: vault@, to: *to, to_key: to_key@, lamports: *lamports },
            Effect::Swap { amount_in, minimum_out } => EffectV::Swap { amount_in: *amount_in, minimum_out: *minimum_out },
            Effect::Burn { amount } => EffectV::Burn { amount: *amount },
            Effect::Notify(p) => EffectV::Notify(p@),
            Effect::Emit(e) => EffectV::Emit(*e),
            Effect::WriteUserAccount { target, bytes } => EffectV::WriteUserAccount { target: *target, bytes: bytes@ },
        }
    }
}

pub open spec fn effects_v(s: Seq<Effect>) -> Seq<EffectV> {
    s.map_values(|e: Effect| e@)
}

pub broadcast proof fn lemma_effects_push(s: Seq<Effect>, x: Effect)
    ensures
        #[trigger] effects_v(s.push(x)) == effects_v(s).push(x@),
{
    assert(effects_v(s.push(x)) =~= effects_v(s).push(x@));
}

pub broadcast proof fn lemma_effects_empty(s: Seq<Effect>)
    requires
        s.len() == 0,
    ensures
        #[trigger] effects_v(s) == Seq::<EffectV>::empty(),
{
    assert(effects_v(s) =~= Seq::<EffectV>::empty());
}

/// A call into another program: the instruction, the accounts handed to it
/// by role, whether the program's SOL vault signs, and the error reported
/// when the call fails (none: the callee's own error).
#[derive(Debug)]
pub struct Invocation {
    pub ix: Ix,
    pub accounts: Vec<AccountRef>,
    pub vault_signs: bool,
    pub on_error: Option<ErrorCode>,
}

/// The abstract content of an instruction: program, accounts, data.
pub open spec fn ix_v(ix: Ix) -> (Seq<u8>, Seq<MetaV>, Seq<u8>) {
    (ix.program_id@, metas_v(ix.accounts@), ix.data@)
}

/// The 8-byte tag of the pool's swap instruction.
pub open spec fn swap_tag() -> Seq<u8> {
    seq![248u8, 198, 158, 145, 225, 117, 135, 200]
}

/// The 8-byte tag of the airdrop program's completion notice.
pub open spec fn notify_tag() -> Seq<u8> {
    seq![88u8, 30, 2, 65, 55, 218, 137, 194]
}

pub open spec fn swap_accounts() -> Seq<AccountRef> {
    seq![
        AccountRef::Pool, AccountRef::UserWsol, AccountRef::UserDonut, AccountRef::Remaining(0), AccountRef::BVault,
        AccountRef::Remaining(3), AccountRef::BTokenVault, AccountRef::Remaining(2), AccountRef::BVaultLpMint,
        AccountRef::Remaining(1), AccountRef::BVaultLp, AccountRef::ProtocolTokenFee, AccountRef::UserWallet,
        AccountRef::VaultProgram, AccountRef::TokenProgram,
    ]
}

/// The accounts of the swap: pool, wrapped-SOL and DONUT accounts, vault A,
/// vault B, their token vaults, LP mints and LP accounts (A before B), the
/// protocol fee account, all writable; then the wallet as a read-only
/// signer, the vault program and the token program. Vault A's accounts are
/// the first four remaining accounts.
pub open spec fn swap_metas(k: FlowKeys, vault_a: Seq<Key>) -> Seq<MetaV> {
    seq![
        (k.pool@, false, true), (k.user_wsol_account@, false, true), (k.user_donut_account@, false, true),
        (vault_a[0]@, false, true), (k.b_vault@, false, true), (vault_a[3]@, false, true), (k.b_token_vault@, false, true),
        (vault_a[2]@, false, true), (k.b_vault_lp_mint@, false, true), (vault_a[1]@, false, true), (k.b_vault_lp@, false, true),
        (k.protocol_token_fee@, false, true), (k.user_wallet@, true, false), (k.vault_program@, false, false),
        (k.token_program@, false, false),
    ]
}

pub open spec fn notify_accounts(p: NotifyPlanV) -> Seq<AccountRef> {
    seq![
        AccountRef::Remaining(p.program_state_account), AccountRef::Remaining(p.referrer_wallet),
        AccountRef::Remaining(p.user_account), AccountRef::Remaining(p.current_week_data),
        AccountRef::Remaining(p.next_week_data), AccountRef::UserWallet, AccountRef::SystemProgram,
        AccountRef::Remaining(p.instructions_sysvar), AccountRef::Remaining(p.airdrop_program),
    ]
}

/// The accounts of a completion notice: the airdrop state, the wallet, its
/// airdrop account, both weekly accounts (all writable), the paying user as
/// a writable signer, then the system program and the instructions sysvar.
pub open spec fn notify_metas(p: NotifyPlanV, user_wallet: Seq<u8>) -> Seq<MetaV> {
    seq![
        (p.targets.program_state, false, true), (p.targets.referrer_wallet, false, true),
        (p.targets.user_account, false, true), (p.targets.current_week_data, false, true),
        (p.targets.next_week_data, false, true), (user_wallet, true, true),
        (known_bytes(KnownAddress::SystemProgram), false, false),
        (known_bytes(KnownAddress::InstructionsSysvar), false, false),
    ]
}

/// The data of a completion notice: the tag, whether it is the last notice
/// of the registration, the stored week and the current week.
pub open spec fn notify_data(p: NotifyPlanV) -> Seq<u8> {
    notify_tag() + seq![if p.is_last { 1u8 } else { 0u8 }, p.current_week, p.actual_week]
}

fn push_metas(out: &mut Vec<Meta>, k: &Key, is_signer: bool, is_writable: bool)
    ensures
        metas_v(final(out)@) == metas_v(old(out)@).push((k@, is_signer, is_writable)),
{
    out.push(Meta { key: *k, is_signer, is_writable });
    proof { assert(metas_v(out@) =~= metas_v(old(out)@).push((k@, is_signer, is_writable))); }
}

fn swap_instruction(k: &FlowKeys, vault_a: &Vec<Key>, amount_in: u64, minimum_out: u64) -> (ix: Ix)
    requires
        vault_a@.len() >= 4,
    ensures
        ix_v(ix) == (k.amm_program@, swap_metas(*k, vault_a@), swap_tag() + spec_u64_to_le_bytes(amount_in) + spec_u64_to_le_bytes(minimum_out)),
{
    let mut m: Vec<Meta> = Vec::new();
    push_metas(&mut m, &k.pool, false, true);
    push_metas(&mut m, &k.user_wsol_account, false, true);
    push_metas(&mut m, &k.user_donut_account, false, true);
    push_metas(&mut m, &vault_a[0], false, true);
    push_metas(&mut m, &k.b_vault, false, true);
    push_metas(&mut m, &vault_a[3], false, true);
    push_metas(&mut m, &k.b_token_vault, false, true);
    push_metas(&mut m, &vault_a[2], false, true);
    push_metas(&mut m, &k.b_vault_lp_mint, false, true);
    push_metas(&mut m, &vault_a[1], false, true);
    push_metas(&mut m, &k.b_vault_lp, false, true);
    push_metas(&mut m, &k.protocol_token_fee, false, true);
    push_metas(&mut m, &k.user_wallet, true, false);
    push_metas(&mut m, &k.vault_program, false, false);
    push_metas(&mut m, &k.token_program, false, false);
    let mut data: Vec<u8> = vec![248u8, 198, 158, 145, 225, 117, 135, 200];
    let mut a = u64_to_le_bytes(amount_in);
    let mut b = u64_to_le_bytes(minimum_out);
    data.append(&mut a);
    data.append(&mut b);
    let ix = Ix { program_id: k.amm_program, accounts: m, data };
    proof {
        assert(metas_v(ix.accounts@) =~= swap_metas(*k, vault_a@));
        assert(ix.data@ =~= swap_tag() + spec_u64_to_le_bytes(amount_in) + spec_u64_to_le_bytes(minimum_out));
    }
    ix
}

fn notify_instruction(p: &NotifyPlan, user_wallet: &Key) -> (ix: Ix)
    ensures
        ix_v(ix) == (known_bytes(KnownAddress::AirdropProgram), notify_metas(p@, user_wallet@), notify_data(p@)),
{
    let mut m: Vec<Meta> = Vec::new();
    push_metas(&mut m, &p.targets.program_state, false, true);
    push_metas(&mut m, &p.targets.referrer_wallet, false, true);
    push_metas(&mut m, &p.targets.user_account, false, true);
    push_metas(&mut m, &p.targets.current_week_data, false, true);
    push_metas(&mut m, &p.targets.next_week_data, false, true);
    push_metas(&mut m, user_wallet, true, true);
    push_metas(&mut m, &known_address(KnownAddress::SystemProgram), false, false);
    push_metas(&mut m, &known_address(KnownAddress::InstructionsSysvar), false, false);
    let data: Vec<u8> = vec![88u8, 30, 2, 65, 55, 218, 137, 194, if p.is_last { 1u8 } else { 0u8 }, p.current_week, p.actual_week];
    let ix = Ix { program_id: known_address(KnownAddress::AirdropProgram), accounts: m, data };
    proof {
        assert(metas_v(ix.accounts@) =~= notify_metas(p@, user_wallet@));
        assert(ix.data@ =~= notify_data(p@));
    }
    ix
}

/// `inv` calls `ix` with `accounts`, with the vault signing or not, and
/// reports `on_error` when the call fails.
pub open spec fn invokes(
    inv: Invocation,
    ix: (Seq<u8>, Seq<MetaV>, Seq<u8>),
    accounts: Seq<AccountRef>,
    vault_signs: bool,
    on_error: Option<ErrorCode>,
) -> bool {
    &&& ix_v(inv.ix) == ix
    &&& inv.accounts@ == accounts
    &&& inv.vault_signs == vault_signs
    &&& inv.on_error == on_error
}

/// The call that carries out effect `e`, if it is a call: `r` is that call,
/// none for an event or a data write, or the failure met in building it.
pub open spec fn invocation_for(e: EffectV, k: FlowKeys, vault_a: Seq<Key>, r: Result<Option<Invocation>, Failure>) -> bool {
    let token = known_bytes(KnownAddress::TokenProgram);
    let system = known_bytes(KnownAddress::SystemProgram);
    match e {
        EffectV::CreateWsolAccount => {
            if program_address(ata_seeds(k.user_wallet@, token, k.wsol_mint@), known_bytes(KnownAddress::AssociatedTokenProgram)) is None {
                r == Err::<Option<Invocation>, Failure>(Failure::NoBumpSeed)
            } else {
                r matches Ok(Some(inv)) && invokes(inv,
                    (known_bytes(KnownAddress::AssociatedTokenProgram), seq![
                        (k.user_wallet@, true, true), (ata_address(k.user_wallet@, token, k.wsol_mint@), false, true),
                        (k.user_wallet@, false, false), (k.wsol_mint@, false, false), (system, false, false), (token, false, false)],
                        seq![0u8]),
                    seq![AccountRef::UserWallet, AccountRef::UserWsol, AccountRef::UserWallet, AccountRef::WsolMint,
                        AccountRef::SystemProgram, AccountRef::TokenProgram, AccountRef::AssociatedTokenProgram],
                    false, None)
            }
        },
        EffectV::WrapTransfer { lamports } => r matches Ok(Some(inv)) && invokes(inv,
            (system, seq![(k.user_wallet@, true, true), (k.user_wsol_account@, false, true)], seq![2u8, 0, 0, 0] + spec_u64_to_le_bytes(lamports)),
            seq![AccountRef::UserWallet, AccountRef::UserWsol], false, Some(ErrorCode::WrapSolFailed)),
        EffectV::SyncNative => r matches Ok(Some(inv)) && invokes(inv,
            (token, seq![(k.user_wsol_account@, false, true)], seq![17u8]),
            seq![AccountRef::UserWsol], false, Some(ErrorCode::WrapSolFailed)),
        EffectV::CloseWsol => r matches Ok(Some(inv)) && invokes(inv,
            (token, seq![(k.user_wsol_account@, false, true), (k.user_wallet@, false, true), (k.user_wallet@, true, false)], seq![9u8]),
            seq![AccountRef::UserWsol, AccountRef::UserWallet, AccountRef::UserWallet], false, Some(ErrorCode::UnwrapSolFailed)),
        EffectV::ReserveSol { vault, lamports } => r matches Ok(Some(inv)) && invokes(inv,
            (system, seq![(k.user_wallet@, true, true), (vault, false, true)], seq![2u8, 0, 0, 0] + spec_u64_to_le_bytes(lamports)),
            seq![AccountRef::UserWallet, AccountRef::ProgramSolVault], false, Some(ErrorCode::SolReserveFailed)),
        EffectV::PayFromVault { vault, to, to_key, lamports } => r matches Ok(Some(inv)) && invokes(inv,
            (system, seq![(vault, true, true), (to_key, false, true)], seq![2u8, 0, 0, 0] + spec_u64_to_le_bytes(lamports)),
            seq![AccountRef::ProgramSolVault, to], true, Some(ErrorCode::ReferrerPaymentFailed)),
        EffectV::Swap { amount_in, minimum_out } => r matches Ok(Some(inv)) && invokes(inv,
            (k.amm_program@, swap_metas(k, vault_a), swap_tag() + spec_u64_to_le_bytes(amount_in) + spec_u64_to_le_bytes(minimum_out)),
            swap_accounts(), false, Some(ErrorCode::SwapFailed)),
        EffectV::Burn { amount } => if k.token_program@ != token {
            r == Err::<Option<Invocation>, Failure>(Failure::Code(ErrorCode::BurnFailed))
        } else {
            r matches Ok(Some(inv)) && invokes(inv,
                (token, seq![(k.user_donut_account@, false, true), (k.token_mint@, false, true), (k.user_wallet@, true, false)], seq![8u8] + spec_u64_to_le_bytes(amount)),
                seq![AccountRef::UserDonut, AccountRef::TokenMint, AccountRef::UserWallet], false, Some(ErrorCode::BurnFailed))
        },
        EffectV::Notify(p) => r matches Ok(Some(inv)) && invokes(inv,
            (known_bytes(KnownAddress::AirdropProgram), notify_metas(p, k.user_wallet@), notify_data(p)),
            notify_accounts(p), false, Some(ErrorCode::ReferrerPaymentFailed)),
        EffectV::Emit(_) => r == Ok::<Option<Invocation>, Failure>(None),
        EffectV::WriteUserAccount { .. } => r == Ok::<Option<Invocation>, Failure>(None),
    }
}

fn ata_seed_vec(wallet: &Key, token_program: &Key, mint: &Key) -> (r: Vec<Vec<u8>>)
    ensures
        r.deep_view() == ata_seeds(wallet@, token_program@, mint@),
{
    let r = vec![key_bytes(wallet), key_bytes(token_program), key_bytes(mint)];
    proof { assert(r.deep_view() =~~= ata_seeds(wallet@, token_program@, mint@)); }
    r
}

/// The bytes of an address, as a vector.
pub fn key_bytes(k: &Key) -> (r: Vec<u8>)
    ensures
        r@ == k@,
{
    let mut w: Vec<u8> = Vec::new();
    let mut i: usize = 0;
    while i < 32
        invariant
            0 <= i <= 32,
            w@ == k@.take(i as int),
        decreases 32 - i,
    {
        w.push(k.bytes[i]);
        proof { assert(k@.take(i + 1) =~= k@.take(i as int).push(k@[i as int])); }
        i = i + 1;
    }
    proof { assert(k@.take(32) =~= k@); }
    w
}

/// Builds the call that carries out `e`; `vault_a` holds the addresses of
/// the first four remaining accounts (vault A).
pub fn instruction_for(e: &Effect, k: &FlowKeys, vault_a: &Vec<Key>) -> (r: Result<Option<Invocation>, Failure>)
    requires
        vault_a@.len() >= 4,
    ensures
        invocation_for(e@, *k, vault_a@, r),
{
    let token = known_address(KnownAddress::TokenProgram);
    match e {
        Effect::CreateWsolAccount => {
            let seeds = ata_seed_vec(&k.user_wallet, &token, &k.wsol_mint);
            if find_program_address(&seeds, &known_address(KnownAddress::AssociatedTokenProgram)).is_none() {
                return Err(Failure::NoBumpSeed);
            }
            let ix = create_associated_token_account(&k.user_wallet, &k.user_wallet, &k.wsol_mint, &token);
            let accounts = vec![AccountRef::UserWallet, AccountRef::UserWsol, AccountRef::UserWallet, AccountRef::WsolMint,
                AccountRef::SystemProgram, AccountRef::TokenProgram, AccountRef::AssociatedTokenProgram];
            proof {
                assert(accounts@ =~= seq![AccountRef::UserWallet, AccountRef::UserWsol, AccountRef::UserWallet, AccountRef::WsolMint,
                    AccountRef::SystemProgram, AccountRef::TokenProgram, AccountRef::AssociatedTokenProgram]);
            }
            Ok(Some(Invocation { ix, accounts, vault_signs: false, on_error: None }))
        },
        Effect::WrapTransfer { lamports } => {
            let ix = system_transfer(&k.user_wallet, &k.user_wsol_account, *lamports);
            let accounts = vec![AccountRef::UserWallet, AccountRef::UserWsol];
            proof { assert(accounts@ =~= seq![AccountRef::UserWallet, AccountRef::UserWsol]); }
            Ok(Some(Invocation { ix, accounts, vault_signs: false, on_error: Some(ErrorCode::WrapSolFailed) }))
        },
        Effect::SyncNative => {
            match token_sync_native(&token, &k.user_wsol_account) {
                Some(ix) => {
                    let accounts = vec![AccountRef::UserWsol];
                    proof { assert(accounts@ =~= seq![AccountRef::UserWsol]); }
                    Ok(Some(Invocation { ix, accounts, vault_signs: false, on_error: Some(ErrorCode::WrapSolFailed) }))
                },
                None => Err(Failure::IncorrectProgramId),
            }
        },
        Effect::CloseWsol => {
            match token_close_account(&token, &k.user_wsol_account, &k.user_wallet, &k.user_wallet) {
                Some(ix) => {
                    let accounts = vec![AccountRef::UserWsol, AccountRef::UserWallet, AccountRef::UserWallet];
                    proof { assert(accounts@ =~= seq![AccountRef::UserWsol, AccountRef::UserWallet, AccountRef::UserWallet]); }
                    Ok(Some(Invocation { ix, accounts, vault_signs: false, on_error: Some(ErrorCode::UnwrapSolFailed) }))
                },
                None => Err(Failure::IncorrectProgramId),
            }
        },
        Effect::ReserveSol { vault, lamports } => {
            let ix = system_transfer(&k.user_wallet, vault, *lamports);
            let accounts = vec![AccountRef::UserWallet, AccountRef::ProgramSolVault];
            proof { assert(accounts@ =~= seq![AccountRef::UserWallet, AccountRef::ProgramSolVault]); }
            Ok(Some(Invocation { ix, accounts, vault_signs: false, on_error: Some(ErrorCode::SolReserveFailed) }))
        },
        Effect::PayFromVault { vault, to, to_key, lamports } => {
            let ix = system_transfer(vault, to_key, *lamports);
            let accounts = vec![AccountRef::ProgramSolVault, *to];
            proof { assert(accounts@ =~= seq![AccountRef::ProgramSolVault, *to]); }
            Ok(Some(Invocation { ix, accounts, vault_signs: true, on_error: Some(ErrorCode::ReferrerPaymentFailed) }))
        },
        Effect::Swap { amount_in, minimum_out } => {
            let ix = swap_instruction(k, vault_a, *amount_in, *minimum_out);
            let accounts = vec![
                AccountRef::Pool, AccountRef::UserWsol, AccountRef::UserDonut, AccountRef::Remaining(0), AccountRef::BVault,
                AccountRef::Remaining(3), AccountRef::BTokenVault, AccountRef::Remaining(2), AccountRef::BVaultLpMint,
                AccountRef::Remaining(1), AccountRef::BVaultLp, AccountRef::ProtocolTokenFee, AccountRef::UserWallet,
                AccountRef::VaultProgram, AccountRef::TokenProgram,
            ];
            proof { assert(accounts@ =~= swap_accounts()); }
            Ok(Some(Invocation { ix, accounts, vault_signs: false, on_error: Some(ErrorCode::SwapFailed) }))
        },
        Effect::Burn { amount } => {
            match token_burn(&k.token_program, &k.user_donut_account, &k.token_mint, &k.user_wallet, *amount) {
                Some(ix) => {
                    let accounts = vec![AccountRef::UserDonut, AccountRef::TokenMint, AccountRef::UserWallet];
                    proof { assert(accounts@ =~= seq![AccountRef::UserDonut, AccountRef::TokenMint, AccountRef::UserWallet]); }
                    Ok(Some(Invocation { ix, accounts, vault_signs: false, on_error: Some(ErrorCode::BurnFailed) }))
                },
                None => Err(Failure::Code(ErrorCode::BurnFailed)),
            }
        },
        Effect::Notify(p) => {
            let ix = notify_instruction(p, &k.user_wallet);
            let accounts = vec![
                AccountRef::Remaining(p.program_state_account), AccountRef::Remaining(p.referrer_wallet),
                AccountRef::Remaining(p.user_account), AccountRef::Remaining(p.current_week_data),
                AccountRef::Remaining(p.next_week_data), AccountRef::UserWallet, AccountRef::SystemProgram,
                AccountRef::Remaining(p.instructions_sysvar), AccountRef::Remaining(p.airdrop_program),
            ];
            proof { assert(accounts@ =~= notify_accounts(p@)); }
            Ok(Some(Invocation { ix, accounts, vault_signs: false, on_error: Some(ErrorCode::ReferrerPaymentFailed) }))
        },
        Effect::Emit(_) => Ok(None),
        Effect::WriteUserAccount { .. } => Ok(None),
    }
}

} // verus!
