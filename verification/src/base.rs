use vstd::prelude::*;
use crate::checks::{
    check_all, spec_validate_base_registration, validate_base_registration, vault_a_checks, verify_vault_a_addresses,
};
use crate::codec::{user_v, UserV};
use crate::effects::{effects_v, lemma_effects_empty, lemma_effects_push, AccountRef, Effect, EffectV, FlowKeys};
use crate::error::{ErrorCode, Failure};
use crate::flow::{Event, Request};
use crate::key::{known_address, known_bytes, same_key, Key, KnownAddress};
use crate::matrix::{empty_chain_v, initialize_base_user_data, lemma_empty_v};
use crate::notify::keys_v;
use crate::state::{AccountSnapshot, ProgramState, UserAccount};
use crate::token::{read_and_validate_token_account, spec_token_balance, swap_received};

verus! {

broadcast use lemma_effects_push, lemma_effects_empty;

/// The accounts of a registration without a referrer, as plain values.
#[derive(Debug)]
pub struct RegisterWithoutReferrerDeposit {
    pub state: ProgramState,
    /// The signer that must be the treasury recorded in the state.
    pub owner: Key,
    pub user_wallet: Key,
    /// Address of the new user's account.
    pub user: Key,
    pub user_wsol_account: Key,
    /// Length of the wrapped-SOL account's data when the instruction starts.
    pub user_wsol_data_len: usize,
    pub user_donut_account: Key,
    pub wsol_mint: Key,
    pub pool: Key,
    pub b_vault: Key,
    pub b_token_vault: Key,
    pub b_vault_lp_mint: Key,
    pub b_vault_lp: Key,
    pub vault_program: Key,
    pub token_mint: Key,
    pub protocol_token_fee: Key,
    pub amm_program: Key,
    pub token_program: Key,
    pub system_program: Key,
    pub associated_token_program: Key,
}

/// Where a registration without a referrer stands: its deposit is swapped
/// for DONUT, which is burnt.
#[derive(Clone, Copy, Debug)]
pub enum BaseStage {
    /// Waiting for the DONUT account before the swap.
    BurnBefore,
    /// Waiting for the DONUT account after the swap.
    BurnAfter { before: u64 },
    Finished,
}

/// A registration without a referrer, paused at a request to the runtime.
pub struct BaseRegistration {
    pub keys: FlowKeys,
    /// Addresses of the first four remaining accounts (vault A).
    pub vault_a: Vec<Key>,
    /// The program state, with the ids that the new user took.
    pub state: ProgramState,
    /// The new user's record.
    pub user: UserAccount,
    pub deposit_amount: u64,
    pub stage: BaseStage,
}

/// The abstract content of a paused registration without a referrer.
#[verifier::ext_equal]
pub struct BaseView {
    pub keys: FlowKeys,
    pub vault_a: Seq<Seq<u8>>,
    pub state: ProgramState,
    pub user: UserV,
    pub deposit_amount: u64,
    pub stage: BaseStage,
}

impl View for BaseRegistration {
    type V = BaseView;

    open spec fn view(&self) -> BaseView {
        BaseView {
            keys: self.keys,
            vault_a: keys_v(self.vault_a@),
            state: self.state,
            user: user_v(self.user),
            deposit_amount: self.deposit_amount,
            stage: self.stage,
        }
    }
}

pub type BaseOutcome = Result<(BaseView, Seq<EffectV>, Request), Failure>;

pub type BaseResult = Result<(Vec<Effect>, Request), Failure>;

/// `r` is the outcome `o`, and `after` is the registration it leaves.
pub open spec fn base_result(after: BaseView, r: BaseResult, o: BaseOutcome) -> bool {
    match o {
        Ok((v, e, q)) => r matches Ok((effs, q2)) && after == v && effects_v(effs@) == e && q2 == q,
        Err(x) => r matches Err(y) && y == x,
    }
}

/// The record of a user registered without a referrer: no referrer, depth
/// one, an empty upline, an empty matrix and nothing reserved.
pub open spec fn base_user_v(wallet: Key, upline_id: u32, chain_id: u32) -> UserV {
    (true, None, wallet@, upline_id, 1, Seq::empty(), empty_chain_v(chain_id), 0)
}

pub open spec fn base_keys(a: RegisterWithoutReferrerDeposit) -> FlowKeys {
    FlowKeys {
        user_wallet: a.user_wallet,
        user_wsol_account: a.user_wsol_account,
        user_donut_account: a.user_donut_account,
        wsol_mint: a.wsol_mint,
        pool: a.pool,
        b_vault: a.b_vault,
        b_token_vault: a.b_token_vault,
        b_vault_lp_mint: a.b_vault_lp_mint,
        b_vault_lp: a.b_vault_lp,
        vault_program: a.vault_program,
        token_mint: a.token_mint,
        protocol_token_fee: a.protocol_token_fee,
        amm_program: a.amm_program,
        token_program: a.token_program,
        system_program: a.system_program,
        associated_token_program: a.associated_token_program,
    }
}

/// The start of a registration without a referrer: the signer must be the
/// treasury and the pool, vault B, the mints and the programs the known
/// ones; the new user takes the next upline and matrix ids (which then
/// advance); vault A must be present and known; the wrapped-SOL account is
/// created if it has no data, the deposit is wrapped, and its swap-and-burn
/// starts (the token mint must be the DONUT mint) with a read of the DONUT
/// account.
pub open spec fn spec_base_start(a: RegisterWithoutReferrerDeposit, rem: Seq<AccountSnapshot>, deposit_amount: u64) -> BaseOutcome {
    match spec_validate_base_registration(
        a.owner@, a.state.multisig_treasury@, a.pool@, a.b_vault@, a.b_token_vault@, a.b_vault_lp_mint@,
        a.b_vault_lp@, a.token_mint@, a.wsol_mint@, a.vault_program@, a.amm_program@, a.protocol_token_fee@,
    ) {
        Err(x) => Err(Failure::Code(x)),
        Ok(()) => if a.state.next_upline_id == u32::MAX || a.state.next_chain_id == u32::MAX {
            Err(Failure::Overflow)
        } else if rem.len() < 4 {
            Err(Failure::Code(ErrorCode::MissingVaultAAccounts))
        } else if check_all(vault_a_checks(rem[0].key@, rem[1].key@, rem[2].key@, rem[3].key@)) is Err {
            Err(Failure::Code(check_all(vault_a_checks(rem[0].key@, rem[1].key@, rem[2].key@, rem[3].key@))->Err_0))
        } else if a.token_mint@ != known_bytes(KnownAddress::TokenMint) {
            Err(Failure::Code(ErrorCode::InvalidTokenMintAddress))
        } else {
            let v = BaseView {
                keys: base_keys(a),
                vault_a: seq![rem[0].key@, rem[1].key@, rem[2].key@, rem[3].key@],
                state: ProgramState {
                    next_upline_id: (a.state.next_upline_id + 1) as u32,
                    next_chain_id: (a.state.next_chain_id + 1) as u32,
                    ..a.state
                },
                user: base_user_v(a.user_wallet, a.state.next_upline_id, a.state.next_chain_id),
                deposit_amount,
                stage: BaseStage::BurnBefore,
            };
            let e0 = if a.user_wsol_data_len == 0 { Seq::empty().push(EffectV::CreateWsolAccount) } else { Seq::empty() };
            Ok((v, e0.push(EffectV::WrapTransfer { lamports: deposit_amount }).push(EffectV::SyncNative),
                Request::ReadAccount(AccountRef::UserDonut)))
        },
    }
}

/// One step of a registration without a referrer: before the swap the
/// DONUT balance is noted and the whole deposit is swapped for at least one
/// DONUT; after it, what the swap delivered (which must be positive) is
/// burnt and the registration is over.
pub open spec fn base_step(v: BaseView, ev: Event) -> BaseOutcome {
    match (v.stage, ev) {
        (BaseStage::BurnBefore, Event::Account(a)) => match spec_token_balance(
            a.lamports, a.owner@, a.data@, v.keys.token_mint@, v.keys.user_wallet@,
        ) {
            Err(x) => Err(Failure::Code(x)),
            Ok(b) => Ok((BaseView { stage: BaseStage::BurnAfter { before: b }, ..v },
                Seq::empty().push(EffectV::Swap { amount_in: v.deposit_amount, minimum_out: 1 }),
                Request::ReadAccount(AccountRef::UserDonut))),
        },
        (BaseStage::BurnAfter { before }, Event::Account(a)) => match spec_token_balance(
            a.lamports, a.owner@, a.data@, v.keys.token_mint@, v.keys.user_wallet@,
        ) {
            Err(x) => Err(Failure::Code(x)),
            Ok(after) => if after <= before {
                Err(Failure::Code(ErrorCode::SwapFailed))
            } else {
                Ok((BaseView { stage: BaseStage::Finished, ..v },
                    Seq::empty().push(EffectV::Burn { amount: (after - before) as u64 }), Request::Finish))
            },
        },
        _ => Err(Failure::OutOfBounds),
    }
}

/// A registration without a referrer knows vault A's four addresses.
pub open spec fn base_wf(v: BaseView) -> bool {
    v.vault_a.len() == 4
}

/// Registers a user without a referrer: checks the signer and the known
/// addresses, takes the next ids for the new user's record, then gives the
/// effects that wrap the deposit and the first request of its
/// swap-and-burn.
pub fn register_without_referrer(
    accounts: RegisterWithoutReferrerDeposit,
    remaining: Vec<AccountSnapshot>,
    deposit_amount: u64,
) -> (r: Result<(BaseRegistration, Vec<Effect>, Request), Failure>)
    ensures
        match spec_base_start(accounts, remaining@, deposit_amount) {
            Ok((v, e, q)) => r matches Ok((b, effs, q2)) && b@ == v && effects_v(effs@) == e && q2 == q && base_wf(b@),
            Err(x) => r matches Err(y) && y == x,
        },
{
    if let Err(x) = validate_base_registration(
        &accounts.owner,
        &accounts.state.multisig_treasury,
        &accounts.pool,
        &accounts.b_vault,
        &accounts.b_token_vault,
        &accounts.b_vault_lp_mint,
        &accounts.b_vault_lp,
        &accounts.token_mint,
        &accounts.wsol_mint,
        &accounts.vault_program,
        &accounts.amm_program,
        &accounts.protocol_token_fee,
    ) {
        return Err(Failure::Code(x));
    }
    if accounts.state.next_upline_id == u32::MAX || accounts.state.next_chain_id == u32::MAX {
        return Err(Failure::Overflow);
    }
    let upline_id = accounts.state.next_upline_id;
    let chain_id = accounts.state.next_chain_id;
    let mut state = accounts.state;
    state.next_upline_id = upline_id + 1;
    state.next_chain_id = chain_id + 1;
    let user = initialize_base_user_data(accounts.user_wallet, upline_id, chain_id);
    proof { lemma_empty_v(user.chain, chain_id); }
    if remaining.len() < 4 {
        return Err(Failure::Code(ErrorCode::MissingVaultAAccounts));
    }
    if let Err(x) = verify_vault_a_addresses(&remaining[0].key, &remaining[1].key, &remaining[2].key, &remaining[3].key) {
        return Err(Failure::Code(x));
    }
    let mut effs: Vec<Effect> = Vec::new();
    if accounts.user_wsol_data_len == 0 {
        effs.push(Effect::CreateWsolAccount);
    }
    effs.push(Effect::WrapTransfer { lamports: deposit_amount });
    effs.push(Effect::SyncNative);
    if !same_key(&accounts.token_mint, &known_address(KnownAddress::TokenMint)) {
        return Err(Failure::Code(ErrorCode::InvalidTokenMintAddress));
    }
    let vault_a = vec![remaining[0].key, remaining[1].key, remaining[2].key, remaining[3].key];
    let b = BaseRegistration {
        keys: FlowKeys {
            user_wallet: accounts.user_wallet,
            user_wsol_account: accounts.user_wsol_account,
            user_donut_account: accounts.user_donut_account,
            wsol_mint: accounts.wsol_mint,
            pool: accounts.pool,
            b_vault: accounts.b_vault,
            b_token_vault: accounts.b_token_vault,
            b_vault_lp_mint: accounts.b_vault_lp_mint,
            b_vault_lp: accounts.b_vault_lp,
            vault_program: accounts.vault_program,
            token_mint: accounts.token_mint,
            protocol_token_fee: accounts.protocol_token_fee,
            amm_program: accounts.amm_program,
            token_program: accounts.token_program,
            system_program: accounts.system_program,
            associated_token_program: accounts.associated_token_program,
        },
        vault_a,
        state,
        user,
        deposit_amount,
        stage: BaseStage::BurnBefore,
    };
    proof {
        assert(user_v(b.user).5 =~= Seq::<(Seq<u8>, Seq<u8>)>::empty());
        assert(b.vault_a@.len() == 4);
        assert(keys_v(b.vault_a@) =~= seq![remaining@[0].key@, remaining@[1].key@, remaining@[2].key@, remaining@[3].key@]);
    }
    Ok((b, effs, Request::ReadAccount(AccountRef::UserDonut)))
}

impl BaseRegistration {
    /// Goes on with the registration given the runtime's answer `ev` to the
    /// pending request. An answer of the wrong kind, or any answer once the
    /// registration is over, fails with `OutOfBounds`.
    pub fn step(&mut self, ev: Event) -> (r: BaseResult)
        requires
            base_wf(old(self)@),
        ensures
            base_result(final(self)@, r, base_step(old(self)@, ev)),
            base_wf(final(self)@),
    {
        let stage = self.stage;
        match stage {
            BaseStage::BurnBefore => match ev {
                Event::Account(a) => match read_and_validate_token_account(&a, &self.keys.token_mint, &self.keys.user_wallet) {
                    Err(x) => Err(Failure::Code(x)),
                    Ok(before) => {
                        let mut effs: Vec<Effect> = Vec::new();
                        effs.push(Effect::Swap { amount_in: self.deposit_amount, minimum_out: 1 });
                        self.stage = BaseStage::BurnAfter { before };
                        proof { assert(self@ =~= BaseView { stage: BaseStage::BurnAfter { before }, ..old(self)@ }); }
                        Ok((effs, Request::ReadAccount(AccountRef::UserDonut)))
                    },
                },
                _ => Err(Failure::OutOfBounds),
            },
            BaseStage::BurnAfter { before } => match ev {
                Event::Account(a) => match read_and_validate_token_account(&a, &self.keys.token_mint, &self.keys.user_wallet) {
                    Err(x) => Err(Failure::Code(x)),
                    Ok(after) => match swap_received(before, after) {
                        Err(x) => Err(Failure::Code(x)),
                        Ok(received) => {
                            let mut effs: Vec<Effect> = Vec::new();
                            effs.push(Effect::Burn { amount: received });
                            self.stage = BaseStage::Finished;
                            proof { assert(self@ =~= BaseView { stage: BaseStage::Finished, ..old(self)@ }); }
                            Ok((effs, Request::Finish))
                        },
                    },
                },
                _ => Err(Failure::OutOfBounds),
            },
            BaseStage::Finished => Err(Failure::OutOfBounds),
        }
    }
}

} // verus!
