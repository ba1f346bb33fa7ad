use vstd::prelude::*;
use vstd::slice::slice_subrange;
use crate::airdrop::user_exists_in_airdrop;
use crate::cascade::{count_total_notifications, count_upline_airdrop_pdas, snapshot_keys, validate_upline_pairs};
use crate::checks::{
    effective_sol_price, verify_all_fixed_addresses, verify_chainlink_addresses, verify_program_addresses,
    verify_vault_a_addresses,
};
use crate::codec::{decode_user_account, encode_user_account, user_v};
use crate::deposit::{
    after_burn_placed, after_loop, after_referrer_notify, after_upline_burn, after_upline_notify, begin_burn,
    cascade_start, deposit_step, deposit_wf, run_wf, stage_ok, final_check, finish, finish_visit, in_visit, initial_view, next_pair,
    on_burn_after, on_burn_before, on_minimum, on_notify_clock, on_notify_remaining, on_price, on_upline, on_wsol_len,
    pause, post_referrer, referrer_chain, resume_at, route_slot, spec_deposit_prechecks, step_result,
    upline_slot, will_have_upline_notifications, Cascade, DepositContext, DepositRegistration, DepositView,
    RegisterWithSolDeposit, StepResult, NOTICE_AIRDROP_START, UPLINE_AIRDROP_START,
};
use crate::effects::{effects_v, lemma_effects_empty, lemma_effects_push, AccountRef, Effect, FlowKeys};
use crate::error::{ErrorCode, Failure};
use crate::flow::{Event, Request, Resume, Stage};
use crate::key::{known_address, same_key, Key, KnownAddress};
use crate::matrix::{lemma_empty_v, lemma_extend_entries, lemma_places_v, new_referred_user, place_in_chain, reset_chain};
use crate::notify::{keys_v, lemma_keys_push, notify_begin, notify_finish, NotifyStart};
use crate::state::{AccountSnapshot, SlotFilled, UplineEntry, UserAccount, MAX_UPLINE_DEPTH};
use crate::token::{read_and_validate_token_account, swap_received};

verus! {

broadcast use lemma_effects_push, lemma_effects_empty, lemma_keys_push;

/// Whether `keys` holds `k`.
fn contains_key(keys: &Vec<Key>, k: &Key) -> (r: bool)
    ensures
        r == keys_v(keys@).contains(k@),
{
    let mut i: usize = 0;
    while i < keys.len()
        invariant
            0 <= i <= keys@.len(),
            forall|j: int| 0 <= j < i ==> keys@[j]@ != k@,
        decreases keys@.len() - i,
    {
        if same_key(&keys[i], k) {
            proof { assert(keys_v(keys@)[i as int] == k@); }
            return true;
        }
        i = i + 1;
    }
    proof {
        assert forall|j: int| 0 <= j < keys_v(keys@).len() implies keys_v(keys@)[j] != k@ by {
            assert(keys_v(keys@)[j] == keys@[j]@);
        }
    }
    false
}

/// The addresses of `accts`, in order.
fn account_keys(accts: &Vec<AccountSnapshot>) -> (r: Vec<Key>)
    ensures
        keys_v(r@) == snapshot_keys(accts@),
{
    let mut r: Vec<Key> = Vec::new();
    let mut i: usize = 0;
    while i < accts.len()
        invariant
            0 <= i <= accts@.len(),
            keys_v(r@) == snapshot_keys(accts@.take(i as int)),
        decreases accts@.len() - i,
    {
        proof {
            assert(snapshot_keys(accts@.take(i + 1)) =~= snapshot_keys(accts@.take(i as int)).push(accts@[i as int].key@));
        }
        r.push(accts[i].key);
        i = i + 1;
    }
    proof { assert(accts@.take(accts@.len() as int) =~= accts@); }
    r
}

/// A copy of `data`.
fn copy_bytes(data: &Vec<u8>) -> (r: Vec<u8>)
    ensures
        r@ == data@,
{
    let mut r: Vec<u8> = Vec::new();
    let mut i: usize = 0;
    while i < data.len()
        invariant
            0 <= i <= data@.len(),
            r@ == data@.take(i as int),
        decreases data@.len() - i,
    {
        proof { assert(data@.take(i + 1) =~= data@.take(i as int).push(data@[i as int])); }
        r.push(data[i]);
        i = i + 1;
    }
    proof { assert(data@.take(data@.len() as int) =~= data@); }
    r
}

/// Starts a registration under a referrer with a SOL deposit: checks that
/// the referrer is registered (and, while the airdrop runs, has an airdrop
/// account), that vault A and the price feed accounts are present, and that
/// vault A, the pool, vault B, the mints, the programs and the price feed are
/// the known ones; then asks for the price.
pub fn register_with_sol_deposit(
    accounts: RegisterWithSolDeposit,
    remaining: Vec<AccountSnapshot>,
    deposit_amount: u64,
) -> (r: Result<(DepositRegistration, Request), Failure>)
    ensures
        match spec_deposit_prechecks(accounts, remaining@) {
            Err(x) => r matches Err(y) && y == x,
            Ok(()) => r matches Ok((d, q)) && d@ == initial_view(accounts, remaining@, deposit_amount)
                && q == Request::ReadPrice && deposit_wf(d@),
        },
{
    if !accounts.referrer.is_registered {
        return Err(Failure::Code(ErrorCode::ReferrerNotRegistered));
    }
    if accounts.state.airdrop_active {
        match user_exists_in_airdrop(&remaining, &accounts.referrer_wallet) {
            Err(x) => return Err(x),
            Ok(false) => return Err(Failure::Code(ErrorCode::UserNotRegisteredInAirdrop)),
            Ok(true) => {},
        }
    }
    if remaining.len() < 6 {
        return Err(Failure::Code(ErrorCode::MissingVaultAAccounts));
    }
    if let Err(x) = verify_vault_a_addresses(&remaining[0].key, &remaining[1].key, &remaining[2].key, &remaining[3].key) {
        return Err(Failure::Code(x));
    }
    if let Err(x) = verify_all_fixed_addresses(
        &accounts.pool,
        &accounts.b_vault,
        &accounts.b_token_vault,
        &accounts.b_vault_lp_mint,
        &accounts.b_vault_lp,
        &accounts.token_mint,
        &accounts.wsol_mint,
    ) {
        return Err(Failure::Code(x));
    }
    if let Err(x) = verify_program_addresses(&accounts.vault_program, &accounts.amm_program, &accounts.protocol_token_fee) {
        return Err(Failure::Code(x));
    }
    if let Err(x) = verify_chainlink_addresses(&remaining[5].key, &remaining[4].key) {
        return Err(Failure::Code(x));
    }
    let vault_a = vec![remaining[0].key, remaining[1].key, remaining[2].key, remaining[3].key];
    let ctx = DepositContext {
        keys: FlowKeys {
            user_wallet: accounts.user_wallet,
            user_wsol_account: accounts.user_wsol_account,
            user_donut_account: accounts.user_donut_account,
            wsol_mint: accounts.wsol_mint,
            pool: accounts.pool,
            b_vault: accounts.b_vault,
            b_token_vault: accounts.b_token_vault,
            b_vault_lp_mint: accounts.b_vault_lp_mint,
            b_vault_lp: accounts.b_vault_lp,
            vault_program: accounts.vault_program,
            token_mint: accounts.token_mint,
            protocol_token_fee: accounts.protocol_token_fee,
            amm_program: accounts.amm_program,
            token_program: accounts.token_program,
            system_program: accounts.system_program,
            associated_token_program: accounts.associated_token_program,
        },
        referrer_key: accounts.referrer_key,
        referrer_wallet: accounts.referrer_wallet,
        referrer_wallet_owner: accounts.referrer_wallet_owner,
        user_key: accounts.user,
        user_wsol_data_len: accounts.user_wsol_data_len,
        program_sol_vault: accounts.program_sol_vault,
    };
    let slot_idx = accounts.referrer.chain.filled_slots;
    let referrer_key = accounts.referrer_key;
    let d = DepositRegistration {
        ctx,
        state: accounts.state,
        referrer: accounts.referrer,
        remaining,
        vault_a,
        deposit_amount,
        stage: Stage::AwaitPrice,
        slot_idx,
        user: None,
        cascade: Cascade {
            current_user: referrer_key,
            current_deposit: 0,
            wsol_closed: false,
            allocated: false,
            total_notifications: 0,
            notifications_made: 0,
            upline_start: 0,
            pair_count: 0,
            pair: 0,
            upline_key: referrer_key,
        },
        processed: Vec::new(),
        upline: None,
        upline_data_len: 0,
        notify_keys: Vec::new(),
        notify_data: Vec::new(),
    };
    proof {
        assert(keys_v(d.vault_a@) =~= initial_view(accounts, d.remaining@, deposit_amount).vault_a);
        assert(keys_v(d.processed@) =~= Seq::<Seq<u8>>::empty());
        assert(keys_v(d.notify_keys@) =~= Seq::<Seq<u8>>::empty());
        assert(d@ =~= initial_view(accounts, d.remaining@, deposit_amount));
    }
    Ok((d, Request::ReadPrice))
}

impl DepositRegistration {
    fn pause(&mut self, effs: Vec<Effect>, stage: Stage, q: Request) -> (r: StepResult)
        requires
            run_wf(old(self)@),
            stage_ok(stage, old(self)@),
        ensures
            step_result(final(self)@, r, pause(old(self)@, effects_v(effs@), stage, q)),
            deposit_wf(final(self)@),
    {
        self.stage = stage;
        proof { assert(self@ =~= DepositView { stage, ..old(self)@ }); }
        Ok((effs, q))
    }

    fn finish(&mut self, effs: Vec<Effect>) -> (r: StepResult)
        requires
            run_wf(old(self)@),
            old(self).user is Some,
        ensures
            step_result(final(self)@, r, finish(old(self)@, effects_v(effs@))),
            deposit_wf(final(self)@),
    {
        self.pause(effs, Stage::Finished, Request::Finish)
    }

    fn begin_burn(&mut self, effs: Vec<Effect>, amount: u64, resume: Resume) -> (r: StepResult)
        requires
            run_wf(old(self)@),
            old(self).user is Some,
            in_visit(resume) ==> old(self).upline is Some,
        ensures
            step_result(final(self)@, r, begin_burn(old(self)@, effects_v(effs@), amount, resume)),
            r is Ok ==> deposit_wf(final(self)@),
    {
        if !same_key(&self.ctx.keys.token_mint, &known_address(KnownAddress::TokenMint)) {
            return Err(Failure::Code(ErrorCode::InvalidTokenMintAddress));
        }
        self.pause(effs, Stage::BurnBefore { amount, resume }, Request::ReadAccount(AccountRef::UserDonut))
    }

    fn final_check(&mut self, effs: Vec<Effect>) -> (r: StepResult)
        requires
            run_wf(old(self)@),
            old(self).user is Some,
        ensures
            step_result(final(self)@, r, final_check(old(self)@, effects_v(effs@))),
            r is Ok ==> deposit_wf(final(self)@),
    {
        if self.cascade.current_deposit > 0 || !self.cascade.allocated {
            return Err(Failure::Code(ErrorCode::UnusedDepositDetected));
        }
        if !self.cascade.wsol_closed {
            self.pause(effs, Stage::AwaitWsolLen, Request::ReadAccount(AccountRef::UserWsol))
        } else {
            self.finish(effs)
        }
    }

    fn after_burn_placed(&mut self, effs: Vec<Effect>) -> (r: StepResult)
        requires
            run_wf(old(self)@),
            old(self).user is Some,
        ensures
            step_result(final(self)@, r, after_burn_placed(old(self)@, effects_v(effs@))),
            r is Ok ==> deposit_wf(final(self)@),
    {
        self.cascade.allocated = true;
        self.cascade.current_deposit = 0;
        self.final_check(effs)
    }

    fn after_loop(&mut self, effs: Vec<Effect>) -> (r: StepResult)
        requires
            run_wf(old(self)@),
            old(self).user is Some,
        ensures
            step_result(final(self)@, r, after_loop(old(self)@, effects_v(effs@))),
            r is Ok ==> deposit_wf(final(self)@),
    {
        if !self.cascade.allocated && self.cascade.current_deposit > 0 {
            let d = self.cascade.current_deposit;
            let mut effs = effs;
            if self.cascade.wsol_closed {
                effs.push(Effect::WrapTransfer { lamports: d });
                effs.push(Effect::SyncNative);
            }
            self.cascade.wsol_closed = false;
            self.begin_burn(effs, d, Resume::LeftoverBurn)
        } else {
            self.final_check(effs)
        }
    }
    fn next_pair(&mut self, effs: Vec<Effect>, p0: usize) -> (r: StepResult)
        requires
            run_wf(old(self)@),
            old(self).user is Some,
            old(self).cascade.notifications_made <= p0 + 1,
        ensures
            step_result(final(self)@, r, next_pair(old(self)@, effects_v(effs@), p0)),
            r is Ok ==> deposit_wf(final(self)@),
    {
        let count = self.cascade.pair_count;
        let ghost v = self@;
        let ghost e = effects_v(effs@);
        let mut p = p0;
        while p < count && (p >= MAX_UPLINE_DEPTH || self.cascade.current_deposit == 0) && !self.cascade.allocated
            invariant
                v == self@,
                run_wf(v),
                count == self.cascade.pair_count,
                p0 <= p,
                next_pair(v, e, p) == next_pair(v, e, p0),
            decreases count - p,
        {
            p = p + 1;
        }
        if p >= count || p >= MAX_UPLINE_DEPTH || self.cascade.current_deposit == 0 {
            return self.after_loop(effs);
        }
        let len = self.remaining.len();
        assert(self.cascade.upline_start + 2 * p < len);
        let idx = self.cascade.upline_start + 2 * p;
        self.cascade.pair = p;
        self.pause(effs, Stage::AwaitUpline { pair: p }, Request::ReadAccount(AccountRef::Remaining(idx)))
    }

    fn cascade_start(&mut self, effs: Vec<Effect>) -> (r: StepResult)
        requires
            run_wf(old(self)@),
            old(self).user is Some,
        ensures
            step_result(final(self)@, r, cascade_start(old(self)@, effects_v(effs@))),
            r is Ok ==> deposit_wf(final(self)@),
    {
        let dep = self.deposit_amount;
        let n_air = count_upline_airdrop_pdas(&self.remaining, UPLINE_AIRDROP_START);
        let start = UPLINE_AIRDROP_START + n_air;
        self.cascade = Cascade {
            current_user: self.ctx.referrer_key,
            current_deposit: dep,
            wsol_closed: false,
            allocated: false,
            total_notifications: 1,
            notifications_made: 1,
            upline_start: start,
            pair_count: 0,
            pair: 0,
            upline_key: self.ctx.referrer_key,
        };
        self.upline = None;
        if self.referrer.referrer.is_none() {
            if dep > 0 {
                self.begin_burn(effs, dep, Resume::BaseBurn)
            } else {
                self.final_check(effs)
            }
        } else if !(self.remaining.len() > start && dep > 0) {
            Err(Failure::Code(ErrorCode::UplineRequiredForNonBase))
        } else {
            match validate_upline_pairs(&self.remaining, start, &self.referrer.upline.upline) {
                Err(x) => Err(Failure::Code(x)),
                Ok(n) => {
                    let total = count_total_notifications(&self.remaining, start, n);
                    self.cascade.pair_count = n;
                    self.cascade.total_notifications = total;
                    self.next_pair(effs, 0)
                },
            }
        }
    }

    fn post_referrer(&mut self, effs: Vec<Effect>, completed: bool) -> (r: StepResult)
        requires
            run_wf(old(self)@),
            old(self).user is Some,
        ensures
            step_result(final(self)@, r, post_referrer(old(self)@, effects_v(effs@), completed)),
            r is Ok ==> deposit_wf(final(self)@),
    {
        if completed && self.state.next_chain_id == u32::MAX {
            return Err(Failure::Overflow);
        }
        if completed {
            self.state.next_chain_id = self.state.next_chain_id + 1;
        }
        if completed && self.slot_idx == 2 {
            self.cascade_start(effs)
        } else {
            self.finish(effs)
        }
    }

    fn after_referrer_notify(&mut self, effs: Vec<Effect>) -> (r: StepResult)
        requires
            run_wf(old(self)@),
            old(self).user is Some,
        ensures
            step_result(final(self)@, r, after_referrer_notify(old(self)@, effects_v(effs@))),
            r is Ok ==> deposit_wf(final(self)@),
    {
        let id = self.state.next_chain_id;
        reset_chain(&mut self.referrer.chain, id);
        proof { lemma_empty_v(self.referrer.chain, id); }
        self.post_referrer(effs, true)
    }

    fn will_have_upline_notifications(&self) -> (r: bool)
        ensures
            r == will_have_upline_notifications(self@),
    {
        if self.slot_idx != 2 || self.referrer.referrer.is_none() {
            return false;
        }
        let ps = NOTICE_AIRDROP_START + count_upline_airdrop_pdas(&self.remaining, NOTICE_AIRDROP_START);
        self.remaining.len() > ps && self.remaining.len() - ps >= 2
    }

    fn referrer_chain(&mut self, effs: Vec<Effect>) -> (r: StepResult)
        requires
            run_wf(old(self)@),
            old(self).user is Some,
        ensures
            step_result(final(self)@, r, referrer_chain(old(self)@, effects_v(effs@))),
            r is Ok ==> deposit_wf(final(self)@),
    {
        let filled = self.referrer.chain.filled_slots;
        if filled >= 3 {
            return self.post_referrer(effs, false);
        }
        let is_last = self.slot_idx == 2 && !self.will_have_upline_notifications();
        let chain_id = self.referrer.chain.id;
        let user_key = self.ctx.user_key;
        let ghost before = self.referrer.chain;
        let _ = place_in_chain(&mut self.referrer.chain, user_key);
        proof { lemma_places_v(before, user_key, self.referrer.chain); }
        let mut effs = effs;
        effs.push(Effect::Emit(SlotFilled { slot_idx: filled, chain_id, user: user_key, owner: self.ctx.referrer_key }));
        if filled + 1 == 3 {
            if !self.state.airdrop_active {
                self.after_referrer_notify(effs)
            } else {
                let wallet = self.ctx.referrer_wallet;
                self.pause(
                    effs,
                    Stage::NotifyRemaining { wallet, is_last, resume: Resume::ReferrerNotify },
                    Request::ReadRemaining,
                )
            }
        } else {
            self.post_referrer(effs, false)
        }
    }

    fn route_slot(&mut self, effs: Vec<Effect>) -> (r: StepResult)
        requires
            run_wf(old(self)@),
            old(self).user is Some,
        ensures
            step_result(final(self)@, r, route_slot(old(self)@, effects_v(effs@))),
            r is Ok ==> deposit_wf(final(self)@),
    {
        let dep = self.deposit_amount;
        let mut effs = effs;
        if self.slot_idx == 0 {
            effs.push(Effect::WrapTransfer { lamports: dep });
            effs.push(Effect::SyncNative);
            self.begin_burn(effs, dep, Resume::SlotBurn)
        } else if self.slot_idx == 1 {
            effs.push(Effect::CloseWsol);
            effs.push(Effect::ReserveSol { vault: self.ctx.program_sol_vault, lamports: dep });
            self.referrer.reserved_sol = dep;
            self.referrer_chain(effs)
        } else if self.slot_idx == 2 {
            if self.referrer.referrer.is_some() {
                let n = count_upline_airdrop_pdas(&self.remaining, UPLINE_AIRDROP_START);
                if self.remaining.len() <= UPLINE_AIRDROP_START + n {
                    return Err(Failure::Code(ErrorCode::UplineRequiredForNonBase));
                }
            }
            let reserved = self.referrer.reserved_sol;
            if reserved > 0 {
                if !same_key(&self.ctx.referrer_wallet, &self.referrer.owner_wallet) {
                    return Err(Failure::Code(ErrorCode::InvalidAccountOwner));
                }
                if !same_key(&self.ctx.referrer_wallet_owner, &known_address(KnownAddress::SystemProgram)) {
                    return Err(Failure::Code(ErrorCode::PaymentWalletInvalid));
                }
                effs.push(Effect::PayFromVault {
                    vault: self.ctx.program_sol_vault,
                    to: AccountRef::ReferrerWallet,
                    to_key: self.ctx.referrer_wallet,
                    lamports: reserved,
                });
            }
            self.referrer.reserved_sol = 0;
            effs.push(Effect::WrapTransfer { lamports: dep });
            effs.push(Effect::SyncNative);
            self.referrer_chain(effs)
        } else {
            self.referrer_chain(effs)
        }
    }
    /// Takes the record of the upline account at hand.
    fn take_upline(&mut self) -> (u: UserAccount)
        requires
            old(self).upline is Some,
        ensures
            Some(user_v(u)) == old(self)@.upline,
            final(self)@ == (DepositView { upline: None, ..old(self)@ }),
    {
        let t = self.upline.take();
        proof { assert(self@ =~= DepositView { upline: None, ..old(self)@ }); }
        t.unwrap()
    }

    fn finish_visit(&mut self, effs: Vec<Effect>) -> (r: StepResult)
        requires
            run_wf(old(self)@),
            old(self).user is Some,
            old(self).upline is Some,
        ensures
            step_result(final(self)@, r, finish_visit(old(self)@, effects_v(effs@))),
            r is Ok ==> deposit_wf(final(self)@),
    {
        let bytes = match &self.upline {
            Some(u) => encode_user_account(u),
            None => Vec::new(),
        };
        let room = self.upline_data_len - 8;
        if bytes.len() > room {
            return Err(Failure::Serialize);
        }
        let mut effs = effs;
        let n = self.remaining.len();
        assert(self.cascade.upline_start + 2 * self.cascade.pair < n);
        let target = self.cascade.upline_start + 2 * self.cascade.pair;
        effs.push(Effect::WriteUserAccount { target, bytes });
        if self.cascade.allocated {
            self.after_loop(effs)
        } else {
            let next = self.cascade.pair + 1;
            self.next_pair(effs, next)
        }
    }

    fn after_upline_burn(&mut self, effs: Vec<Effect>) -> (r: StepResult)
        requires
            run_wf(old(self)@),
            old(self).user is Some,
            old(self).upline is Some,
        ensures
            step_result(final(self)@, r, after_upline_burn(old(self)@, effects_v(effs@))),
            r is Ok ==> deposit_wf(final(self)@),
    {
        self.cascade.allocated = true;
        self.cascade.current_deposit = 0;
        self.finish_visit(effs)
    }

    fn after_upline_notify(&mut self, effs: Vec<Effect>) -> (r: StepResult)
        requires
            run_wf(old(self)@),
            old(self).user is Some,
            old(self).upline is Some,
        ensures
            step_result(final(self)@, r, after_upline_notify(old(self)@, effects_v(effs@))),
            r is Ok ==> deposit_wf(final(self)@),
    {
        if self.state.next_chain_id == u32::MAX {
            return Err(Failure::Overflow);
        }
        let id = self.state.next_chain_id;
        self.state.next_chain_id = id + 1;
        let mut u = self.take_upline();
        reset_chain(&mut u.chain, id);
        proof { lemma_empty_v(u.chain, id); }
        self.upline = Some(u);
        self.cascade.current_user = self.cascade.upline_key;
        self.finish_visit(effs)
    }

    fn upline_slot(&mut self, effs: Vec<Effect>, slot: u8, widx: usize) -> (r: StepResult)
        requires
            run_wf(old(self)@),
            old(self).user is Some,
            old(self).upline is Some,
            widx == old(self).cascade.upline_start + 2 * old(self).cascade.pair + 1,
            old(self).cascade.notifications_made <= old(self).cascade.pair + 1,
        ensures
            step_result(final(self)@, r, upline_slot(old(self)@, effects_v(effs@), slot, old(self)@.remaining[widx as int])),
            r is Ok ==> deposit_wf(final(self)@),
    {
        let c = self.cascade;
        let wallet_key = self.remaining[widx].key;
        let mut effs = effs;
        if slot == 0 {
            if !c.wsol_closed {
                self.begin_burn(effs, c.current_deposit, Resume::UplineBurn)
            } else {
                self.after_upline_burn(effs)
            }
        } else if slot == 1 {
            if !c.wsol_closed {
                effs.push(Effect::CloseWsol);
            }
            effs.push(Effect::ReserveSol { vault: self.ctx.program_sol_vault, lamports: c.current_deposit });
            let mut u = self.take_upline();
            u.reserved_sol = c.current_deposit;
            self.upline = Some(u);
            self.cascade.wsol_closed = true;
            self.cascade.allocated = true;
            self.cascade.current_deposit = 0;
            self.finish_visit(effs)
        } else {
            let mut u = self.take_upline();
            if u.reserved_sol > 0 {
                effs.push(Effect::PayFromVault {
                    vault: self.ctx.program_sol_vault,
                    to: AccountRef::Remaining(widx),
                    to_key: wallet_key,
                    lamports: u.reserved_sol,
                });
            }
            u.reserved_sol = 0;
            self.upline = Some(u);
            let made = c.notifications_made + 1;
            let is_last = made == c.total_notifications;
            self.cascade.notifications_made = made;
            if !self.state.airdrop_active {
                self.after_upline_notify(effs)
            } else {
                self.pause(
                    effs,
                    Stage::NotifyRemaining { wallet: wallet_key, is_last, resume: Resume::UplineNotify },
                    Request::ReadRemaining,
                )
            }
        }
    }

    fn on_upline(&mut self, a: AccountSnapshot) -> (r: StepResult)
        requires
            deposit_wf(old(self)@),
            old(self).user is Some,
            old(self).stage is AwaitUpline,
        ensures
            step_result(final(self)@, r, on_upline(old(self)@, a)),
            r is Ok ==> deposit_wf(final(self)@),
    {
        let c = self.cascade;
        let n = self.remaining.len();
        assert(c.upline_start + 2 * c.pair + 1 < n);
        let widx = c.upline_start + 2 * c.pair + 1;
        if contains_key(&self.processed, &a.key) {
            return Err(Failure::Code(ErrorCode::DuplicateUplineExploit));
        }
        if !same_key(&self.remaining[widx].owner, &known_address(KnownAddress::SystemProgram)) {
            return Err(Failure::Code(ErrorCode::PaymentWalletInvalid));
        }
        if !same_key(&a.owner, &known_address(KnownAddress::MatrixProgram)) {
            return Err(Failure::Code(ErrorCode::InvalidSlotOwner));
        }
        let len = a.data.len();
        if len <= 8 {
            return Err(Failure::InvalidAccountData);
        }
        let body = slice_subrange(a.data.as_slice(), 8, len);
        proof { assert(body@ =~= a.data@.skip(8)); }
        let mut u = match decode_user_account(body) {
            Some(u) => u,
            None => return Err(Failure::Deserialize),
        };
        if !u.is_registered {
            return Err(Failure::Code(ErrorCode::SlotNotRegistered));
        }
        let slot = u.chain.filled_slots;
        if slot >= 3 {
            return Err(Failure::OutOfBounds);
        }
        let chain_id = u.chain.id;
        let ghost before = u.chain;
        let _ = place_in_chain(&mut u.chain, c.current_user);
        proof { lemma_places_v(before, c.current_user, u.chain); }
        let mut effs: Vec<Effect> = Vec::new();
        effs.push(Effect::Emit(SlotFilled { slot_idx: slot, chain_id, user: c.current_user, owner: a.key }));
        self.processed.push(a.key);
        self.upline = Some(u);
        self.upline_data_len = len;
        self.cascade.upline_key = a.key;
        self.upline_slot(effs, slot, widx)
    }

    fn resume_at(&mut self, effs: Vec<Effect>, resume: Resume) -> (r: StepResult)
        requires
            run_wf(old(self)@),
            old(self).user is Some,
            in_visit(resume) ==> old(self).upline is Some,
        ensures
            step_result(final(self)@, r, resume_at(old(self)@, effects_v(effs@), resume)),
            r is Ok ==> deposit_wf(final(self)@),
    {
        match resume {
            Resume::SlotBurn => self.referrer_chain(effs),
            Resume::ReferrerNotify => self.after_referrer_notify(effs),
            Resume::BaseBurn => self.after_burn_placed(effs),
            Resume::UplineBurn => self.after_upline_burn(effs),
            Resume::UplineNotify => self.after_upline_notify(effs),
            Resume::LeftoverBurn => self.after_burn_placed(effs),
        }
    }
    fn on_price(&mut self, answer: i128, decimals: u32, now: i64, feed_timestamp: i64) -> (r: StepResult)
        requires
            deposit_wf(old(self)@),
        ensures
            step_result(final(self)@, r, on_price(old(self)@, answer, decimals, now, feed_timestamp)),
            r is Ok ==> deposit_wf(final(self)@),
    {
        match effective_sol_price(answer, decimals, now, feed_timestamp) {
            Err(x) => Err(x),
            Ok((price, places)) => self.pause(Vec::new(), Stage::AwaitMinimum, Request::ComputeMinimum { price, decimals: places }),
        }
    }

    fn on_minimum(&mut self, minimum: u64) -> (r: StepResult)
        requires
            deposit_wf(old(self)@),
        ensures
            step_result(final(self)@, r, on_minimum(old(self)@, minimum)),
            r is Ok ==> deposit_wf(final(self)@),
    {
        if self.deposit_amount < minimum {
            return Err(Failure::Code(ErrorCode::InsufficientDeposit));
        }
        if self.state.next_upline_id == u32::MAX || self.state.next_chain_id == u32::MAX || self.referrer.upline.depth == 255 {
            return Err(Failure::Overflow);
        }
        let upline_id = self.state.next_upline_id;
        let chain_id = self.state.next_chain_id;
        let u = new_referred_user(
            self.ctx.keys.user_wallet,
            self.ctx.referrer_key,
            self.ctx.referrer_wallet,
            &self.referrer,
            upline_id,
            chain_id,
        );
        proof {
            lemma_extend_entries(
                self.referrer.upline.upline@,
                UplineEntry { pda: self.ctx.referrer_key, wallet: self.ctx.referrer_wallet },
            );
            lemma_empty_v(u.chain, chain_id);
        }
        self.user = Some(u);
        self.state.next_upline_id = upline_id + 1;
        self.state.next_chain_id = chain_id + 1;
        let mut effs: Vec<Effect> = Vec::new();
        if self.ctx.user_wsol_data_len == 0 {
            effs.push(Effect::CreateWsolAccount);
        }
        self.route_slot(effs)
    }

    fn on_burn_before(&mut self, amount: u64, resume: Resume, a: AccountSnapshot) -> (r: StepResult)
        requires
            deposit_wf(old(self)@),
            old(self).user is Some,
            in_visit(resume) ==> old(self).upline is Some,
        ensures
            step_result(final(self)@, r, on_burn_before(old(self)@, amount, resume, a)),
            r is Ok ==> deposit_wf(final(self)@),
    {
        match read_and_validate_token_account(&a, &self.ctx.keys.token_mint, &self.ctx.keys.user_wallet) {
            Err(x) => Err(Failure::Code(x)),
            Ok(before) => {
                let mut effs: Vec<Effect> = Vec::new();
                effs.push(Effect::Swap { amount_in: amount, minimum_out: 1 });
                self.pause(effs, Stage::BurnAfter { amount, before, resume }, Request::ReadAccount(AccountRef::UserDonut))
            },
        }
    }

    fn on_burn_after(&mut self, before: u64, resume: Resume, a: AccountSnapshot) -> (r: StepResult)
        requires
            deposit_wf(old(self)@),
            old(self).user is Some,
            in_visit(resume) ==> old(self).upline is Some,
        ensures
            step_result(final(self)@, r, on_burn_after(old(self)@, before, resume, a)),
            r is Ok ==> deposit_wf(final(self)@),
    {
        match read_and_validate_token_account(&a, &self.ctx.keys.token_mint, &self.ctx.keys.user_wallet) {
            Err(x) => Err(Failure::Code(x)),
            Ok(after) => match swap_received(before, after) {
                Err(x) => Err(Failure::Code(x)),
                Ok(received) => {
                    let mut effs: Vec<Effect> = Vec::new();
                    effs.push(Effect::Burn { amount: received });
                    self.resume_at(effs, resume)
                },
            },
        }
    }

    fn on_notify_remaining(&mut self, wallet: Key, is_last: bool, resume: Resume, accts: Vec<AccountSnapshot>) -> (r: StepResult)
        requires
            deposit_wf(old(self)@),
            old(self).user is Some,
            in_visit(resume) ==> old(self).upline is Some,
        ensures
            step_result(final(self)@, r, on_notify_remaining(old(self)@, wallet, is_last, resume, accts@)),
            r is Ok ==> deposit_wf(final(self)@),
    {
        match notify_begin(&accts, &wallet, self.state.airdrop_active) {
            Err(x) => Err(x),
            Ok(NotifyStart::Skip) => self.resume_at(Vec::new(), resume),
            Ok(NotifyStart::NeedClock { program_state_account }) => {
                self.notify_keys = account_keys(&accts);
                self.notify_data = copy_bytes(&accts[program_state_account].data);
                self.pause(
                    Vec::new(),
                    Stage::NotifyClock { wallet, is_last, program_state_account, resume },
                    Request::ReadClock,
                )
            },
        }
    }

    fn on_notify_clock(&mut self, wallet: Key, is_last: bool, psa: usize, resume: Resume, now: i64) -> (r: StepResult)
        requires
            deposit_wf(old(self)@),
            old(self).user is Some,
            in_visit(resume) ==> old(self).upline is Some,
        ensures
            step_result(final(self)@, r, on_notify_clock(old(self)@, wallet, is_last, psa, resume, now)),
            r is Ok ==> deposit_wf(final(self)@),
    {
        let r = notify_finish(&self.notify_keys, self.notify_data.as_slice(), &mut self.state, &wallet, is_last, now, psa);
        match r {
            Err(x) => Err(x),
            Ok(None) => self.resume_at(Vec::new(), resume),
            Ok(Some(p)) => {
                let mut effs: Vec<Effect> = Vec::new();
                effs.push(Effect::Notify(p));
                self.resume_at(effs, resume)
            },
        }
    }

    fn on_wsol_len(&mut self, a: AccountSnapshot) -> (r: StepResult)
        requires
            deposit_wf(old(self)@),
            old(self).user is Some,
        ensures
            step_result(final(self)@, r, on_wsol_len(old(self)@, a)),
            r is Ok ==> deposit_wf(final(self)@),
    {
        let mut effs: Vec<Effect> = Vec::new();
        if a.data.len() > 0 {
            effs.push(Effect::CloseWsol);
        }
        self.finish(effs)
    }

    /// Goes on with the registration given the runtime's answer `ev` to the
    /// pending request: gives the effects to carry out, in order, and the
    /// next request, or the failure that ends the instruction. An answer of
    /// the wrong kind, or any answer once the registration is over, fails
    /// with `OutOfBounds`.
    pub fn step(&mut self, ev: Event) -> (r: StepResult)
        requires
            deposit_wf(old(self)@),
        ensures
            step_result(final(self)@, r, deposit_step(old(self)@, ev)),
            r is Ok ==> deposit_wf(final(self)@),
    {
        let stage = self.stage;
        match stage {
            Stage::AwaitPrice => match ev {
                Event::Price { answer, decimals, now, feed_timestamp } => self.on_price(answer, decimals, now, feed_timestamp),
                _ => Err(Failure::OutOfBounds),
            },
            Stage::AwaitMinimum => match ev {
                Event::Minimum(m) => self.on_minimum(m),
                _ => Err(Failure::OutOfBounds),
            },
            Stage::BurnBefore { amount, resume } => match ev {
                Event::Account(a) => self.on_burn_before(amount, resume, a),
                _ => Err(Failure::OutOfBounds),
            },
            Stage::BurnAfter { amount, before, resume } => match ev {
                Event::Account(a) => self.on_burn_after(before, resume, a),
                _ => Err(Failure::OutOfBounds),
            },
            Stage::NotifyRemaining { wallet, is_last, resume } => match ev {
                Event::Remaining(accts) => self.on_notify_remaining(wallet, is_last, resume, accts),
                _ => Err(Failure::OutOfBounds),
            },
            Stage::NotifyClock { wallet, is_last, program_state_account, resume } => match ev {
                Event::Clock(now) => self.on_notify_clock(wallet, is_last, program_state_account, resume, now),
                _ => Err(Failure::OutOfBounds),
            },
            Stage::AwaitUpline { pair } => match ev {
                Event::Account(a) => self.on_upline(a),
                _ => Err(Failure::OutOfBounds),
            },
            Stage::AwaitWsolLen => match ev {
                Event::Account(a) => self.on_wsol_len(a),
                _ => Err(Failure::OutOfBounds),
            },
            Stage::Finished => Err(Failure::OutOfBounds),
        }
    }
}

} // verus!
