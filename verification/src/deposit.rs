use vstd::prelude::*;
use crate::airdrop::{airdrop_pda, spec_user_exists, user_pda_seeds};
use crate::cascade::{airdrop_run, snapshot_keys, spec_total_notifications, spec_validate_pairs};
use crate::checks::{chainlink_checks, check_all, fixed_checks, program_checks, spec_effective_price, vault_a_checks};
use crate::codec::{enc_user, parse_user, user_v, ChainV, UserV};
use crate::effects::{effects_v, AccountRef, Effect, EffectV, FlowKeys};
use crate::error::{ErrorCode, Failure};
use crate::flow::{Event, Request, Resume, Stage};
use crate::key::{known_bytes, Key, KnownAddress};
use crate::matrix::{empty_chain_v, place_v, spec_extend_entries};
use crate::notify::{keys_v, spec_notify_begin, spec_notify_finish, status_after, NotifyStart};
use crate::state::{AccountSnapshot, ProgramState, SlotFilled, UserAccount, MAX_UPLINE_DEPTH};
use crate::token::spec_token_balance;

verus! {

/// Position of the first remaining account after the vault A accounts, the
/// price feed accounts, the referrer's slot and the seven airdrop accounts.
pub const UPLINE_AIRDROP_START: usize = 14;

/// The same position as counted when deciding whether more notices follow
/// (without the referrer's slot).
pub const NOTICE_AIRDROP_START: usize = 13;

/// The accounts of a registration under a referrer, as plain values.
#[derive(Debug)]
pub struct RegisterWithSolDeposit {
    pub state: ProgramState,
    pub user_wallet: Key,
    pub referrer: UserAccount,
    /// Address of the referrer's account.
    pub referrer_key: Key,
    pub referrer_wallet: Key,
    /// Owner program of the referrer's wallet.
    pub referrer_wallet_owner: Key,
    /// Address of the new user's account.
    pub user: Key,
    pub user_wsol_account: Key,
    /// Length of the wrapped-SOL account's data when the instruction starts.
    pub user_wsol_data_len: usize,
    pub user_donut_account: Key,
    pub wsol_mint: Key,
    pub pool: Key,
    pub b_vault: Key,
    pub b_token_vault: Key,
    pub b_vault_lp_mint: Key,
    pub b_vault_lp: Key,
    pub vault_program: Key,
    pub program_sol_vault: Key,
    pub token_mint: Key,
    pub protocol_token_fee: Key,
    pub amm_program: Key,
    pub token_program: Key,
    pub system_program: Key,
    pub associated_token_program: Key,
}

/// The addresses a registration under a referrer works with.
#[derive(Clone, Copy, Debug)]
pub struct DepositContext {
    pub keys: FlowKeys,
    pub referrer_key: Key,
    pub referrer_wallet: Key,
    pub referrer_wallet_owner: Key,
    pub user_key: Key,
    pub user_wsol_data_len: usize,
    pub program_sol_vault: Key,
}

/// The bookkeeping of the walk up the upline.
#[derive(Clone, Copy, Debug)]
pub struct Cascade {
    /// The user that takes the next slot.
    pub current_user: Key,
    /// The deposit still to place.
    pub current_deposit: u64,
    pub wsol_closed: bool,
    pub allocated: bool,
    pub total_notifications: usize,
    pub notifications_made: usize,
    /// Position of the first upline pair among the remaining accounts.
    pub upline_start: usize,
    pub pair_count: usize,
    /// The pair being processed.
    pub pair: usize,
    /// Address of the upline account being processed.
    pub upline_key: Key,
}

/// A registration under a referrer, paused at a request to the runtime.
pub struct DepositRegistration {
    pub ctx: DepositContext,
    pub state: ProgramState,
    pub referrer: UserAccount,
    pub remaining: Vec<AccountSnapshot>,
    /// Addresses of the first four remaining accounts (vault A).
    pub vault_a: Vec<Key>,
    pub deposit_amount: u64,
    pub stage: Stage,
    /// The referrer's slot that the new user takes.
    pub slot_idx: u8,
    /// The new user's record, once the deposit has reached the minimum.
    pub user: Option<UserAccount>,
    pub cascade: Cascade,
    /// The upline accounts visited so far.
    pub processed: Vec<Key>,
    /// The record of the upline account at hand.
    pub upline: Option<UserAccount>,
    /// The data length of the upline account at hand.
    pub upline_data_len: usize,
    /// The addresses of the remaining accounts, for the notice under way.
    pub notify_keys: Vec<Key>,
    /// The airdrop state account's data, for the notice under way.
    pub notify_data: Vec<u8>,
}

/// The abstract content of a paused registration.
#[verifier::ext_equal]
pub struct DepositView {
    pub ctx: DepositContext,
    pub state: ProgramState,
    pub referrer: UserV,
    pub remaining: Seq<AccountSnapshot>,
    pub vault_a: Seq<Seq<u8>>,
    pub deposit_amount: u64,
    pub stage: Stage,
    pub slot_idx: u8,
    pub user: Option<UserV>,
    pub cascade: Cascade,
    pub processed: Seq<Seq<u8>>,
    pub upline: Option<UserV>,
    pub upline_data_len: usize,
    pub notify_keys: Seq<Seq<u8>>,
    pub notify_data: Seq<u8>,
}

pub open spec fn opt_user_v(o: Option<UserAccount>) -> Option<UserV> {
    match o {
        Some(u) => Some(user_v(u)),
        None => None,
    }
}

impl View for DepositRegistration {
    type V = DepositView;

    open spec fn view(&self) -> DepositView {
        DepositView {
            ctx: self.ctx,
            state: self.state,
            referrer: user_v(self.referrer),
            remaining: self.remaining@,
            vault_a: keys_v(self.vault_a@),
            deposit_amount: self.deposit_amount,
            stage: self.stage,
            slot_idx: self.slot_idx,
            user: opt_user_v(self.user),
            cascade: self.cascade,
            processed: keys_v(self.processed@),
            upline: opt_user_v(self.upline),
            upline_data_len: self.upline_data_len,
            notify_keys: keys_v(self.notify_keys@),
            notify_data: self.notify_data@,
        }
    }
}

/// The resumption point that a stage carries, if any.
pub open spec fn stage_resume(s: Stage) -> Option<Resume> {
    match s {
        Stage::BurnBefore { resume, .. } => Some(resume),
        Stage::BurnAfter { resume, .. } => Some(resume),
        Stage::NotifyRemaining { resume, .. } => Some(resume),
        Stage::NotifyClock { resume, .. } => Some(resume),
        _ => None,
    }
}

/// Whether a registration that resumes at `r` is in the middle of a visit
/// to an upline account.
pub open spec fn in_visit(r: Resume) -> bool {
    r == Resume::UplineBurn || r == Resume::UplineNotify
}

/// What holds of a registration at every point of its run: vault A and
/// the price feed accounts are there, vault A's addresses are those of the
/// first four remaining accounts, the upline pairs lie within the remaining
/// accounts, at most six pairs are visited and the counters stay small;
/// while an upline account is at hand its record came from an account longer
/// than the 8-byte tag, and its pair is one of the pairs.
pub open spec fn run_wf(v: DepositView) -> bool {
    &&& v.remaining.len() >= 6
    &&& v.vault_a.len() == 4
    &&& forall|i: int| 0 <= i < 4 ==> #[trigger] v.vault_a[i] == v.remaining[i].key@
    &&& (v.cascade.pair_count > 0 ==> v.cascade.upline_start + 2 * v.cascade.pair_count <= v.remaining.len())
    &&& v.cascade.total_notifications <= 1 + MAX_UPLINE_DEPTH
    &&& v.cascade.pair < MAX_UPLINE_DEPTH
    &&& v.cascade.notifications_made <= v.cascade.pair + 2
    &&& (v.upline matches Some(u) ==> u.5.len() <= u32::MAX && v.upline_data_len > 8 && v.cascade.pair < v.cascade.pair_count)
}

/// What a pause at `stage` needs: once the minimum deposit is known the new
/// user's record exists; a pause in the middle of a visit to an upline
/// account keeps its record; a pause for an upline account waits for
/// the pair being visited, before its notice is counted.
pub open spec fn stage_ok(stage: Stage, v: DepositView) -> bool {
    &&& (stage is AwaitPrice || stage is AwaitMinimum || v.user is Some)
    &&& (stage_resume(stage) matches Some(r) && in_visit(r) ==> v.upline is Some)
    &&& (stage matches Stage::AwaitUpline { pair } ==> pair == v.cascade.pair && pair < v.cascade.pair_count
        && v.cascade.notifications_made <= pair + 1)
}

/// A paused registration.
pub open spec fn deposit_wf(v: DepositView) -> bool {
    run_wf(v) && stage_ok(v.stage, v)
}

/// The result of running a registration to its next pause: the
/// registration, the effects to carry out in order, and the request.
pub type Outcome = Result<(DepositView, Seq<EffectV>, Request), Failure>;

/// What a step of the executable registration gives back: the effects to
/// carry out in order and the next request, or the failure.
pub type StepResult = Result<(Vec<Effect>, Request), Failure>;

/// `r` is the outcome `o`, and `after` is the registration it leaves.
pub open spec fn step_result(after: DepositView, r: StepResult, o: Outcome) -> bool {
    match o {
        Ok((v, e, q)) => r matches Ok((effs, q2)) && after == v && effects_v(effs@) == e && q2 == q,
        Err(x) => r matches Err(y) && y == x,
    }
}

pub open spec fn pause(v: DepositView, e: Seq<EffectV>, stage: Stage, q: Request) -> Outcome {
    Ok((DepositView { stage, ..v }, e, q))
}

pub open spec fn finish(v: DepositView, e: Seq<EffectV>) -> Outcome {
    pause(v, e, Stage::Finished, Request::Finish)
}

pub open spec fn with_chain(u: UserV, c: ChainV) -> UserV {
    (u.0, u.1, u.2, u.3, u.4, u.5, c, u.7)
}

pub open spec fn with_reserved(u: UserV, r: u64) -> UserV {
    (u.0, u.1, u.2, u.3, u.4, u.5, u.6, r)
}

pub open spec fn system_bytes() -> Seq<u8> {
    known_bytes(KnownAddress::SystemProgram)
}

// ---------------------------------------------------------------------------
// The registration, step by step.
// ---------------------------------------------------------------------------

/// The checks made before the price is read, in order: the referrer is
/// registered; while the airdrop runs, the referrer's wallet has an airdrop
/// account; vault A and the price feed accounts are present; vault A, the
/// pool, vault B, the mints, the programs and the price feed are the known
/// ones.
pub open spec fn spec_deposit_prechecks(a: RegisterWithSolDeposit, rem: Seq<AccountSnapshot>) -> Result<(), Failure> {
    if !a.referrer.is_registered {
        Err(Failure::Code(ErrorCode::ReferrerNotRegistered))
    } else if a.state.airdrop_active && !(airdrop_pda(user_pda_seeds(a.referrer_wallet@)) matches Some((pda, _)) && spec_user_exists(rem, pda)) {
        if airdrop_pda(user_pda_seeds(a.referrer_wallet@)) is None {
            Err(Failure::NoBumpSeed)
        } else {
            Err(Failure::Code(ErrorCode::UserNotRegisteredInAirdrop))
        }
    } else if rem.len() < 6 {
        Err(Failure::Code(ErrorCode::MissingVaultAAccounts))
    } else if check_all(vault_a_checks(rem[0].key@, rem[1].key@, rem[2].key@, rem[3].key@)) is Err {
        Err(Failure::Code(check_all(vault_a_checks(rem[0].key@, rem[1].key@, rem[2].key@, rem[3].key@))->Err_0))
    } else if check_all(fixed_checks(a.pool@, a.b_vault@, a.b_token_vault@, a.b_vault_lp_mint@, a.b_vault_lp@, a.token_mint@, a.wsol_mint@)) is Err {
        Err(Failure::Code(check_all(fixed_checks(a.pool@, a.b_vault@, a.b_token_vault@, a.b_vault_lp_mint@, a.b_vault_lp@, a.token_mint@, a.wsol_mint@))->Err_0))
    } else if check_all(program_checks(a.vault_program@, a.amm_program@, a.protocol_token_fee@)) is Err {
        Err(Failure::Code(check_all(program_checks(a.vault_program@, a.amm_program@, a.protocol_token_fee@))->Err_0))
    } else if check_all(chainlink_checks(rem[5].key@, rem[4].key@)) is Err {
        Err(Failure::Code(check_all(chainlink_checks(rem[5].key@, rem[4].key@))->Err_0))
    } else {
        Ok(())
    }
}

/// The registration as it starts, waiting for the price: the context of
/// its accounts, the referrer's slot to fill (its matrix's filled count)
/// and an empty walk.
pub open spec fn initial_view(a: RegisterWithSolDeposit, rem: Seq<AccountSnapshot>, deposit_amount: u64) -> DepositView {
    DepositView {
        ctx: DepositContext {
            keys: FlowKeys {
                user_wallet: a.user_wallet,
                user_wsol_account: a.user_wsol_account,
                user_donut_account: a.user_donut_account,
                wsol_mint: a.wsol_mint,
                pool: a.pool,
                b_vault: a.b_vault,
                b_token_vault: a.b_token_vault,
                b_vault_lp_mint: a.b_vault_lp_mint,
                b_vault_lp: a.b_vault_lp,
                vault_program: a.vault_program,
                token_mint: a.token_mint,
                protocol_token_fee: a.protocol_token_fee,
                amm_program: a.amm_program,
                token_program: a.token_program,
                system_program: a.system_program,
                associated_token_program: a.associated_token_program,
            },
            referrer_key: a.referrer_key,
            referrer_wallet: a.referrer_wallet,
            referrer_wallet_owner: a.referrer_wallet_owner,
            user_key: a.user,
            user_wsol_data_len: a.user_wsol_data_len,
            program_sol_vault: a.program_sol_vault,
        },
        state: a.state,
        referrer: user_v(a.referrer),
        remaining: rem,
        vault_a: seq![rem[0].key@, rem[1].key@, rem[2].key@, rem[3].key@],
        deposit_amount,
        stage: Stage::AwaitPrice,
        slot_idx: a.referrer.chain.filled_slots,
        user: None,
        cascade: Cascade {
            current_user: a.referrer_key,
            current_deposit: 0,
            wsol_closed: false,
            allocated: false,
            total_notifications: 0,
            notifications_made: 0,
            upline_start: 0,
            pair_count: 0,
            pair: 0,
            upline_key: a.referrer_key,
        },
        processed: Seq::empty(),
        upline: None,
        upline_data_len: 0,
        notify_keys: Seq::empty(),
        notify_data: Seq::empty(),
    }
}

/// The price step: the feed's answer, with the feed's decimals, is used
/// unless it is more than a day old, when the default price with its own
/// decimals replaces it; the runtime then turns the price into a minimum
/// deposit.
pub open spec fn on_price(v: DepositView, answer: i128, decimals: u32, now: i64, feed_timestamp: i64) -> Outcome {
    if !(i64::MIN <= now - feed_timestamp <= i64::MAX) {
        Err(Failure::Overflow)
    } else {
        let (price, places) = spec_effective_price(answer, decimals, now, feed_timestamp);
        pause(v, Seq::empty(), Stage::AwaitMinimum, Request::ComputeMinimum { price, decimals: places })
    }
}

/// The record of the new user: registered under the referrer, with the
/// referrer's upline extended by the referrer, the next upline and matrix
/// ids, an empty matrix and nothing reserved.
pub open spec fn referred_user_v(v: DepositView) -> UserV {
    (
        true,
        Some(v.ctx.referrer_key@),
        v.ctx.keys.user_wallet@,
        v.state.next_upline_id,
        (v.referrer.4 + 1) as u8,
        spec_extend_entries(v.referrer.5, (v.ctx.referrer_key@, v.ctx.referrer_wallet@)),
        empty_chain_v(v.state.next_chain_id),
        0,
    )
}

/// The minimum-deposit step: the deposit must reach the minimum; the new
/// user gets the next ids (which then advance) and the wrapped-SOL account
/// is created if it has no data; then the deposit goes to the referrer's
/// next slot.
pub open spec fn on_minimum(v: DepositView, minimum: u64) -> Outcome {
    if v.deposit_amount < minimum {
        Err(Failure::Code(ErrorCode::InsufficientDeposit))
    } else if v.state.next_upline_id == u32::MAX || v.state.next_chain_id == u32::MAX || v.referrer.4 == 255 {
        Err(Failure::Overflow)
    } else {
        let v1 = DepositView {
            user: Some(referred_user_v(v)),
            state: ProgramState {
                next_upline_id: (v.state.next_upline_id + 1) as u32,
                next_chain_id: (v.state.next_chain_id + 1) as u32,
                ..v.state
            },
            ..v
        };
        let e = if v.ctx.user_wsol_data_len == 0 { Seq::empty().push(EffectV::CreateWsolAccount) } else { Seq::empty() };
        route_slot(v1, e)
    }
}

/// The start of a swap-and-burn of `amount`: the token mint must be the
/// DONUT mint; then the DONUT account is read.
pub open spec fn begin_burn(v: DepositView, e: Seq<EffectV>, amount: u64, resume: Resume) -> Outcome {
    if v.ctx.keys.token_mint@ != known_bytes(KnownAddress::TokenMint) {
        Err(Failure::Code(ErrorCode::InvalidTokenMintAddress))
    } else {
        pause(v, e, Stage::BurnBefore { amount, resume }, Request::ReadAccount(AccountRef::UserDonut))
    }
}

/// The deposit's use by the referrer's slot: the first slot wraps it and
/// swaps it for DONUT that is burnt; the second reserves it in the vault for
/// the referrer; the third pays the referrer what was reserved, to the
/// referrer's own wallet (which must be a plain wallet), and wraps the
/// deposit (a referrer with a referrer must be given its upline).
pub open spec fn route_slot(v: DepositView, e: Seq<EffectV>) -> Outcome {
    let dep = v.deposit_amount;
    if v.slot_idx == 0 {
        begin_burn(v, e.push(EffectV::WrapTransfer { lamports: dep }).push(EffectV::SyncNative), dep, Resume::SlotBurn)
    } else if v.slot_idx == 1 {
        referrer_chain(
            DepositView { referrer: with_reserved(v.referrer, dep), ..v },
            e.push(EffectV::CloseWsol).push(EffectV::ReserveSol { vault: v.ctx.program_sol_vault@, lamports: dep }),
        )
    } else if v.slot_idx == 2 {
        if v.referrer.1 is Some && v.remaining.len() <= UPLINE_AIRDROP_START + airdrop_run(v.remaining, UPLINE_AIRDROP_START as int, 0) {
            Err(Failure::Code(ErrorCode::UplineRequiredForNonBase))
        } else if v.referrer.7 > 0 && v.ctx.referrer_wallet@ != v.referrer.2 {
            Err(Failure::Code(ErrorCode::InvalidAccountOwner))
        } else if v.referrer.7 > 0 && v.ctx.referrer_wallet_owner@ != system_bytes() {
            Err(Failure::Code(ErrorCode::PaymentWalletInvalid))
        } else {
            let e1 = if v.referrer.7 > 0 {
                e.push(EffectV::PayFromVault {
                    vault: v.ctx.program_sol_vault@,
                    to: AccountRef::ReferrerWallet,
                    to_key: v.ctx.referrer_wallet@,
                    lamports: v.referrer.7,
                })
            } else {
                e
            };
            referrer_chain(
                DepositView { referrer: with_reserved(v.referrer, 0), ..v },
                e1.push(EffectV::WrapTransfer { lamports: dep }).push(EffectV::SyncNative),
            )
        }
    } else {
        referrer_chain(v, e)
    }
}

/// Whether, in the third slot, upline pairs follow the airdrop accounts
/// (counted from the position that leaves out the referrer's slot).
pub open spec fn will_have_upline_notifications(v: DepositView) -> bool {
    &&& v.slot_idx == 2
    &&& v.referrer.1 is Some
    &&& {
        let ps = NOTICE_AIRDROP_START + airdrop_run(v.remaining, NOTICE_AIRDROP_START as int, 0);
        v.remaining.len() > ps && v.remaining.len() - ps >= 2
    }
}

/// The new user takes the referrer's next slot (a full matrix takes no
/// one); filling the third slot completes the matrix, which is notified.
pub open spec fn referrer_chain(v: DepositView, e: Seq<EffectV>) -> Outcome {
    let c = v.referrer.6;
    if c.2 >= 3 {
        post_referrer(v, e, false)
    } else {
        let is_last = v.slot_idx == 2 && !will_have_upline_notifications(v);
        let v1 = DepositView { referrer: with_chain(v.referrer, place_v(c, v.ctx.user_key@)), ..v };
        let e1 = e.push(EffectV::Emit(SlotFilled { slot_idx: c.2, chain_id: c.0, user: v.ctx.user_key, owner: v.ctx.referrer_key }));
        if c.2 + 1 == 3 {
            if !v1.state.airdrop_active {
                after_referrer_notify(v1, e1)
            } else {
                pause(v1, e1, Stage::NotifyRemaining { wallet: v.ctx.referrer_wallet, is_last, resume: Resume::ReferrerNotify }, Request::ReadRemaining)
            }
        } else {
            post_referrer(v1, e1, false)
        }
    }
}

/// After the referrer's completion notice: the referrer starts a new matrix
/// with the next matrix id.
pub open spec fn after_referrer_notify(v: DepositView, e: Seq<EffectV>) -> Outcome {
    post_referrer(DepositView { referrer: with_chain(v.referrer, empty_chain_v(v.state.next_chain_id)), ..v }, e, true)
}

/// After the referrer's slot: a completed matrix takes a matrix id; a
/// third-slot deposit then walks up the upline; otherwise the registration
/// is over.
pub open spec fn post_referrer(v: DepositView, e: Seq<EffectV>, completed: bool) -> Outcome {
    if completed && v.state.next_chain_id == u32::MAX {
        Err(Failure::Overflow)
    } else {
        let v1 = if completed {
            DepositView { state: ProgramState { next_chain_id: (v.state.next_chain_id + 1) as u32, ..v.state }, ..v }
        } else {
            v
        };
        if completed && v.slot_idx == 2 {
            cascade_start(v1, e)
        } else {
            finish(v1, e)
        }
    }
}

/// The start of the walk up the upline with the whole deposit. A referrer
/// without referrer burns it. Otherwise the upline pairs must follow the
/// airdrop accounts and match the referrer's stored upline.
pub open spec fn cascade_start(v: DepositView, e: Seq<EffectV>) -> Outcome {
    let dep = v.deposit_amount;
    let start = UPLINE_AIRDROP_START + airdrop_run(v.remaining, UPLINE_AIRDROP_START as int, 0);
    let c = Cascade {
        current_user: v.ctx.referrer_key,
        current_deposit: dep,
        wsol_closed: false,
        allocated: false,
        total_notifications: 1,
        notifications_made: 1,
        upline_start: start as usize,
        pair_count: 0,
        pair: 0,
        upline_key: v.ctx.referrer_key,
    };
    let v1 = DepositView { cascade: c, upline: None, ..v };
    if v.referrer.1 is None {
        if dep > 0 {
            begin_burn(v1, e, dep, Resume::BaseBurn)
        } else {
            final_check(v1, e)
        }
    } else if !(v.remaining.len() > start && dep > 0) {
        Err(Failure::Code(ErrorCode::UplineRequiredForNonBase))
    } else {
        match spec_validate_pairs(snapshot_keys(v.remaining), start, v.referrer.5) {
            Err(x) => Err(Failure::Code(x)),
            Ok(n) => {
                let c1 = Cascade {
                    pair_count: n as usize,
                    total_notifications: spec_total_notifications(v.remaining, start, n) as usize,
                    ..c
                };
                next_pair(DepositView { cascade: c1, ..v1 }, e, 0)
            },
        }
    }
}

/// The walk visits the pairs in order, the first six at most, until the
/// deposit is placed.
pub open spec fn next_pair(v: DepositView, e: Seq<EffectV>, p: usize) -> Outcome
    decreases v.cascade.pair_count - p,
{
    if p >= v.cascade.pair_count {
        after_loop(v, e)
    } else if p >= MAX_UPLINE_DEPTH || v.cascade.current_deposit == 0 {
        if v.cascade.allocated { after_loop(v, e) } else { next_pair(v, e, (p + 1) as usize) }
    } else {
        pause(
            DepositView { cascade: Cascade { pair: p, ..v.cascade }, ..v },
            e,
            Stage::AwaitUpline { pair: p },
            Request::ReadAccount(AccountRef::Remaining((v.cascade.upline_start + 2 * p) as usize)),
        )
    }
}

/// An upline account, read: it must be new to this walk, its wallet must be
/// a plain wallet, it must belong to this program and hold a registered
/// user; the current user takes its next slot. The first slot burns the
/// deposit, the second reserves it for the upline, the third pays the upline
/// what was reserved and completes its matrix.
pub open spec fn on_upline(v: DepositView, a: AccountSnapshot) -> Outcome {
    let c = v.cascade;
    let wallet = v.remaining[c.upline_start + 2 * c.pair + 1];
    if v.processed.contains(a.key@) {
        Err(Failure::Code(ErrorCode::DuplicateUplineExploit))
    } else if wallet.owner@ != system_bytes() {
        Err(Failure::Code(ErrorCode::PaymentWalletInvalid))
    } else if a.owner@ != known_bytes(KnownAddress::MatrixProgram) {
        Err(Failure::Code(ErrorCode::InvalidSlotOwner))
    } else if a.data@.len() <= 8 {
        Err(Failure::InvalidAccountData)
    } else {
        match parse_user(a.data@.skip(8)) {
            None => Err(Failure::Deserialize),
            Some((u, _)) => if !u.0 {
                Err(Failure::Code(ErrorCode::SlotNotRegistered))
            } else if u.6.2 >= 3 {
                Err(Failure::OutOfBounds)
            } else {
                let slot = u.6.2;
                let u1 = with_chain(u, place_v(u.6, c.current_user@));
                let e1 = Seq::empty().push(EffectV::Emit(SlotFilled { slot_idx: slot, chain_id: u.6.0, user: c.current_user, owner: a.key }));
                let v1 = DepositView {
                    processed: v.processed.push(a.key@),
                    upline: Some(u1),
                    upline_data_len: a.data@.len() as usize,
                    cascade: Cascade { upline_key: a.key, ..c },
                    ..v
                };
                upline_slot(v1, e1, slot, wallet)
            },
        }
    }
}

pub open spec fn upline_slot(v: DepositView, e: Seq<EffectV>, slot: u8, wallet: AccountSnapshot) -> Outcome {
    let c = v.cascade;
    let u = v.upline->0;
    if slot == 0 {
        if !c.wsol_closed {
            begin_burn(v, e, c.current_deposit, Resume::UplineBurn)
        } else {
            after_upline_burn(v, e)
        }
    } else if slot == 1 {
        let e1 = if !c.wsol_closed { e.push(EffectV::CloseWsol) } else { e };
        let e2 = e1.push(EffectV::ReserveSol { vault: v.ctx.program_sol_vault@, lamports: c.current_deposit });
        let v1 = DepositView {
            upline: Some(with_reserved(u, c.current_deposit)),
            cascade: Cascade { wsol_closed: true, allocated: true, current_deposit: 0, ..c },
            ..v
        };
        finish_visit(v1, e2)
    } else {
        let e1 = if u.7 > 0 {
            e.push(EffectV::PayFromVault {
                vault: v.ctx.program_sol_vault@,
                to: AccountRef::Remaining((c.upline_start + 2 * c.pair + 1) as usize),
                to_key: wallet.key@,
                lamports: u.7,
            })
        } else {
            e
        };
        let made = c.notifications_made + 1;
        let is_last = made == c.total_notifications;
        let v1 = DepositView {
            upline: Some(with_reserved(u, 0)),
            cascade: Cascade { notifications_made: made as usize, ..c },
            ..v
        };
        if !v1.state.airdrop_active {
            after_upline_notify(v1, e1)
        } else {
            pause(v1, e1, Stage::NotifyRemaining { wallet: wallet.key, is_last, resume: Resume::UplineNotify }, Request::ReadRemaining)
        }
    }
}

/// After a burn for an upline's first slot: the deposit is placed.
pub open spec fn after_upline_burn(v: DepositView, e: Seq<EffectV>) -> Outcome {
    finish_visit(DepositView { cascade: Cascade { allocated: true, current_deposit: 0, ..v.cascade }, ..v }, e)
}

/// After an upline's completion notice: the upline starts a new matrix with
/// the next matrix id, and the upline becomes the user that takes the next
/// slot.
pub open spec fn after_upline_notify(v: DepositView, e: Seq<EffectV>) -> Outcome {
    if v.state.next_chain_id == u32::MAX {
        Err(Failure::Overflow)
    } else {
        let id = v.state.next_chain_id;
        finish_visit(
            DepositView {
                state: ProgramState { next_chain_id: (id + 1) as u32, ..v.state },
                upline: Some(with_chain(v.upline->0, empty_chain_v(id))),
                cascade: Cascade { current_user: v.cascade.upline_key, ..v.cascade },
                ..v
            },
            e,
        )
    }
}

/// The end of a visit: the upline's record is stored back (it must fit its
/// account); the walk stops once the deposit is placed.
pub open spec fn finish_visit(v: DepositView, e: Seq<EffectV>) -> Outcome {
    let bytes = enc_user(v.upline->0);
    if bytes.len() > v.upline_data_len - 8 {
        Err(Failure::Serialize)
    } else {
        let e1 = e.push(EffectV::WriteUserAccount {
            target: (v.cascade.upline_start + 2 * v.cascade.pair) as usize,
            bytes,
        });
        if v.cascade.allocated {
            after_loop(v, e1)
        } else {
            next_pair(v, e1, (v.cascade.pair + 1) as usize)
        }
    }
}

/// After the walk: a deposit that no upline took is wrapped again if needed
/// and burnt.
pub open spec fn after_loop(v: DepositView, e: Seq<EffectV>) -> Outcome {
    let c = v.cascade;
    if !c.allocated && c.current_deposit > 0 {
        let e1 = if c.wsol_closed {
            e.push(EffectV::WrapTransfer { lamports: c.current_deposit }).push(EffectV::SyncNative)
        } else {
            e
        };
        begin_burn(DepositView { cascade: Cascade { wsol_closed: false, ..c }, ..v }, e1, c.current_deposit, Resume::LeftoverBurn)
    } else {
        final_check(v, e)
    }
}

/// After a burn that ends the walk: the deposit is placed.
pub open spec fn after_burn_placed(v: DepositView, e: Seq<EffectV>) -> Outcome {
    final_check(DepositView { cascade: Cascade { allocated: true, current_deposit: 0, ..v.cascade }, ..v }, e)
}

/// The deposit must have been placed; an open wrapped-SOL account is then
/// closed if it has data.
pub open spec fn final_check(v: DepositView, e: Seq<EffectV>) -> Outcome {
    if v.cascade.current_deposit > 0 || !v.cascade.allocated {
        Err(Failure::Code(ErrorCode::UnusedDepositDetected))
    } else if !v.cascade.wsol_closed {
        pause(v, e, Stage::AwaitWsolLen, Request::ReadAccount(AccountRef::UserWsol))
    } else {
        finish(v, e)
    }
}

/// Where the registration goes on after a swap-and-burn or a notice.
pub open spec fn resume_at(v: DepositView, e: Seq<EffectV>, r: Resume) -> Outcome {
    match r {
        Resume::SlotBurn => referrer_chain(v, e),
        Resume::ReferrerNotify => after_referrer_notify(v, e),
        Resume::BaseBurn => after_burn_placed(v, e),
        Resume::UplineBurn => after_upline_burn(v, e),
        Resume::UplineNotify => after_upline_notify(v, e),
        Resume::LeftoverBurn => after_burn_placed(v, e),
    }
}

/// The DONUT account before the swap: its balance is noted and the swap of
/// `amount` (for at least one DONUT) is made; the account is read again.
pub open spec fn on_burn_before(v: DepositView, amount: u64, resume: Resume, a: AccountSnapshot) -> Outcome {
    match spec_token_balance(a.lamports, a.owner@, a.data@, v.ctx.keys.token_mint@, v.ctx.keys.user_wallet@) {
        Err(x) => Err(Failure::Code(x)),
        Ok(b) => pause(v, Seq::empty().push(EffectV::Swap { amount_in: amount, minimum_out: 1 }),
            Stage::BurnAfter { amount, before: b, resume }, Request::ReadAccount(AccountRef::UserDonut)),
    }
}

/// The DONUT account after the swap: what the swap delivered (which must be
/// positive) is burnt.
pub open spec fn on_burn_after(v: DepositView, before: u64, resume: Resume, a: AccountSnapshot) -> Outcome {
    match spec_token_balance(a.lamports, a.owner@, a.data@, v.ctx.keys.token_mint@, v.ctx.keys.user_wallet@) {
        Err(x) => Err(Failure::Code(x)),
        Ok(after) => if after <= before {
            Err(Failure::Code(ErrorCode::SwapFailed))
        } else {
            resume_at(v, Seq::empty().push(EffectV::Burn { amount: (after - before) as u64 }), resume)
        },
    }
}

/// All remaining accounts, for a notice: see `spec_notify_begin`.
pub open spec fn on_notify_remaining(v: DepositView, wallet: Key, is_last: bool, resume: Resume, accts: Seq<AccountSnapshot>) -> Outcome {
    match spec_notify_begin(accts, wallet@, v.state.airdrop_active) {
        Err(x) => Err(x),
        Ok(NotifyStart::Skip) => resume_at(v, Seq::empty(), resume),
        Ok(NotifyStart::NeedClock { program_state_account }) => pause(
            DepositView {
                notify_keys: snapshot_keys(accts),
                notify_data: accts[program_state_account as int].data@,
                ..v
            },
            Seq::empty(),
            Stage::NotifyClock { wallet, is_last, program_state_account, resume },
            Request::ReadClock,
        ),
    }
}

/// The clock, for a notice: see `spec_notify_finish`.
pub open spec fn on_notify_clock(v: DepositView, wallet: Key, is_last: bool, psa: usize, resume: Resume, now: i64) -> Outcome {
    let v1 = DepositView { state: status_after(v.state, v.notify_data, now), ..v };
    match spec_notify_finish(v.notify_keys, v.notify_data, v.state, wallet@, is_last, now, psa) {
        Err(x) => Err(x),
        Ok(None) => resume_at(v1, Seq::empty(), resume),
        Ok(Some(p)) => resume_at(v1, Seq::empty().push(EffectV::Notify(p)), resume),
    }
}

/// The wrapped-SOL account at the end: closed if it has data.
pub open spec fn on_wsol_len(v: DepositView, a: AccountSnapshot) -> Outcome {
    if a.data@.len() > 0 { finish(v, Seq::empty().push(EffectV::CloseWsol)) } else { finish(v, Seq::empty()) }
}

/// One step of the registration: the answer `ev` to the pending request.
pub open spec fn deposit_step(v: DepositView, ev: Event) -> Outcome {
    match (v.stage, ev) {
        (Stage::AwaitPrice, Event::Price { answer, decimals, now, feed_timestamp }) => on_price(v, answer, decimals, now, feed_timestamp),
        (Stage::AwaitMinimum, Event::Minimum(m)) => on_minimum(v, m),
        (Stage::BurnBefore { amount, resume }, Event::Account(a)) => on_burn_before(v, amount, resume, a),
        (Stage::BurnAfter { amount, before, resume }, Event::Account(a)) => on_burn_after(v, before, resume, a),
        (Stage::NotifyRemaining { wallet, is_last, resume }, Event::Remaining(accts)) => on_notify_remaining(v, wallet, is_last, resume, accts@),
        (Stage::NotifyClock { wallet, is_last, program_state_account, resume }, Event::Clock(now)) => on_notify_clock(v, wallet, is_last, program_state_account, resume, now),
        (Stage::AwaitUpline { pair }, Event::Account(a)) => on_upline(v, a),
        (Stage::AwaitWsolLen, Event::Account(a)) => on_wsol_len(v, a),
        _ => Err(Failure::OutOfBounds),
    }
}

} // verus!
