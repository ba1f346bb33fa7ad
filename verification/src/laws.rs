use vstd::prelude::*;
use crate::base::{base_user_v, spec_base_start, RegisterWithoutReferrerDeposit};
use crate::checks::{DEFAULT_SOL_PRICE, DEFAULT_SOL_PRICE_DECIMALS, MAX_PRICE_FEED_AGE};
use crate::codec::enc_user;
use crate::cascade::airdrop_run;
use crate::deposit::{
    deposit_wf, final_check, next_pair, on_burn_after, on_minimum, on_price, on_upline, referred_user_v,
    referrer_chain, route_slot, stage_resume, system_bytes, upline_slot, will_have_upline_notifications, with_chain,
    with_reserved, Cascade, DepositView, UPLINE_AIRDROP_START,
};
use crate::records::{lemma_flow_push, lemma_post_referrer_keeps, slots_ok, vault_flow};
use crate::state::ProgramState;
use crate::effects::{AccountRef, EffectV};
use crate::error::{ErrorCode, Failure};
use crate::flow::{Request, Resume, Stage};
use crate::key::{known_bytes, KnownAddress};
use crate::matrix::{empty_chain_v, place_v};
use crate::state::{AccountSnapshot, SlotFilled};
use crate::token::spec_token_balance;

verus! {

/// The effects that open a registration under a referrer: the wrapped-SOL
/// account is created when it has no data.
pub open spec fn wsol_prefix(v: DepositView) -> Seq<EffectV> {
    if v.ctx.user_wsol_data_len == 0 { seq![EffectV::CreateWsolAccount] } else { Seq::empty() }
}

/// The event of the new user taking slot `slot` of the referrer's matrix.
pub open spec fn joined(v: DepositView, slot: u8) -> EffectV {
    EffectV::Emit(SlotFilled { slot_idx: slot, chain_id: v.referrer.6.0, user: v.ctx.user_key, owner: v.ctx.referrer_key })
}

/// Law: a deposit below the minimum is refused.
pub proof fn law_minimum_deposit(v: DepositView, minimum: u64)
    requires
        v.deposit_amount < minimum,
    ensures
        on_minimum(v, minimum) == Err::<(DepositView, Seq<EffectV>, Request), Failure>(
            Failure::Code(ErrorCode::InsufficientDeposit),
        ),
{
}

/// Law: a price answer more than a day old is replaced by the default
/// price of 100 USD, with its eight decimals.
pub proof fn law_stale_price(v: DepositView, answer: i128, decimals: u32, now: i64, feed_timestamp: i64)
    requires
        now - feed_timestamp > MAX_PRICE_FEED_AGE,
        now - feed_timestamp <= i64::MAX,
    ensures
        on_price(v, answer, decimals, now, feed_timestamp) matches Ok((_, e, q))
            && e.len() == 0 && q == (Request::ComputeMinimum { price: DEFAULT_SOL_PRICE, decimals: DEFAULT_SOL_PRICE_DECIMALS }),
{
}

/// Law: a new user that takes the referrer's first slot has the whole
/// deposit wrapped and swapped for DONUT, which is burnt.
pub proof fn law_first_slot_burns(v: DepositView, minimum: u64)
    requires
        v.slot_idx == 0,
        v.deposit_amount >= minimum,
        v.state.next_upline_id < u32::MAX,
        v.state.next_chain_id < u32::MAX,
        v.referrer.4 < 255,
        v.ctx.keys.token_mint@ == known_bytes(KnownAddress::TokenMint),
    ensures
        on_minimum(v, minimum) matches Ok((v2, e, q))
            && e == wsol_prefix(v) + seq![EffectV::WrapTransfer { lamports: v.deposit_amount }, EffectV::SyncNative]
            && v2.stage == (Stage::BurnBefore { amount: v.deposit_amount, resume: Resume::SlotBurn })
            && q == Request::ReadAccount(AccountRef::UserDonut)
            && v2.user == Some(referred_user_v(v)),
{
    assert(wsol_prefix(v).push(EffectV::WrapTransfer { lamports: v.deposit_amount }).push(EffectV::SyncNative)
        =~= wsol_prefix(v) + seq![EffectV::WrapTransfer { lamports: v.deposit_amount }, EffectV::SyncNative]);
}

/// Law: once the swap for the referrer's first slot has delivered DONUT,
/// exactly what it delivered is burnt and the new user takes that first
/// slot; the registration is then over.
pub proof fn law_first_slot_joins_after_burn(v: DepositView, before: u64, a: AccountSnapshot, after: u64)
    requires
        v.slot_idx == 0,
        v.referrer.6.2 == 0,
        spec_token_balance(a.lamports, a.owner@, a.data@, v.ctx.keys.token_mint@, v.ctx.keys.user_wallet@)
            == Ok::<u64, ErrorCode>(after),
        after > before,
    ensures
        on_burn_after(v, before, Resume::SlotBurn, a) matches Ok((v2, e, q))
            && e == seq![EffectV::Burn { amount: (after - before) as u64 }, joined(v, 0)]
            && v2.referrer == with_chain(v.referrer, place_v(v.referrer.6, v.ctx.user_key@))
            && q == Request::Finish,
{
    assert(Seq::empty().push(EffectV::Burn { amount: (after - before) as u64 }).push(joined(v, 0))
        =~= seq![EffectV::Burn { amount: (after - before) as u64 }, joined(v, 0)]);
}

/// Law: a new user that takes the referrer's second slot has the whole
/// deposit reserved in the program's SOL vault for the referrer, takes that
/// slot, and the registration is over.
pub proof fn law_second_slot_reserves(v: DepositView, minimum: u64)
    requires
        v.slot_idx == 1,
        v.referrer.6.2 == 1,
        v.deposit_amount >= minimum,
        v.state.next_upline_id < u32::MAX,
        v.state.next_chain_id < u32::MAX,
        v.referrer.4 < 255,
    ensures
        on_minimum(v, minimum) matches Ok((v2, e, q))
            && e == wsol_prefix(v) + seq![
                EffectV::CloseWsol,
                EffectV::ReserveSol { vault: v.ctx.program_sol_vault@, lamports: v.deposit_amount },
                joined(v, 1),
            ]
            && v2.referrer == with_chain(with_reserved(v.referrer, v.deposit_amount), place_v(v.referrer.6, v.ctx.user_key@))
            && q == Request::Finish
            && v2.user == Some(referred_user_v(v)),
{
    let e = wsol_prefix(v).push(EffectV::CloseWsol)
        .push(EffectV::ReserveSol { vault: v.ctx.program_sol_vault@, lamports: v.deposit_amount })
        .push(joined(v, 1));
    assert(e =~= wsol_prefix(v) + seq![
        EffectV::CloseWsol,
        EffectV::ReserveSol { vault: v.ctx.program_sol_vault@, lamports: v.deposit_amount },
        joined(v, 1),
    ]);
}

/// Law: the reserve of a referrer is paid only to the wallet its record
/// names; any other wallet is refused (after the refusal of a referrer with
/// a referrer that comes without its upline).
pub proof fn law_reserve_paid_to_owner(v: DepositView, e: Seq<EffectV>)
    requires
        v.slot_idx == 2,
        v.referrer.7 > 0,
        v.ctx.referrer_wallet@ != v.referrer.2,
    ensures
        route_slot(v, e) == Err::<(DepositView, Seq<EffectV>, Request), Failure>(Failure::Code(
            if v.referrer.1 is Some && v.remaining.len() <= UPLINE_AIRDROP_START + airdrop_run(
                v.remaining,
                UPLINE_AIRDROP_START as int,
                0,
            ) {
                ErrorCode::UplineRequiredForNonBase
            } else {
                ErrorCode::InvalidAccountOwner
            },
        )),
{
}

/// Law: a new user that takes a referrer's third slot, whether the referrer
/// has a referrer or not and whether the airdrop runs or not, has what the
/// referrer had reserved paid from the vault to the referrer's own wallet,
/// the one its record names, and nothing else moved through the vault; the
/// deposit is wrapped, the user takes the slot, the referrer's reserve is
/// cleared, and its matrix is completed: it starts afresh under the next
/// matrix id, or, while the airdrop runs, waits full for its notice.
pub proof fn law_third_slot_pays_referrer(v: DepositView, minimum: u64)
    requires
        v.slot_idx == 2,
        v.referrer.6.2 == 2,
        slots_ok(v.referrer.6),
    ensures
        on_minimum(v, minimum) matches Ok((v2, e, q)) ==> {
            let paid = if v.referrer.7 > 0 {
                wsol_prefix(v).push(EffectV::PayFromVault {
                    vault: v.ctx.program_sol_vault@,
                    to: AccountRef::ReferrerWallet,
                    to_key: v.referrer.2,
                    lamports: v.referrer.7,
                })
            } else {
                wsol_prefix(v)
            };
            let head = paid.push(EffectV::WrapTransfer { lamports: v.deposit_amount }).push(EffectV::SyncNative)
                .push(joined(v, 2));
            &&& head.len() <= e.len()
            &&& forall|i: int| 0 <= i < head.len() ==> #[trigger] e[i] == head[i]
            &&& vault_flow(e) == -(v.referrer.7 as int)
            &&& v2.referrer.7 == 0
            &&& (v2.referrer.6 == empty_chain_v((v.state.next_chain_id + 1) as u32)
                || (stage_resume(v2.stage) == Some(Resume::ReferrerNotify) && v2.referrer.6.2 == 3))
        },
{
    broadcast use lemma_flow_push, lemma_post_referrer_keeps;
    assert(vault_flow(Seq::<EffectV>::empty()) == 0);
    assert(wsol_prefix(v) =~= if v.ctx.user_wsol_data_len == 0 {
        Seq::empty().push(EffectV::CreateWsolAccount)
    } else {
        Seq::empty()
    });
}

/// Law: a new user that takes the third slot of a referrer without referrer
/// (the airdrop being over) has what the referrer had reserved paid to the
/// referrer's own wallet, the one its record names, completes the referrer's matrix, which starts afresh
/// with the next matrix id, and has the whole deposit wrapped for a
/// swap-and-burn.
pub proof fn law_third_slot_pays_and_completes(v: DepositView, minimum: u64)
    requires
        v.slot_idx == 2,
        v.referrer.6.2 == 2,
        v.referrer.1 is None,
        v.referrer.7 > 0,
        v.ctx.referrer_wallet@ == v.referrer.2,
        v.ctx.referrer_wallet_owner@ == system_bytes(),
        !v.state.airdrop_active,
        v.deposit_amount >= minimum,
        v.deposit_amount > 0,
        v.state.next_upline_id < u32::MAX,
        v.state.next_chain_id + 1 < u32::MAX,
        v.referrer.4 < 255,
        v.ctx.keys.token_mint@ == known_bytes(KnownAddress::TokenMint),
    ensures
        on_minimum(v, minimum) matches Ok((v2, e, q))
            && e == wsol_prefix(v) + seq![
                EffectV::PayFromVault {
                    vault: v.ctx.program_sol_vault@,
                    to: AccountRef::ReferrerWallet,
                    to_key: v.referrer.2,
                    lamports: v.referrer.7,
                },
                EffectV::WrapTransfer { lamports: v.deposit_amount },
                EffectV::SyncNative,
                joined(v, 2),
            ]
            && v2.referrer.7 == 0
            && v2.referrer.6 == empty_chain_v((v.state.next_chain_id + 1) as u32)
            && v2.state.next_chain_id == v.state.next_chain_id + 2
            && v2.stage == (Stage::BurnBefore { amount: v.deposit_amount, resume: Resume::BaseBurn })
            && q == Request::ReadAccount(AccountRef::UserDonut),
{
    let pay = EffectV::PayFromVault {
        vault: v.ctx.program_sol_vault@,
        to: AccountRef::ReferrerWallet,
        to_key: v.referrer.2,
        lamports: v.referrer.7,
    };
    let e = wsol_prefix(v).push(pay).push(EffectV::WrapTransfer { lamports: v.deposit_amount })
        .push(EffectV::SyncNative).push(joined(v, 2));
    assert(e =~= wsol_prefix(v) + seq![pay, EffectV::WrapTransfer { lamports: v.deposit_amount }, EffectV::SyncNative, joined(v, 2)]);
}

/// Law: when the deposit takes an upline's second slot, it is reserved for
/// that upline (the wrapped-SOL account being closed first if still open),
/// the upline's record is stored back, and the registration is over.
pub proof fn law_upline_second_slot_reserves(v: DepositView, e: Seq<EffectV>, wallet: AccountSnapshot)
    requires
        v.upline is Some,
        enc_user(with_reserved(v.upline->0, v.cascade.current_deposit)).len() + 8 <= v.upline_data_len,
    ensures
        upline_slot(v, e, 1, wallet) matches Ok((v2, e2, q)) && {
            let u2 = with_reserved(v.upline->0, v.cascade.current_deposit);
            let e1 = if v.cascade.wsol_closed { e } else { e.push(EffectV::CloseWsol) };
            &&& q == Request::Finish
            &&& v2.upline == Some(u2)
            &&& v2.cascade.allocated
            &&& v2.cascade.current_deposit == 0
            &&& e2 == e1.push(EffectV::ReserveSol { vault: v.ctx.program_sol_vault@, lamports: v.cascade.current_deposit })
                .push(EffectV::WriteUserAccount { target: (v.cascade.upline_start + 2 * v.cascade.pair) as usize, bytes: enc_user(u2) })
        },
{
}

/// Law: when the deposit takes an upline's third slot (the airdrop being
/// over), the upline is paid what it had reserved, its matrix starts afresh
/// with the next matrix id, its record is stored back, and the walk goes on
/// to the next pair with the upline as the user that takes the next slot.
pub proof fn law_upline_third_slot_moves_on(v: DepositView, e: Seq<EffectV>, wallet: AccountSnapshot)
    requires
        v.upline is Some,
        !v.cascade.allocated,
        !v.state.airdrop_active,
        v.state.next_chain_id < u32::MAX,
        enc_user(with_chain(with_reserved(v.upline->0, 0), empty_chain_v(v.state.next_chain_id))).len() + 8
            <= v.upline_data_len,
    ensures
        ({
            let c = v.cascade;
            let u = v.upline->0;
            let u2 = with_chain(with_reserved(u, 0), empty_chain_v(v.state.next_chain_id));
            let paid = if u.7 > 0 {
                e.push(EffectV::PayFromVault {
                    vault: v.ctx.program_sol_vault@,
                    to: AccountRef::Remaining((c.upline_start + 2 * c.pair + 1) as usize),
                    to_key: wallet.key@,
                    lamports: u.7,
                })
            } else {
                e
            };
            let v2 = DepositView {
                state: ProgramState { next_chain_id: (v.state.next_chain_id + 1) as u32, ..v.state },
                upline: Some(u2),
                cascade: Cascade {
                    current_user: c.upline_key,
                    notifications_made: (c.notifications_made + 1) as usize,
                    ..c
                },
                ..v
            };
            upline_slot(v, e, 2, wallet) == next_pair(
                v2,
                paid.push(EffectV::WriteUserAccount { target: (c.upline_start + 2 * c.pair) as usize, bytes: enc_user(u2) }),
                (c.pair + 1) as usize,
            )
        }),
{
}

/// Law: while the airdrop runs, the new user that completes the referrer's
/// matrix has the airdrop program told of it: the registration asks for the
/// remaining accounts to send the notice for the referrer's wallet, the last
/// one unless uplines follow.
pub proof fn law_completion_is_notified(v: DepositView, e: Seq<EffectV>)
    requires
        v.referrer.6.2 == 2,
        v.state.airdrop_active,
    ensures
        referrer_chain(v, e) matches Ok((v2, e2, q)) && {
            &&& e2 == e.push(joined(v, 2))
            &&& q == Request::ReadRemaining
            &&& v2.stage == (Stage::NotifyRemaining {
                wallet: v.ctx.referrer_wallet,
                is_last: v.slot_idx == 2 && !will_have_upline_notifications(v),
                resume: Resume::ReferrerNotify,
            })
            &&& v2.referrer == with_chain(v.referrer, place_v(v.referrer.6, v.ctx.user_key@))
        },
{
}

/// Law: a registration under a referrer that is over (every step keeps it
/// well formed) has the new user's record.
pub proof fn law_finished_registration_has_user(v: DepositView)
    requires
        deposit_wf(v),
        v.stage is Finished,
    ensures
        v.user is Some,
{
}

/// Law: a registration whose walk up the upline ends without a failure has
/// placed the whole deposit.
pub proof fn law_deposit_placed(v: DepositView, e: Seq<EffectV>)
    ensures
        final_check(v, e) is Ok ==> v.cascade.allocated && v.cascade.current_deposit == 0,
{
}

/// Law: an upline account that the walk has already visited is refused.
pub proof fn law_duplicate_upline(v: DepositView, a: AccountSnapshot)
    requires
        v.processed.contains(a.key@),
    ensures
        on_upline(v, a) == Err::<(DepositView, Seq<EffectV>, Request), Failure>(
            Failure::Code(ErrorCode::DuplicateUplineExploit),
        ),
{
}

/// Law: only the treasury recorded in the state may register a user
/// without a referrer.
pub proof fn law_base_needs_treasury(a: RegisterWithoutReferrerDeposit, rem: Seq<AccountSnapshot>, deposit_amount: u64)
    requires
        a.owner@ != a.state.multisig_treasury@,
    ensures
        spec_base_start(a, rem, deposit_amount) == Err::<(crate::base::BaseView, Seq<EffectV>, Request), Failure>(
            Failure::Code(ErrorCode::NotAuthorized),
        ),
{
}

/// Law: a registration without a referrer that starts gives the new user a
/// base record with the next upline and matrix ids, advances both counters
/// by one, and wraps the whole deposit for its swap-and-burn.
pub proof fn law_base_registration(a: RegisterWithoutReferrerDeposit, rem: Seq<AccountSnapshot>, deposit_amount: u64)
    ensures
        spec_base_start(a, rem, deposit_amount) matches Ok((v, e, q)) ==> {
            &&& v.user == base_user_v(a.user_wallet, a.state.next_upline_id, a.state.next_chain_id)
            &&& v.state.next_upline_id == a.state.next_upline_id + 1
            &&& v.state.next_chain_id == a.state.next_chain_id + 1
            &&& e.len() >= 2
            &&& e[e.len() - 2] == (EffectV::WrapTransfer { lamports: deposit_amount })
            &&& e[e.len() - 1] == EffectV::SyncNative
            &&& q == Request::ReadAccount(AccountRef::UserDonut)
        },
{
}

} // verus!
