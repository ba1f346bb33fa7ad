use vstd::prelude::*;
use crate::codec::{parse_user, ChainV, UserV};
use crate::deposit::{
    after_loop, deposit_step, deposit_wf, finish_visit, in_visit, next_pair, post_referrer,
    referrer_chain, resume_at, route_slot, stage_resume, DepositView,
};
use crate::effects::EffectV;
use crate::flow::{Event, Resume, Stage};
use crate::state::MAX_UPLINE_DEPTH;

verus! {

/// A matrix whose first `filled` slots, and only those, are taken, with at
/// most two taken.
pub open spec fn slots_ok(c: ChainV) -> bool {
    &&& c.1.len() == 3
    &&& c.2 <= 2
    &&& forall|i: int| 0 <= i < 3 ==> (#[trigger] c.1[i] is Some <==> i < c.2)
}

/// A sound user record: its matrix is well formed, and it holds a reserve
/// only when two of its slots are filled (the reserve waits for the third).
pub open spec fn record_ok(u: UserV) -> bool {
    &&& slots_ok(u.6)
    &&& (u.7 > 0 ==> u.6.2 == 2)
}

/// A record whose matrix has just been completed and has not yet started
/// afresh: all three slots taken and nothing reserved.
pub open spec fn completing(u: UserV) -> bool {
    &&& u.6.1.len() == 3
    &&& u.6.2 == 3
    &&& u.7 == 0
    &&& forall|i: int| 0 <= i < 3 ==> #[trigger] u.6.1[i] is Some
}

/// What a registration resuming at `r` holds of its records.
pub open spec fn held(v: DepositView, r: Resume) -> bool {
    &&& (v.user matches Some(u) ==> record_ok(u))
    &&& (r == Resume::ReferrerNotify ==> completing(v.referrer))
    &&& (r != Resume::ReferrerNotify ==> record_ok(v.referrer))
    &&& (r == Resume::SlotBurn ==> v.slot_idx == 0 && v.referrer.6.2 == 0)
    &&& (r == Resume::SlotBurn || r == Resume::ReferrerNotify ==> v.upline is None)
    &&& (r == Resume::UplineNotify ==> (v.upline matches Some(u) && completing(u)))
    &&& (r != Resume::UplineNotify ==> (v.upline matches Some(u) ==> record_ok(u)))
}

/// The records of a paused registration are sound: the referrer's, the new
/// user's and the upline record at hand, except for a matrix that waits
/// for its completion notice; before the referrer's slot is taken, the slot
/// to take is the referrer's filled count, and until the walk up the upline
/// starts no upline record is at hand.
pub open spec fn records_ok(v: DepositView) -> bool {
    match stage_resume(v.stage) {
        Some(r) => held(v, r),
        None => {
            &&& (v.user matches Some(u) ==> record_ok(u))
            &&& record_ok(v.referrer)
            &&& (v.upline matches Some(u) ==> record_ok(u))
            &&& (v.stage is AwaitPrice || v.stage is AwaitMinimum ==> v.slot_idx == v.referrer.6.2 && v.upline is None)
        },
    }
}

/// The stages at which the walk up the upline and the end of a
/// registration pause.
pub open spec fn tail_stage(s: Stage) -> bool {
    ||| s is AwaitUpline
    ||| s is AwaitWsolLen
    ||| s is Finished
    ||| s matches Stage::BurnBefore { resume, .. } && (resume == Resume::BaseBurn || resume == Resume::LeftoverBurn)
}

/// The later part of a registration leaves the records alone and pauses
/// only where the walk or the end of a registration does.
pub open spec fn keeps(v: DepositView, v2: DepositView) -> bool {
    &&& v2.referrer == v.referrer
    &&& v2.user == v.user
    &&& v2.upline == v.upline
    &&& tail_stage(v2.stage)
}

/// What an effect moves into the program's SOL vault (out of it, when
/// negative).
pub open spec fn flow_of(x: EffectV) -> int {
    match x {
        EffectV::ReserveSol { lamports, .. } => lamports as int,
        EffectV::PayFromVault { lamports, .. } => -(lamports as int),
        _ => 0,
    }
}

/// What a sequence of effects moves into the program's SOL vault.
pub open spec fn vault_flow(e: Seq<EffectV>) -> int
    decreases e.len(),
{
    if e.len() == 0 {
        0
    } else {
        vault_flow(e.drop_last()) + flow_of(e.last())
    }
}

pub broadcast proof fn lemma_flow_push(e: Seq<EffectV>, x: EffectV)
    ensures
        #[trigger] vault_flow(e.push(x)) == vault_flow(e) + flow_of(x),
{
    assert(e.push(x).drop_last() =~= e);
}

pub proof fn lemma_flow_empty()
    ensures
        vault_flow(Seq::<EffectV>::empty()) == 0,
{
}

/// `e2` goes on from `e` without moving anything into or out of the vault.
pub open spec fn quiet(e: Seq<EffectV>, e2: Seq<EffectV>) -> bool {
    &&& e.len() <= e2.len()
    &&& forall|i: int| 0 <= i < e.len() ==> #[trigger] e2[i] == e[i]
    &&& vault_flow(e2) == vault_flow(e)
}

pub broadcast proof fn lemma_after_loop_keeps(v: DepositView, e: Seq<EffectV>)
    ensures
        #[trigger] after_loop(v, e) matches Ok((v2, e2, _)) ==> keeps(v, v2) && quiet(e, e2),
{
    broadcast use lemma_flow_push;
}

pub broadcast proof fn lemma_next_pair_keeps(v: DepositView, e: Seq<EffectV>, p: usize)
    ensures
        #[trigger] next_pair(v, e, p) matches Ok((v2, e2, _)) ==> keeps(v, v2) && quiet(e, e2),
    decreases v.cascade.pair_count - p,
{
    broadcast use lemma_after_loop_keeps;
    if p < v.cascade.pair_count && (p >= MAX_UPLINE_DEPTH || v.cascade.current_deposit == 0) && !v.cascade.allocated {
        lemma_next_pair_keeps(v, e, (p + 1) as usize);
    }
}

pub broadcast proof fn lemma_finish_visit_keeps(v: DepositView, e: Seq<EffectV>)
    ensures
        #[trigger] finish_visit(v, e) matches Ok((v2, e2, _)) ==> keeps(v, v2) && quiet(e, e2),
{
    broadcast use lemma_after_loop_keeps, lemma_next_pair_keeps, lemma_flow_push;
}

/// After the referrer's slot, the records stay as they are, but for the
/// upline record, which the walk up the upline starts without.
pub broadcast proof fn lemma_post_referrer_keeps(v: DepositView, e: Seq<EffectV>, completed: bool)
    ensures
        #[trigger] post_referrer(v, e, completed) matches Ok((v2, e2, _)) ==> {
            &&& quiet(e, e2)
            &&& v2.referrer == v.referrer
            &&& v2.user == v.user
            &&& (v2.upline is None || v2.upline == v.upline)
            &&& tail_stage(v2.stage)
        },
{
    broadcast use lemma_after_loop_keeps, lemma_next_pair_keeps;
}

/// The referrer's slot taken on a sound referrer (a reserve only when the
/// slot taken is the second, so that it waits on two filled slots) leaves
/// sound records.
pub proof fn lemma_referrer_chain_records(v: DepositView, e: Seq<EffectV>)
    requires
        v.user matches Some(u) ==> record_ok(u),
        slots_ok(v.referrer.6),
        v.referrer.7 > 0 ==> v.referrer.6.2 == 1,
        v.upline is None,
    ensures
        referrer_chain(v, e) matches Ok((v2, _, _)) ==> records_ok(v2),
{
    broadcast use lemma_post_referrer_keeps;
    let c = v.referrer.6;
    let placed = crate::matrix::place_v(c, v.ctx.user_key@);
    assert forall|i: int| 0 <= i < 3 implies (#[trigger] placed.1[i] is Some <==> i < placed.2) by {
        if i != c.2 as int {
            assert(placed.1[i] == c.1[i]);
        }
    }
    if c.2 + 1 == 3 {
        assert forall|i: int| 0 <= i < 3 implies #[trigger] placed.1[i] is Some by {
            if i != c.2 as int {
                assert(placed.1[i] == c.1[i]);
            }
        }
        let fresh = crate::matrix::empty_chain_v(v.state.next_chain_id);
        assert forall|i: int| 0 <= i < 3 implies (#[trigger] fresh.1[i] is Some <==> i < fresh.2) by {}
    }
}

proof fn lemma_empty_ok(id: u32)
    ensures
        slots_ok(crate::matrix::empty_chain_v(id)),
{
    let fresh = crate::matrix::empty_chain_v(id);
    assert forall|i: int| 0 <= i < 3 implies (#[trigger] fresh.1[i] is Some <==> i < fresh.2) by {}
}

/// The deposit routed by a sound referrer's slot leaves sound records.
pub proof fn lemma_route_slot_records(v: DepositView, e: Seq<EffectV>)
    requires
        v.user matches Some(u) ==> record_ok(u),
        record_ok(v.referrer),
        v.slot_idx == v.referrer.6.2,
        v.upline is None,
    ensures
        route_slot(v, e) matches Ok((v2, _, _)) ==> records_ok(v2),
{
    let dep = v.deposit_amount;
    if v.slot_idx == 1 {
        lemma_referrer_chain_records(
            DepositView { referrer: crate::deposit::with_reserved(v.referrer, dep), ..v },
            e.push(EffectV::CloseWsol).push(EffectV::ReserveSol { vault: v.ctx.program_sol_vault@, lamports: dep }),
        );
    } else if v.slot_idx == 2 {
        let e1 = if v.referrer.7 > 0 {
            e.push(EffectV::PayFromVault {
                vault: v.ctx.program_sol_vault@,
                to: crate::effects::AccountRef::ReferrerWallet,
                to_key: v.ctx.referrer_wallet@,
                lamports: v.referrer.7,
            })
        } else {
            e
        };
        lemma_referrer_chain_records(
            DepositView { referrer: crate::deposit::with_reserved(v.referrer, 0), ..v },
            e1.push(EffectV::WrapTransfer { lamports: dep }).push(EffectV::SyncNative),
        );
    }
}

/// The minimum-deposit step on sound records leaves sound records.
pub proof fn lemma_on_minimum_records(v: DepositView, minimum: u64)
    requires
        records_ok(v),
        v.stage is AwaitMinimum,
    ensures
        crate::deposit::on_minimum(v, minimum) matches Ok((v2, _, _)) ==> records_ok(v2),
{
    lemma_empty_ok(v.state.next_chain_id);
    let v1 = DepositView {
        user: Some(crate::deposit::referred_user_v(v)),
        state: crate::state::ProgramState {
            next_upline_id: (v.state.next_upline_id + 1) as u32,
            next_chain_id: (v.state.next_chain_id + 1) as u32,
            ..v.state
        },
        ..v
    };
    let e = if v.ctx.user_wsol_data_len == 0 { Seq::empty().push(EffectV::CreateWsolAccount) } else { Seq::empty() };
    lemma_route_slot_records(v1, e);
}

/// Going on after a burn or a notice, from records sound for that point,
/// leaves sound records.
pub proof fn lemma_resume_records(v: DepositView, e: Seq<EffectV>, r: Resume)
    requires
        held(v, r),
        in_visit(r) ==> v.upline is Some,
    ensures
        resume_at(v, e, r) matches Ok((v2, _, _)) ==> records_ok(v2),
{
    broadcast use lemma_post_referrer_keeps, lemma_finish_visit_keeps, lemma_after_loop_keeps;
    match r {
        Resume::SlotBurn => {
            lemma_referrer_chain_records(v, e);
        },
        Resume::ReferrerNotify => {
            lemma_empty_ok(v.state.next_chain_id);
        },
        Resume::UplineNotify => {
            lemma_empty_ok(v.state.next_chain_id);
        },
        _ => {},
    }
}

/// Whether the upline account answered at an upline pause holds a sound
/// record, when it holds one at all.
pub open spec fn answer_ok(v: DepositView, ev: Event) -> bool {
    match ev {
        Event::Account(a) => (v.stage is AwaitUpline && a.data@.len() > 8) ==> (
            parse_user(a.data@.skip(8)) matches Some((u, _)) ==> record_ok(u)),
        _ => true,
    }
}

/// A visit to an upline account with a sound record leaves sound records.
pub proof fn lemma_on_upline_records(v: DepositView, a: crate::state::AccountSnapshot)
    requires
        records_ok(v),
        v.stage is AwaitUpline,
        answer_ok(v, Event::Account(a)),
    ensures
        crate::deposit::on_upline(v, a) matches Ok((v2, _, _)) ==> records_ok(v2),
{
    broadcast use lemma_finish_visit_keeps, lemma_after_loop_keeps, lemma_next_pair_keeps;
    lemma_empty_ok(v.state.next_chain_id);
    if a.data@.len() > 8 {
        if let Some((u, _)) = parse_user(a.data@.skip(8)) {
            let c = u.6;
            if c.2 < 3 {
                let placed = crate::matrix::place_v(c, v.cascade.current_user@);
                assert forall|i: int| 0 <= i < 3 implies (#[trigger] placed.1[i] is Some <==> i < placed.2) by {
                    if i != c.2 as int {
                        assert(placed.1[i] == c.1[i]);
                    }
                }
                if c.2 == 2 {
                    assert forall|i: int| 0 <= i < 3 implies #[trigger] placed.1[i] is Some by {
                        if i != c.2 as int {
                            assert(placed.1[i] == c.1[i]);
                        }
                    }
                }
            }
        }
    }
}

/// Law: every step of a registration under a referrer keeps the user
/// records sound, given sound records to start from and a sound record in
/// each upline account it visits: no matrix has more than two filled slots
/// (a completed matrix starts afresh, after its notice), a reserve is held
/// only by a matrix with two filled slots, and the new user's record is
/// sound.
pub proof fn law_step_keeps_records(v: DepositView, ev: Event)
    requires
        deposit_wf(v),
        records_ok(v),
        answer_ok(v, ev),
    ensures
        deposit_step(v, ev) matches Ok((v2, _, _)) ==> records_ok(v2),
{
    match (v.stage, ev) {
        (Stage::AwaitMinimum, Event::Minimum(m)) => {
            lemma_on_minimum_records(v, m);
        },
        (Stage::BurnAfter { amount, before, resume }, Event::Account(a)) => {
            if let Ok(after) = crate::token::spec_token_balance(
                a.lamports, a.owner@, a.data@, v.ctx.keys.token_mint@, v.ctx.keys.user_wallet@,
            ) {
                if after > before {
                    lemma_resume_records(v, Seq::empty().push(EffectV::Burn { amount: (after - before) as u64 }), resume);
                }
            }
        },
        (Stage::NotifyRemaining { wallet, is_last, resume }, Event::Remaining(accts)) => {
            lemma_resume_records(v, Seq::empty(), resume);
        },
        (Stage::NotifyClock { wallet, is_last, program_state_account, resume }, Event::Clock(now)) => {
            let v1 = DepositView { state: crate::notify::status_after(v.state, v.notify_data, now), ..v };
            lemma_resume_records(v1, Seq::empty(), resume);
            match crate::notify::spec_notify_finish(v.notify_keys, v.notify_data, v.state, wallet@, is_last, now, program_state_account) {
                Ok(Some(p)) => {
                    lemma_resume_records(v1, Seq::empty().push(EffectV::Notify(p)), resume);
                },
                _ => {},
            }
        },
        (Stage::AwaitUpline { pair }, Event::Account(a)) => {
            lemma_on_upline_records(v, a);
        },
        _ => {},
    }
}

/// Law: a registration under a referrer starts with sound records when the
/// referrer's record is sound.
pub proof fn law_start_records(a: crate::deposit::RegisterWithSolDeposit, rem: Seq<crate::state::AccountSnapshot>, deposit_amount: u64)
    requires
        record_ok(crate::codec::user_v(a.referrer)),
    ensures
        records_ok(crate::deposit::initial_view(a, rem, deposit_amount)),
{
}

/// Law: a new user taking the referrer's slot completes the referrer's
/// matrix exactly when it had two filled slots. A completed matrix starts
/// afresh under the next matrix id, at once when the airdrop is over, or
/// else after its completion notice, for which the registration pauses with
/// the matrix full; otherwise the matrix stays well formed.
pub proof fn law_referrer_completes_iff_two_filled(v: DepositView, e: Seq<EffectV>)
    requires
        slots_ok(v.referrer.6),
    ensures
        referrer_chain(v, e) matches Ok((v2, _, _)) ==> {
            let fresh = v2.referrer.6.2 == 0 && v2.referrer.6.0 == v.state.next_chain_id;
            let at_notice = stage_resume(v2.stage) == Some(Resume::ReferrerNotify);
            &&& at_notice ==> v2.referrer.6.2 == 3 && v.state.airdrop_active
            &&& !at_notice ==> slots_ok(v2.referrer.6)
            &&& (fresh || at_notice) <==> v.referrer.6.2 == 2
        },
{
    broadcast use lemma_post_referrer_keeps;
    lemma_empty_ok(v.state.next_chain_id);
    let c = v.referrer.6;
    let placed = crate::matrix::place_v(c, v.ctx.user_key@);
    assert forall|i: int| 0 <= i < 3 implies (#[trigger] placed.1[i] is Some <==> i < placed.2) by {
        if i != c.2 as int {
            assert(placed.1[i] == c.1[i]);
        }
    }
}

/// What the upline record at hand has reserved.
pub open spec fn upline_reserve(o: Option<UserV>) -> int {
    match o {
        Some(u) => u.7 as int,
        None => 0,
    }
}

/// What the upline record that a step works on had reserved before it: the
/// record read from the answered account at an upline pause, else the one
/// at hand.
pub open spec fn reserve_before(v: DepositView, ev: Event) -> int {
    match ev {
        Event::Account(a) => if v.stage is AwaitUpline {
            match parse_user(a.data@.skip(8)) {
                Some((u, _)) => u.7 as int,
                None => 0,
            }
        } else {
            upline_reserve(v.upline)
        },
        _ => upline_reserve(v.upline),
    }
}

proof fn lemma_referrer_chain_flow(v: DepositView, e: Seq<EffectV>)
    requires
        v.upline is None,
    ensures
        referrer_chain(v, e) matches Ok((v2, e2, _)) ==> {
            &&& vault_flow(e2) == vault_flow(e)
            &&& v2.referrer.7 == v.referrer.7
            &&& v2.upline is None
        },
{
    broadcast use lemma_post_referrer_keeps, lemma_flow_push;
}

proof fn lemma_route_slot_flow(v: DepositView, e: Seq<EffectV>)
    requires
        v.upline is None,
        v.slot_idx == 1 ==> v.referrer.7 == 0,
    ensures
        route_slot(v, e) matches Ok((v2, e2, _)) ==> {
            &&& vault_flow(e2) - vault_flow(e) == v2.referrer.7 - v.referrer.7
            &&& v2.upline is None
        },
{
    broadcast use lemma_flow_push;
    let dep = v.deposit_amount;
    if v.slot_idx == 1 {
        lemma_referrer_chain_flow(
            DepositView { referrer: crate::deposit::with_reserved(v.referrer, dep), ..v },
            e.push(EffectV::CloseWsol).push(EffectV::ReserveSol { vault: v.ctx.program_sol_vault@, lamports: dep }),
        );
    } else if v.slot_idx == 2 {
        let e1 = if v.referrer.7 > 0 {
            e.push(EffectV::PayFromVault {
                vault: v.ctx.program_sol_vault@,
                to: crate::effects::AccountRef::ReferrerWallet,
                to_key: v.ctx.referrer_wallet@,
                lamports: v.referrer.7,
            })
        } else {
            e
        };
        lemma_referrer_chain_flow(
            DepositView { referrer: crate::deposit::with_reserved(v.referrer, 0), ..v },
            e1.push(EffectV::WrapTransfer { lamports: dep }).push(EffectV::SyncNative),
        );
    } else if v.slot_idx != 0 {
        lemma_referrer_chain_flow(v, e);
    }
}

proof fn lemma_resume_flow(v: DepositView, e: Seq<EffectV>, r: Resume)
    requires
        held(v, r),
        in_visit(r) ==> v.upline is Some,
    ensures
        resume_at(v, e, r) matches Ok((v2, e2, _)) ==> {
            &&& vault_flow(e2) == vault_flow(e)
            &&& v2.referrer.7 == v.referrer.7
            &&& upline_reserve(v2.upline) == upline_reserve(v.upline)
        },
{
    broadcast use lemma_post_referrer_keeps, lemma_finish_visit_keeps, lemma_after_loop_keeps, lemma_flow_push;
    if r == Resume::SlotBurn {
        lemma_referrer_chain_flow(v, e);
    }
}

proof fn lemma_on_upline_flow(v: DepositView, a: crate::state::AccountSnapshot)
    requires
        records_ok(v),
        v.stage is AwaitUpline,
        answer_ok(v, Event::Account(a)),
    ensures
        crate::deposit::on_upline(v, a) matches Ok((v2, e2, _)) ==> {
            &&& vault_flow(e2) == upline_reserve(v2.upline) - reserve_before(v, Event::Account(a))
            &&& v2.referrer.7 == v.referrer.7
        },
{
    broadcast use lemma_finish_visit_keeps, lemma_after_loop_keeps, lemma_next_pair_keeps, lemma_flow_push;
    assert(vault_flow(Seq::<EffectV>::empty()) == 0);
}

/// Law: in every step of a registration under a referrer, what its effects
/// move into the program's SOL vault (less what they pay out of it) is
/// exactly what the reserves of the records it works on grow by: the
/// referrer's, and the upline record it visits or has at hand. This holds
/// given sound records to start from and a sound record in each upline
/// account visited (a reserve that a slot would overwrite is then always
/// zero).
pub proof fn law_step_reserve_accounting(v: DepositView, ev: Event)
    requires
        deposit_wf(v),
        records_ok(v),
        answer_ok(v, ev),
    ensures
        deposit_step(v, ev) matches Ok((v2, e, _)) ==> vault_flow(e) == (v2.referrer.7 - v.referrer.7) + (
            upline_reserve(v2.upline) - reserve_before(v, ev)),
{
    broadcast use lemma_flow_push;
    assert(vault_flow(Seq::<EffectV>::empty()) == 0);
    match (v.stage, ev) {
        (Stage::AwaitMinimum, Event::Minimum(m)) => {
            let v1 = DepositView {
                user: Some(crate::deposit::referred_user_v(v)),
                state: crate::state::ProgramState {
                    next_upline_id: (v.state.next_upline_id + 1) as u32,
                    next_chain_id: (v.state.next_chain_id + 1) as u32,
                    ..v.state
                },
                ..v
            };
            let e = if v.ctx.user_wsol_data_len == 0 { Seq::empty().push(EffectV::CreateWsolAccount) } else { Seq::empty() };
            lemma_route_slot_flow(v1, e);
        },
        (Stage::BurnAfter { amount, before, resume }, Event::Account(a)) => {
            lemma_resume_flow(v, Seq::empty().push(EffectV::Burn { amount: 0 }), resume);
            if let Ok(after) = crate::token::spec_token_balance(
                a.lamports, a.owner@, a.data@, v.ctx.keys.token_mint@, v.ctx.keys.user_wallet@,
            ) {
                if after > before {
                    lemma_resume_flow(v, Seq::empty().push(EffectV::Burn { amount: (after - before) as u64 }), resume);
                }
            }
        },
        (Stage::NotifyRemaining { wallet, is_last, resume }, Event::Remaining(accts)) => {
            lemma_resume_flow(v, Seq::empty(), resume);
        },
        (Stage::NotifyClock { wallet, is_last, program_state_account, resume }, Event::Clock(now)) => {
            let v1 = DepositView { state: crate::notify::status_after(v.state, v.notify_data, now), ..v };
            lemma_resume_flow(v1, Seq::empty(), resume);
            match crate::notify::spec_notify_finish(v.notify_keys, v.notify_data, v.state, wallet@, is_last, now, program_state_account) {
                Ok(Some(p)) => {
                    lemma_resume_flow(v1, Seq::empty().push(EffectV::Notify(p)), resume);
                },
                _ => {},
            }
        },
        (Stage::AwaitUpline { pair }, Event::Account(a)) => {
            lemma_on_upline_flow(v, a);
        },
        _ => {},
    }
}

} // verus!
