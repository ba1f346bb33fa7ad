use vstd::prelude::*;
use crate::cascade::{airdrop_run, pair_check, ready_upline, snapshot_keys, spec_validate_pairs, MAX_UPLINE_AIRDROP_PDAS};
use crate::codec::EntryV;
use crate::deposit::{after_loop, cascade_start, deposit_step, DepositView, UPLINE_AIRDROP_START};
use crate::effects::{AccountRef, EffectV};
use crate::error::{ErrorCode, Failure};
use crate::flow::{Event, Request, Resume, Stage};
use crate::key::{known_bytes, KnownAddress};
use crate::state::AccountSnapshot;

verus! {

/// Law: a walk up the upline that ends with the deposit still unplaced
/// swaps exactly that deposit for DONUT and burns it (wrapping it again
/// first when its wrapped-SOL account was closed); it never ends the
/// registration with an unused deposit. The one refusal is a wrong DONUT
/// mint.
pub proof fn law_unplaced_deposit_is_burnt(v: DepositView, e: Seq<EffectV>)
    requires
        !v.cascade.allocated,
        v.cascade.current_deposit > 0,
    ensures
        v.ctx.keys.token_mint@ == known_bytes(KnownAddress::TokenMint) ==> (after_loop(v, e) matches Ok((v2, e2, q)) && {
            &&& v2.stage == (Stage::BurnBefore { amount: v.cascade.current_deposit, resume: Resume::LeftoverBurn })
            &&& q == Request::ReadAccount(AccountRef::UserDonut)
            &&& !v2.cascade.wsol_closed
            &&& v2.cascade.current_deposit == v.cascade.current_deposit
            &&& !v2.cascade.allocated
            &&& e2 == (if v.cascade.wsol_closed {
                e.push(EffectV::WrapTransfer { lamports: v.cascade.current_deposit }).push(EffectV::SyncNative)
            } else {
                e
            })
        }),
        v.ctx.keys.token_mint@ != known_bytes(KnownAddress::TokenMint) ==> after_loop(v, e)
            == Err::<(DepositView, Seq<EffectV>, Request), Failure>(Failure::Code(ErrorCode::InvalidTokenMintAddress)),
        after_loop(v, e) != Err::<(DepositView, Seq<EffectV>, Request), Failure>(
            Failure::Code(ErrorCode::UnusedDepositDetected),
        ),
{
}

/// Law: when the deposit completes the matrix of the upline account just
/// read while the airdrop runs, the registration pauses for a completion
/// notice (and only then does it pause for an upline's notice). The notice
/// names the wallet paired with that upline account, it is the next notice
/// of the registration, and it is flagged last exactly when it is the last
/// of the notices the registration sends.
pub proof fn law_upline_completion_notice(v: DepositView, a: AccountSnapshot)
    requires
        crate::deposit::deposit_wf(v),
        v.stage is AwaitUpline,
    ensures
        deposit_step(v, Event::Account(a)) matches Ok((v2, _, q)) ==> {
            let c = v.cascade;
            let notice = v2.stage matches Stage::NotifyRemaining { resume, .. } && resume == Resume::UplineNotify;
            &&& notice <==> (v.state.airdrop_active && ready_upline(a))
            &&& match v2.stage {
                Stage::NotifyRemaining { wallet, is_last, resume } => resume == Resume::UplineNotify ==> {
                    &&& wallet == v.remaining[c.upline_start + 2 * c.pair + 1].key
                    &&& is_last == (c.notifications_made + 1 == c.total_notifications)
                    &&& v2.cascade.notifications_made == c.notifications_made + 1
                    &&& q == Request::ReadRemaining
                },
                _ => true,
            }
        },
{
    broadcast use crate::records::lemma_finish_visit_keeps;
    let c = v.cascade;
    let wallet = v.remaining[c.upline_start + 2 * c.pair + 1];
    if !v.processed.contains(a.key@) && wallet.owner@ == crate::deposit::system_bytes()
        && a.owner@ == known_bytes(KnownAddress::MatrixProgram) && a.data@.len() > 8 {
        match crate::codec::parse_user(a.data@.skip(8)) {
            Some((u, _)) => {
                if u.0 && u.6.2 < 3 {
                    let slot = u.6.2;
                    let u1 = crate::deposit::with_chain(u, crate::matrix::place_v(u.6, c.current_user@));
                    let e1 = Seq::empty().push(EffectV::Emit(crate::state::SlotFilled {
                        slot_idx: slot, chain_id: u.6.0, user: c.current_user, owner: a.key,
                    }));
                    let v1 = DepositView {
                        processed: v.processed.push(a.key@),
                        upline: Some(u1),
                        upline_data_len: a.data@.len() as usize,
                        cascade: crate::deposit::Cascade { upline_key: a.key, ..c },
                        ..v
                    };
                    lemma_upline_slot_notice(v1, e1, slot, wallet);
                }
            },
            None => {},
        }
    }
}

proof fn lemma_upline_slot_notice(v: DepositView, e: Seq<EffectV>, slot: u8, wallet: AccountSnapshot)
    requires
        v.cascade.notifications_made < usize::MAX,
    ensures
        crate::deposit::upline_slot(v, e, slot, wallet) matches Ok((v2, _, q)) ==> {
            let c = v.cascade;
            let notice = v2.stage matches Stage::NotifyRemaining { resume, .. } && resume == Resume::UplineNotify;
            &&& notice <==> (v.state.airdrop_active && slot >= 2)
            &&& match v2.stage {
                Stage::NotifyRemaining { wallet: w, is_last, resume } => resume == Resume::UplineNotify ==> {
                    &&& w == wallet.key
                    &&& is_last == (c.notifications_made + 1 == c.total_notifications)
                    &&& v2.cascade.notifications_made == c.notifications_made + 1
                    &&& q == Request::ReadRemaining
                },
                _ => true,
            }
        },
{
    broadcast use crate::records::lemma_finish_visit_keeps;
}

/// The `i`-th pair of accounts from position `start` holds the account and
/// the wallet of the `i`-th newest entry of `upline`.
pub open spec fn pair_in_place(rem: Seq<AccountSnapshot>, start: int, upline: Seq<EntryV>, i: int) -> bool {
    &&& rem[start + 2 * i].key@ == upline[upline.len() - 1 - i].0
    &&& rem[start + 2 * i + 1].key@ == upline[upline.len() - 1 - i].1
}

proof fn lemma_run_length(accts: Seq<AccountSnapshot>, start: int, i: nat, k: nat)
    requires
        i <= k <= MAX_UPLINE_AIRDROP_PDAS,
        start + k <= accts.len(),
        forall|j: int| start + i <= j < start + k ==> (#[trigger] accts[j]).owner@ == known_bytes(KnownAddress::AirdropProgram),
        k == MAX_UPLINE_AIRDROP_PDAS || start + k >= accts.len() || accts[start + k].owner@ != known_bytes(KnownAddress::AirdropProgram),
    ensures
        airdrop_run(accts, start, i) == k - i,
    decreases k - i,
{
    if i < k {
        assert(accts[start + i].owner@ == known_bytes(KnownAddress::AirdropProgram));
        lemma_run_length(accts, start, i + 1, k);
    }
}

proof fn lemma_pairs_in_place(rem: Seq<AccountSnapshot>, start: int, upline: Seq<EntryV>, i: nat, pairs: nat)
    requires
        i <= pairs,
        0 <= start,
        start + 2 * pairs <= rem.len(),
        forall|j: int| i <= j < pairs ==> #[trigger] pair_in_place(rem, start, upline, j),
    ensures
        pair_check(snapshot_keys(rem), start, upline, i, pairs) == Ok::<nat, ErrorCode>(pairs),
    decreases pairs - i,
{
    if i < pairs {
        assert(pair_in_place(rem, start, upline, i as int));
        assert(snapshot_keys(rem)[start + 2 * i] == rem[start + 2 * i].key@);
        assert(snapshot_keys(rem)[start + 2 * i + 1] == rem[start + 2 * i + 1].key@);
        lemma_pairs_in_place(rem, start, upline, i + 1, pairs);
    }
}

/// Law: the upline pairs start right after the airdrop accounts that follow
/// the fourteen base accounts: with `k` airdrop-owned accounts from position
/// 14 (at most six, ended by an account of another owner or by the end of
/// the list), and pairs from position 14 + k that are, newest first, the
/// referrer's upline, a deposit that completes a referrer with a referrer
/// goes on to read the first upline account, at position 14 + k.
pub proof fn law_upline_pairs_follow_airdrop_accounts(v: DepositView, e: Seq<EffectV>, k: nat)
    requires
        k <= MAX_UPLINE_AIRDROP_PDAS,
        forall|j: int| UPLINE_AIRDROP_START <= j < UPLINE_AIRDROP_START + k
            ==> (#[trigger] v.remaining[j]).owner@ == known_bytes(KnownAddress::AirdropProgram),
        k == MAX_UPLINE_AIRDROP_PDAS || UPLINE_AIRDROP_START + k >= v.remaining.len()
            || v.remaining[UPLINE_AIRDROP_START + k].owner@ != known_bytes(KnownAddress::AirdropProgram),
        v.referrer.1 is Some,
        v.deposit_amount > 0,
        UPLINE_AIRDROP_START + k < v.remaining.len(),
        v.remaining.len() <= usize::MAX,
        (v.remaining.len() - (UPLINE_AIRDROP_START + k)) % 2 == 0,
        (v.remaining.len() - (UPLINE_AIRDROP_START + k)) / 2 <= v.referrer.5.len(),
        forall|i: int| 0 <= i < (v.remaining.len() - (UPLINE_AIRDROP_START + k)) / 2
            ==> #[trigger] pair_in_place(v.remaining, UPLINE_AIRDROP_START + k, v.referrer.5, i),
    ensures
        cascade_start(v, e) matches Ok((v2, e2, q)) && {
            let s = UPLINE_AIRDROP_START + k;
            &&& v2.cascade.upline_start == s
            &&& v2.cascade.pair_count == (v.remaining.len() - s) / 2
            &&& v2.stage == (Stage::AwaitUpline { pair: 0 })
            &&& q == Request::ReadAccount(AccountRef::Remaining(s as usize))
            &&& e2 == e
        },
{
    let s = UPLINE_AIRDROP_START + k;
    lemma_run_length(v.remaining, UPLINE_AIRDROP_START as int, 0, k);
    let keys = snapshot_keys(v.remaining);
    let n = ((v.remaining.len() - s) / 2) as nat;
    lemma_pairs_in_place(v.remaining, s as int, v.referrer.5, 0, n);
    assert(keys.len() == v.remaining.len());
    assert(spec_validate_pairs(keys, s as int, v.referrer.5) == Ok::<nat, ErrorCode>(n));
}

} // verus!
