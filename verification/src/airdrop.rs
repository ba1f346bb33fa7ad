use vstd::prelude::*;
use crate::codec::{i64_at, spec_i64_from_le};
use crate::error::Failure;
use crate::key::{known_address, known_bytes, same_key, Key, KnownAddress};
use crate::solana::{find_program_address, program_address};
use crate::state::{AccountSnapshot, AirdropProgramState, ProgramState};
use vstd::bytes::{lemma_auto_spec_u64_to_from_le_bytes, spec_u64_from_le_bytes, spec_u64_to_le_bytes};

verus! {

/// Length of a week in seconds.
pub const WEEK_DURATION_SECONDS: i64 = 604800;

/// Number of weeks that the airdrop lasts.
pub const AIRDROP_MAX_WEEKS: u8 = 36;

/// Shortest airdrop state account (tag included) that holds the fields read.
pub const AIRDROP_STATE_MIN_LEN: usize = 113;

/// Offset of the airdrop's current week in its state account.
pub const CURRENT_WEEK_OFFSET: usize = 72;

/// Offset of the airdrop's start time in its state account.
pub const START_TIMESTAMP_OFFSET: usize = 105;

/// `now - start`, held within the range of 64-bit signed numbers.
pub open spec fn saturating_elapsed(now: i64, start: i64) -> int {
    let d = now - start;
    if d > i64::MAX {
        i64::MAX as int
    } else if d < i64::MIN {
        i64::MIN as int
    } else {
        d
    }
}

/// The first fields of the airdrop program's state as its account stores
/// them after the 8-byte tag: admin, DONUT mint, current week, matrix
/// program, start time.
pub open spec fn airdrop_state_head(s: AirdropProgramState) -> Seq<u8> {
    s.admin@ + s.donut_token_mint@ + seq![s.current_week] + s.matrix_program_id@
        + spec_u64_to_le_bytes(s.start_timestamp as u64)
}

/// Law: in an airdrop state account, the byte at the current-week offset is
/// the stored week and the eight bytes at the start-time offset are the
/// start time, whatever the tag and the fields after them; the account is
/// then at least as long as the notice needs.
pub proof fn lemma_airdrop_state_offsets(s: AirdropProgramState, tag: Seq<u8>, rest: Seq<u8>)
    requires
        tag.len() == 8,
    ensures
        ({
            let d = tag + airdrop_state_head(s) + rest;
            &&& d.len() >= AIRDROP_STATE_MIN_LEN
            &&& d[CURRENT_WEEK_OFFSET as int] == s.current_week
            &&& spec_i64_from_le(d.subrange(START_TIMESTAMP_OFFSET as int, AIRDROP_STATE_MIN_LEN as int)) == s.start_timestamp
        }),
{
    lemma_auto_spec_u64_to_from_le_bytes();
    let t = s.start_timestamp;
    let u = t as u64;
    let bytes = spec_u64_to_le_bytes(u);
    let d = tag + airdrop_state_head(s) + rest;
    assert(d.subrange(START_TIMESTAMP_OFFSET as int, AIRDROP_STATE_MIN_LEN as int) =~= bytes);
    assert(d[CURRENT_WEEK_OFFSET as int] == s.current_week);
    assert(spec_u64_from_le_bytes(bytes) == u);
    assert(t >= 0 ==> (t as u64) == t) by (bit_vector);
    assert(t < 0 ==> (t as u64) == t + 0x1_0000_0000_0000_0000) by (bit_vector);
}

/// The airdrop week that `elapsed` seconds since the start fall in, counted
/// from 1 and capped at the last week; no time or negative time is week 1.
pub open spec fn status_week(elapsed: int) -> int {
    if elapsed <= 0 {
        1
    } else {
        let w = elapsed / (WEEK_DURATION_SECONDS as int) + 1;
        if w < AIRDROP_MAX_WEEKS { w } else { AIRDROP_MAX_WEEKS as int }
    }
}

/// Division that rounds toward zero, as machine division does.
pub open spec fn trunc_div(a: int, b: int) -> int {
    if a >= 0 { a / b } else { -((-a) / b) }
}

/// The week number sent with a matrix completion: whole weeks elapsed
/// (rounded toward zero) plus one, capped at the last week, kept to its low
/// 8 bits.
pub open spec fn notify_week(elapsed: int) -> u8 {
    let w = trunc_div(elapsed, WEEK_DURATION_SECONDS as int) + 1;
    (if w < AIRDROP_MAX_WEEKS { w } else { AIRDROP_MAX_WEEKS as int }) as u8
}

fn elapsed_seconds(now: i64, start: i64) -> (r: i64)
    ensures
        r == saturating_elapsed(now, start),
{
    let d: i128 = now as i128 - start as i128;
    if d > i64::MAX as i128 {
        i64::MAX
    } else if d < i64::MIN as i128 {
        i64::MIN
    } else {
        d as i64
    }
}

/// The airdrop week of time `now` for an airdrop that started at `start`.
pub fn current_airdrop_week(start: i64, now: i64) -> (r: u8)
    ensures
        r == status_week(saturating_elapsed(now, start)),
        1 <= r <= AIRDROP_MAX_WEEKS,
{
    let e = elapsed_seconds(now, start);
    if e <= 0 {
        1
    } else {
        let w = e / WEEK_DURATION_SECONDS + 1;
        if w < AIRDROP_MAX_WEEKS as i64 { w as u8 } else { AIRDROP_MAX_WEEKS }
    }
}

/// The week number that a completion notice carries at time `now`.
pub fn notified_week(start: i64, now: i64) -> (r: u8)
    ensures
        r == notify_week(saturating_elapsed(now, start)),
{
    let e: i128 = elapsed_seconds(now, start) as i128;
    let q: i128 = if e >= 0 { e / (WEEK_DURATION_SECONDS as i128) } else { -((-e) / (WEEK_DURATION_SECONDS as i128)) };
    let w: i128 = q + 1;
    let c: i128 = if w < AIRDROP_MAX_WEEKS as i128 { w } else { AIRDROP_MAX_WEEKS as i128 };
    c as u8
}

/// Law: the airdrop week lies between 1 and the last week, never goes back
/// as time passes, and reaches the last week once 35 weeks have elapsed.
pub proof fn lemma_status_week_bounds(e1: int, e2: int)
    ensures
        1 <= status_week(e1) <= AIRDROP_MAX_WEEKS,
        e1 <= e2 ==> status_week(e1) <= status_week(e2),
        e1 >= 35 * WEEK_DURATION_SECONDS ==> status_week(e1) == AIRDROP_MAX_WEEKS,
{
    if e1 <= e2 && e1 > 0 {
        assert(e1 / 604800 <= e2 / 604800) by (nonlinear_arith)
            requires e1 <= e2, e1 > 0;
    }
    if e1 >= 35 * 604800 {
        assert(e1 / 604800 >= 35) by (nonlinear_arith)
            requires e1 >= 35 * 604800;
    }
}

/// Law: except for times more than a week before the start, the week sent
/// with a completion notice is the airdrop week.
pub proof fn lemma_notify_week_matches(e: int)
    requires
        e > -(WEEK_DURATION_SECONDS as int),
    ensures
        notify_week(e) as int == status_week(e),
{
    if e < 0 {
        assert((-e) / 604800 == 0) by (nonlinear_arith)
            requires 0 < -e < 604800;
    }
    if e > 0 {
        assert(e / 604800 >= 0) by (nonlinear_arith)
            requires e > 0;
    }
}

/// `after` is the program state once the airdrop's status has been brought
/// up to date from the airdrop state `data` at time `now`: the airdrop ends
/// (recording `now`) when its stored week or the week of `now` has reached
/// the last week; an inactive airdrop or a too short account changes nothing.
pub open spec fn airdrop_status_updated(before: ProgramState, data: Seq<u8>, now: i64, after: ProgramState) -> bool {
    if !before.airdrop_active || data.len() < AIRDROP_STATE_MIN_LEN {
        after == before
    } else {
        let week = data[CURRENT_WEEK_OFFSET as int];
        let start = spec_i64_from_le(data.subrange(START_TIMESTAMP_OFFSET as int, AIRDROP_STATE_MIN_LEN as int));
        let ended = week >= AIRDROP_MAX_WEEKS || status_week(saturating_elapsed(now, start)) >= AIRDROP_MAX_WEEKS;
        if ended {
            after == ProgramState { airdrop_active: false, airdrop_end_timestamp: now, ..before }
        } else {
            after == before
        }
    }
}

/// Brings the airdrop's status up to date from the airdrop program's state
/// account data at time `now`.
pub fn check_and_update_airdrop_status(state: &mut ProgramState, data: &[u8], now: i64)
    ensures
        airdrop_status_updated(*old(state), data@, now, *final(state)),
{
    if !state.airdrop_active {
        return;
    }
    if data.len() < AIRDROP_STATE_MIN_LEN {
        return;
    }
    let current_week = data[CURRENT_WEEK_OFFSET];
    let start = i64_at(data, START_TIMESTAMP_OFFSET);
    let calculated = current_airdrop_week(start, now);
    if current_week >= AIRDROP_MAX_WEEKS || calculated >= AIRDROP_MAX_WEEKS {
        state.airdrop_active = false;
        state.airdrop_end_timestamp = now;
    }
}

/// The seed `user_account`.
pub open spec fn user_account_seed() -> Seq<u8> {
    seq![117u8, 115, 101, 114, 95, 97, 99, 99, 111, 117, 110, 116]
}

/// The seed `program_state`.
pub open spec fn program_state_seed() -> Seq<u8> {
    seq![112u8, 114, 111, 103, 114, 97, 109, 95, 115, 116, 97, 116, 101]
}

/// The seed `weekly_data`.
pub open spec fn weekly_data_seed() -> Seq<u8> {
    seq![119u8, 101, 101, 107, 108, 121, 95, 100, 97, 116, 97]
}

/// The seeds of the airdrop account of `wallet`.
pub open spec fn user_pda_seeds(wallet: Seq<u8>) -> Seq<Seq<u8>> {
    seq![user_account_seed(), wallet]
}

/// The seeds of the airdrop's weekly account of week `week`.
pub open spec fn week_pda_seeds(week: u8) -> Seq<Seq<u8>> {
    seq![weekly_data_seed(), seq![week]]
}

pub(crate) fn user_pda_seed_vec(wallet: &Key) -> (r: Vec<Vec<u8>>)
    ensures
        r.deep_view() == user_pda_seeds(wallet@),
{
    let mut w: Vec<u8> = Vec::new();
    let mut i: usize = 0;
    while i < 32
        invariant
            0 <= i <= 32,
            w@ == wallet@.take(i as int),
        decreases 32 - i,
    {
        w.push(wallet.bytes[i]);
        proof { assert(wallet@.take(i + 1) =~= wallet@.take(i as int).push(wallet@[i as int])); }
        i = i + 1;
    }
    proof { assert(wallet@.take(32) =~= wallet@); }
    let r = vec![vec![117u8, 115, 101, 114, 95, 97, 99, 99, 111, 117, 110, 116], w];
    proof { assert(r.deep_view() =~~= user_pda_seeds(wallet@)); }
    r
}

pub(crate) fn program_state_seed_vec() -> (r: Vec<Vec<u8>>)
    ensures
        r.deep_view() == seq![program_state_seed()],
{
    let r = vec![vec![112u8, 114, 111, 103, 114, 97, 109, 95, 115, 116, 97, 116, 101]];
    proof { assert(r.deep_view() =~~= seq![program_state_seed()]); }
    r
}

pub(crate) fn week_seed_vec(week: u8) -> (r: Vec<Vec<u8>>)
    ensures
        r.deep_view() == week_pda_seeds(week),
{
    let r = vec![vec![119u8, 101, 101, 107, 108, 121, 95, 100, 97, 116, 97], vec![week]];
    proof { assert(r.deep_view() =~~= week_pda_seeds(week)); }
    r
}

/// The airdrop program's address for the given seeds.
pub open spec fn airdrop_pda(seeds: Seq<Seq<u8>>) -> Option<(Seq<u8>, u8)> {
    program_address(seeds, known_bytes(KnownAddress::AirdropProgram))
}

/// Derives the airdrop program's address for `seeds`; fails only when no
/// bump seed gives a valid address.
pub(crate) fn airdrop_address(seeds: &Vec<Vec<u8>>) -> (r: Result<Key, Failure>)
    ensures
        match airdrop_pda(seeds.deep_view()) {
            Some((a, _)) => r matches Ok(k) && k@ == a,
            None => r == Err::<Key, Failure>(Failure::NoBumpSeed),
        },
{
    match find_program_address(seeds, &known_address(KnownAddress::AirdropProgram)) {
        Some((k, _)) => Ok(k),
        None => Err(Failure::NoBumpSeed),
    }
}

/// `i` is the first account of `accts` whose address is `k`.
pub open spec fn is_first_with_key(accts: Seq<AccountSnapshot>, k: Seq<u8>, i: int) -> bool {
    &&& 0 <= i < accts.len()
    &&& accts[i].key@ == k
    &&& forall|j: int| 0 <= j < i ==> accts[j].key@ != k
}

/// Whether the first account at address `pda` is a live airdrop account:
/// owned by the airdrop program, funded and holding data. No such account
/// means no.
pub open spec fn spec_user_exists(accts: Seq<AccountSnapshot>, pda: Seq<u8>) -> bool {
    exists|i: int| #[trigger] is_first_with_key(accts, pda, i)
        && accts[i].owner@ == known_bytes(KnownAddress::AirdropProgram)
        && accts[i].lamports > 0
        && accts[i].data@.len() > 0
}

/// Whether `user_wallet` has a live account in the airdrop program, judged
/// by the first of the given accounts at that account's address.
pub fn user_exists_in_airdrop(remaining: &Vec<AccountSnapshot>, user_wallet: &Key) -> (r: Result<bool, Failure>)
    ensures
        match airdrop_pda(user_pda_seeds(user_wallet@)) {
            Some((pda, _)) => r == Ok::<bool, Failure>(spec_user_exists(remaining@, pda)),
            None => r == Err::<bool, Failure>(Failure::NoBumpSeed),
        },
{
    let seeds = user_pda_seed_vec(user_wallet);
    let pda = airdrop_address(&seeds)?;
    let ghost expected = airdrop_pda(user_pda_seeds(user_wallet@));
    assert(expected matches Some((a, _)) && a == pda@);
    let airdrop = known_address(KnownAddress::AirdropProgram);
    let mut i: usize = 0;
    while i < remaining.len()
        invariant
            0 <= i <= remaining@.len(),
            forall|j: int| 0 <= j < i ==> remaining@[j].key@ != pda@,
            airdrop@ == known_bytes(KnownAddress::AirdropProgram),
            airdrop_pda(user_pda_seeds(user_wallet@)) matches Some((a, _)) && a == pda@,
        decreases remaining@.len() - i,
    {
        let a = &remaining[i];
        if same_key(&a.key, &pda) {
            let live = same_key(&a.owner, &airdrop) && a.lamports > 0 && a.data.len() > 0;
            proof {
                assert(is_first_with_key(remaining@, pda@, i as int));
                assert(live == (remaining@[i as int].owner@ == known_bytes(KnownAddress::AirdropProgram)
                    && remaining@[i as int].lamports > 0 && remaining@[i as int].data@.len() > 0));
                if !live {
                    assert forall|k: int| #[trigger] is_first_with_key(remaining@, pda@, k) implies k == i by {
                        if k < i {
                        } else if k > i {
                            assert(remaining@[i as int].key@ == pda@);
                        }
                    }
                }
                assert(spec_user_exists(remaining@, pda@) == live);
            }
            return Ok(live);
        }
        i = i + 1;
    }
    Ok(false)
}

} // verus!
