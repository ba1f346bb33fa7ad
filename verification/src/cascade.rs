use vstd::prelude::*;
use crate::codec::{decode_user_account, entries_v, parse_user, user_v, EntryV};
use crate::error::ErrorCode;
use crate::key::{known_address, known_bytes, same_key, Key, KnownAddress};
use crate::state::{AccountSnapshot, UplineEntry, MAX_UPLINE_DEPTH};
use vstd::slice::slice_subrange;

verus! {

/// Number of airdrop accounts that may follow the base accounts.
pub const MAX_UPLINE_AIRDROP_PDAS: usize = 6;

/// How many of the accounts at `start`, `start + 1`, ... (at most six, and
/// only those that exist) are owned by the airdrop program before the first
/// one that is not.
pub open spec fn airdrop_run(accts: Seq<AccountSnapshot>, start: int, i: nat) -> nat
    decreases MAX_UPLINE_AIRDROP_PDAS - i,
{
    if i >= MAX_UPLINE_AIRDROP_PDAS || start + i >= accts.len() {
        0
    } else if accts[start + i].owner@ != known_bytes(KnownAddress::AirdropProgram) {
        0
    } else {
        1 + airdrop_run(accts, start, i + 1)
    }
}

/// Counts the airdrop-owned accounts that start at position `start`.
pub fn count_upline_airdrop_pdas(accts: &Vec<AccountSnapshot>, start: usize) -> (r: usize)
    requires
        start + MAX_UPLINE_AIRDROP_PDAS <= usize::MAX,
    ensures
        r == airdrop_run(accts@, start as int, 0),
        r <= MAX_UPLINE_AIRDROP_PDAS,
{
    let airdrop = known_address(KnownAddress::AirdropProgram);
    let mut count: usize = 0;
    let mut i: usize = 0;
    while i < MAX_UPLINE_AIRDROP_PDAS
        invariant
            0 <= i <= MAX_UPLINE_AIRDROP_PDAS,
            count <= i,
            start + MAX_UPLINE_AIRDROP_PDAS <= usize::MAX,
            airdrop@ == known_bytes(KnownAddress::AirdropProgram),
            airdrop_run(accts@, start as int, 0) == count + airdrop_run(accts@, start as int, i as nat),
        decreases MAX_UPLINE_AIRDROP_PDAS - i,
    {
        let idx = start + i;
        if idx < accts.len() {
            if same_key(&accts[idx].owner, &airdrop) {
                count = count + 1;
            } else {
                return count;
            }
        } else {
            return count;
        }
        i = i + 1;
    }
    count
}

/// Checks that the pairs of accounts from position `start` are, newest
/// first, the (account, wallet) pairs of `expected`, the referrer's upline:
/// the accounts must come in pairs, no more pairs than entries, each pair in
/// its place. Gives the number of pairs.
pub open spec fn spec_validate_pairs(keys: Seq<Seq<u8>>, start: int, expected: Seq<EntryV>) -> Result<nat, ErrorCode> {
    let n = keys.len() - start;
    if n % 2 != 0 {
        Err(ErrorCode::MissingUplineAccount)
    } else if n / 2 > expected.len() {
        Err(ErrorCode::InvalidUplineCount)
    } else {
        pair_check(keys, start, expected, 0, (n / 2) as nat)
    }
}

pub open spec fn pair_check(keys: Seq<Seq<u8>>, start: int, expected: Seq<EntryV>, i: nat, pairs: nat) -> Result<nat, ErrorCode>
    decreases pairs - i,
{
    if i >= pairs {
        Ok(pairs)
    } else if keys[start + 2 * i] != expected[expected.len() - 1 - i].0 {
        Err(ErrorCode::InvalidUplineOrder)
    } else if keys[start + 2 * i + 1] != expected[expected.len() - 1 - i].1 {
        Err(ErrorCode::InvalidUplineWallet)
    } else {
        pair_check(keys, start, expected, i + 1, pairs)
    }
}

pub open spec fn snapshot_keys(accts: Seq<AccountSnapshot>) -> Seq<Seq<u8>> {
    accts.map_values(|a: AccountSnapshot| a.key@)
}

/// Checks the upline pairs that follow position `start` against the
/// referrer's upline `expected`, and gives their number.
pub fn validate_upline_pairs(accts: &Vec<AccountSnapshot>, start: usize, expected: &Vec<UplineEntry>) -> (r: Result<usize, ErrorCode>)
    requires
        start <= accts@.len(),
    ensures
        match spec_validate_pairs(snapshot_keys(accts@), start as int, entries_v(expected@)) {
            Ok(n) => r == Ok::<usize, ErrorCode>(n as usize) && n == (accts@.len() - start) / 2,
            Err(e) => r == Err::<usize, ErrorCode>(e),
        },
{
    let ghost keys = snapshot_keys(accts@);
    let ghost ev = entries_v(expected@);
    let n = accts.len() - start;
    if n % 2 != 0 {
        return Err(ErrorCode::MissingUplineAccount);
    }
    let pairs = n / 2;
    if pairs > expected.len() {
        return Err(ErrorCode::InvalidUplineCount);
    }
    let len = expected.len();
    let mut i: usize = 0;
    while i < pairs
        invariant
            0 <= i <= pairs,
            pairs <= len,
            len == expected@.len(),
            n == accts.len() - start,
            pairs == n / 2,
            start <= accts.len(),
            keys == snapshot_keys(accts@),
            ev == entries_v(expected@),
            pair_check(keys, start as int, ev, 0, pairs as nat) == pair_check(keys, start as int, ev, i as nat, pairs as nat),
            spec_validate_pairs(keys, start as int, ev) == pair_check(keys, start as int, ev, 0, pairs as nat),
            ev.len() == len,
        decreases pairs - i,
    {
        let e = expected[len - 1 - i];
        proof {
            assert(keys[start + 2 * i] == accts@[start + 2 * i].key@);
            assert(keys[start + 2 * i + 1] == accts@[start + 2 * i + 1].key@);
            assert(ev[len - 1 - i] == (e.pda@, e.wallet@));
        }
        if !same_key(&accts[start + 2 * i].key, &e.pda) {
            return Err(ErrorCode::InvalidUplineOrder);
        }
        if !same_key(&accts[start + 2 * i + 1].key, &e.wallet) {
            return Err(ErrorCode::InvalidUplineWallet);
        }
        i = i + 1;
    }
    Ok(pairs)
}

/// An upline account whose matrix the current registration will complete:
/// owned by this program, holding a registered user with two filled slots.
pub open spec fn ready_upline(a: AccountSnapshot) -> bool {
    &&& a.owner@ == known_bytes(KnownAddress::MatrixProgram)
    &&& a.data@.len() > 8
    &&& match parse_user(a.data@.skip(8)) {
        Some((v, _)) => v.0 && v.6.2 == 2,
        None => false,
    }
}

pub open spec fn ready_count(accts: Seq<AccountSnapshot>, start: int, p: nat, limit: nat) -> nat
    decreases limit - p,
{
    if p >= limit {
        0
    } else {
        (if ready_upline(accts[start + 2 * p]) { 1nat } else { 0nat }) + ready_count(accts, start, p + 1, limit)
    }
}

/// The number of completion notices the registration will send: one for
/// the referrer, plus one per upline (among the first six pairs) whose
/// matrix is one slot from complete.
pub open spec fn spec_total_notifications(accts: Seq<AccountSnapshot>, start: int, pairs: nat) -> nat {
    1 + ready_count(accts, start, 0, if pairs < MAX_UPLINE_DEPTH { pairs } else { MAX_UPLINE_DEPTH as nat })
}

fn is_ready_upline(a: &AccountSnapshot) -> (r: bool)
    ensures
        r == ready_upline(*a),
{
    if !same_key(&a.owner, &known_address(KnownAddress::MatrixProgram)) {
        return false;
    }
    if a.data.len() <= 8 {
        return false;
    }
    let body = slice_subrange(a.data.as_slice(), 8, a.data.len());
    proof { assert(body@ =~= a.data@.skip(8)); }
    match decode_user_account(body) {
        Some(u) => u.is_registered && u.chain.filled_slots == 2,
        None => false,
    }
}

/// Counts the completion notices that the registration will send.
pub fn count_total_notifications(accts: &Vec<AccountSnapshot>, start: usize, pairs: usize) -> (r: usize)
    requires
        start + 2 * pairs <= accts@.len(),
    ensures
        r == spec_total_notifications(accts@, start as int, pairs as nat),
        r <= 1 + MAX_UPLINE_DEPTH,
{
    let limit: usize = if pairs < MAX_UPLINE_DEPTH { pairs } else { MAX_UPLINE_DEPTH };
    let mut count: usize = 0;
    let mut p: usize = 0;
    while p < limit
        invariant
            0 <= p <= limit,
            limit <= pairs,
            limit <= MAX_UPLINE_DEPTH,
            count <= p,
            start + 2 * pairs <= accts.len(),
            ready_count(accts@, start as int, 0, limit as nat) == count + ready_count(accts@, start as int, p as nat, limit as nat),
        decreases limit - p,
    {
        if is_ready_upline(&accts[start + 2 * p]) {
            count = count + 1;
        }
        p = p + 1;
    }
    1 + count
}

} // verus!
