use vstd::prelude::*;
use crate::airdrop::{
    airdrop_address, program_state_seed_vec, user_pda_seed_vec, week_seed_vec,
    airdrop_pda, check_and_update_airdrop_status, airdrop_status_updated, is_first_with_key, notified_week,
    notify_week, program_state_seed, saturating_elapsed, spec_user_exists, user_exists_in_airdrop, user_pda_seeds,
    week_pda_seeds, AIRDROP_STATE_MIN_LEN, CURRENT_WEEK_OFFSET, START_TIMESTAMP_OFFSET,
};
use crate::codec::{i64_at, spec_i64_from_le};
use crate::error::{ErrorCode, Failure};
use crate::key::{known_address, known_bytes, same_key, Key, KnownAddress};
use crate::state::{AccountSnapshot, ProgramState};

verus! {

/// The addresses that a completion notice names.
#[derive(Clone, Copy, Debug)]
pub struct NotifyTargets {
    pub program_state: Key,
    pub referrer_wallet: Key,
    pub user_account: Key,
    pub current_week_data: Key,
    pub next_week_data: Key,
    pub instructions_sysvar: Key,
    pub airdrop_program: Key,
}

/// Where, among the remaining accounts, each account of a completion
/// notice was found.
#[derive(Clone, Copy, Debug)]
pub struct NotifySlots {
    pub program_state: Option<usize>,
    pub referrer_wallet: Option<usize>,
    pub user_account: Option<usize>,
    pub current_week_data: Option<usize>,
    pub next_week_data: Option<usize>,
    pub instructions_sysvar: Option<usize>,
    pub airdrop_program: Option<usize>,
}

/// The abstract content of the addresses that a completion notice names.
pub struct TargetsV {
    pub program_state: Seq<u8>,
    pub referrer_wallet: Seq<u8>,
    pub user_account: Seq<u8>,
    pub current_week_data: Seq<u8>,
    pub next_week_data: Seq<u8>,
    pub instructions_sysvar: Seq<u8>,
    pub airdrop_program: Seq<u8>,
}

impl View for NotifyTargets {
    type V = TargetsV;

    open spec fn view(&self) -> TargetsV {
        TargetsV {
            program_state: self.program_state@,
            referrer_wallet: self.referrer_wallet@,
            user_account: self.user_account@,
            current_week_data: self.current_week_data@,
            next_week_data: self.next_week_data@,
            instructions_sysvar: self.instructions_sysvar@,
            airdrop_program: self.airdrop_program@,
        }
    }
}

pub open spec fn keys_v(keys: Seq<Key>) -> Seq<Seq<u8>> {
    keys.map_values(|k: Key| k@)
}

pub broadcast proof fn lemma_keys_push(s: Seq<Key>, k: Key)
    ensures
        #[trigger] keys_v(s.push(k)) == keys_v(s).push(k@),
{
    assert(keys_v(s.push(k)) =~= keys_v(s).push(k@));
}

pub open spec fn no_slots() -> NotifySlots {
    NotifySlots {
        program_state: None,
        referrer_wallet: None,
        user_account: None,
        current_week_data: None,
        next_week_data: None,
        instructions_sysvar: None,
        airdrop_program: None,
    }
}

pub open spec fn at_if(keys: Seq<Seq<u8>>, i: int, k: Seq<u8>) -> Option<usize> {
    if keys[i] == k { Some(i as usize) } else { None }
}

/// The accounts found at their usual positions 7 to 13, when there are
/// more than 13 accounts.
pub open spec fn fast_slots(keys: Seq<Seq<u8>>, t: TargetsV) -> NotifySlots {
    if keys.len() > 13 {
        NotifySlots {
            program_state: at_if(keys, 7, t.program_state),
            user_account: at_if(keys, 8, t.user_account),
            current_week_data: at_if(keys, 9, t.current_week_data),
            next_week_data: at_if(keys, 10, t.next_week_data),
            referrer_wallet: at_if(keys, 11, t.referrer_wallet),
            airdrop_program: at_if(keys, 12, t.airdrop_program),
            instructions_sysvar: at_if(keys, 13, t.instructions_sysvar),
        }
    } else {
        no_slots()
    }
}

pub open spec fn needs_scan(s: NotifySlots) -> bool {
    s.referrer_wallet is None || s.user_account is None || s.current_week_data is None
        || s.next_week_data is None || s.instructions_sysvar is None || s.airdrop_program is None
}

/// One step of the search through all accounts: the account at `i` with
/// address `k` fills the state account if that is still missing, and then
/// the first of the other missing accounts (in the order referrer wallet,
/// user account, current week, next week, instructions, airdrop program)
/// whose address it has.
pub open spec fn scan_step(s: NotifySlots, k: Seq<u8>, i: usize, t: TargetsV) -> NotifySlots {
    let s1 = if s.program_state is None && k == t.program_state { NotifySlots { program_state: Some(i), ..s } } else { s };
    if s1.referrer_wallet is None && k == t.referrer_wallet {
        NotifySlots { referrer_wallet: Some(i), ..s1 }
    } else if s1.user_account is None && k == t.user_account {
        NotifySlots { user_account: Some(i), ..s1 }
    } else if s1.current_week_data is None && k == t.current_week_data {
        NotifySlots { current_week_data: Some(i), ..s1 }
    } else if s1.next_week_data is None && k == t.next_week_data {
        NotifySlots { next_week_data: Some(i), ..s1 }
    } else if s1.instructions_sysvar is None && k == t.instructions_sysvar {
        NotifySlots { instructions_sysvar: Some(i), ..s1 }
    } else if s1.airdrop_program is None && k == t.airdrop_program {
        NotifySlots { airdrop_program: Some(i), ..s1 }
    } else {
        s1
    }
}

pub open spec fn scan_slots(keys: Seq<Seq<u8>>, n: nat, s: NotifySlots, t: TargetsV) -> NotifySlots
    decreases n,
{
    if n == 0 {
        s
    } else {
        scan_step(scan_slots(keys, (n - 1) as nat, s, t), keys[n - 1], (n - 1) as usize, t)
    }
}

/// Where the accounts of a completion notice are: at their usual positions,
/// and, when any but the state account is missing there, by a search
/// through all accounts.
pub open spec fn resolve_slots(keys: Seq<Seq<u8>>, t: TargetsV) -> NotifySlots {
    let s = fast_slots(keys, t);
    if needs_scan(s) { scan_slots(keys, keys.len(), s, t) } else { s }
}

fn at_if_exec(keys: &Vec<Key>, i: usize, k: &Key) -> (r: Option<usize>)
    requires
        i < keys@.len(),
    ensures
        r == at_if(keys_v(keys@), i as int, k@),
{
    if same_key(&keys[i], k) { Some(i) } else { None }
}

/// Finds the accounts of a completion notice among `keys`.
pub fn resolve_notify_slots(keys: &Vec<Key>, t: &NotifyTargets) -> (r: NotifySlots)
    ensures
        r == resolve_slots(keys_v(keys@), t@),
{
    let ghost kv = keys_v(keys@);
    let mut s = NotifySlots {
        program_state: None,
        referrer_wallet: None,
        user_account: None,
        current_week_data: None,
        next_week_data: None,
        instructions_sysvar: None,
        airdrop_program: None,
    };
    if keys.len() > 13 {
        s = NotifySlots {
            program_state: at_if_exec(keys, 7, &t.program_state),
            user_account: at_if_exec(keys, 8, &t.user_account),
            current_week_data: at_if_exec(keys, 9, &t.current_week_data),
            next_week_data: at_if_exec(keys, 10, &t.next_week_data),
            referrer_wallet: at_if_exec(keys, 11, &t.referrer_wallet),
            airdrop_program: at_if_exec(keys, 12, &t.airdrop_program),
            instructions_sysvar: at_if_exec(keys, 13, &t.instructions_sysvar),
        };
    }
    assert(s == fast_slots(kv, t@));
    if s.referrer_wallet.is_none() || s.user_account.is_none() || s.current_week_data.is_none()
        || s.next_week_data.is_none() || s.instructions_sysvar.is_none() || s.airdrop_program.is_none() {
        let ghost s0 = s;
        let mut i: usize = 0;
        while i < keys.len()
            invariant
                0 <= i <= keys@.len(),
                kv == keys_v(keys@),
                s == scan_slots(kv, i as nat, s0, t@),
            decreases keys@.len() - i,
        {
            let k = &keys[i];
            if s.program_state.is_none() && same_key(k, &t.program_state) {
                s.program_state = Some(i);
            }
            if s.referrer_wallet.is_none() && same_key(k, &t.referrer_wallet) {
                s.referrer_wallet = Some(i);
            } else if s.user_account.is_none() && same_key(k, &t.user_account) {
                s.user_account = Some(i);
            } else if s.current_week_data.is_none() && same_key(k, &t.current_week_data) {
                s.current_week_data = Some(i);
            } else if s.next_week_data.is_none() && same_key(k, &t.next_week_data) {
                s.next_week_data = Some(i);
            } else if s.instructions_sysvar.is_none() && same_key(k, &t.instructions_sysvar) {
                s.instructions_sysvar = Some(i);
            } else if s.airdrop_program.is_none() && same_key(k, &t.airdrop_program) {
                s.airdrop_program = Some(i);
            }
            proof {
                assert(kv[i as int] == k@);
            }
            i = i + 1;
        }
    }
    s
}

/// Everything needed to send a completion notice to the airdrop program.
#[derive(Clone, Copy, Debug)]
pub struct NotifyPlan {
    /// Position of the airdrop state account that was read.
    pub program_state_account: usize,
    pub referrer_wallet: usize,
    pub user_account: usize,
    pub current_week_data: usize,
    pub next_week_data: usize,
    pub instructions_sysvar: usize,
    pub airdrop_program: usize,
    pub targets: NotifyTargets,
    pub current_week: u8,
    pub actual_week: u8,
    pub is_last: bool,
}

/// The abstract content of a completion notice's plan.
pub struct NotifyPlanV {
    pub program_state_account: usize,
    pub referrer_wallet: usize,
    pub user_account: usize,
    pub current_week_data: usize,
    pub next_week_data: usize,
    pub instructions_sysvar: usize,
    pub airdrop_program: usize,
    pub targets: TargetsV,
    pub current_week: u8,
    pub actual_week: u8,
    pub is_last: bool,
}

impl View for NotifyPlan {
    type V = NotifyPlanV;

    open spec fn view(&self) -> NotifyPlanV {
        NotifyPlanV {
            program_state_account: self.program_state_account,
            referrer_wallet: self.referrer_wallet,
            user_account: self.user_account,
            current_week_data: self.current_week_data,
            next_week_data: self.next_week_data,
            instructions_sysvar: self.instructions_sysvar,
            airdrop_program: self.airdrop_program,
            targets: self.targets@,
            current_week: self.current_week,
            actual_week: self.actual_week,
            is_last: self.is_last,
        }
    }
}

/// The plan once every account was found, or the error for the first
/// missing one.
pub open spec fn plan_from_slots(
    s: NotifySlots,
    program_state_account: usize,
    t: TargetsV,
    current_week: u8,
    actual_week: u8,
    is_last: bool,
) -> Result<NotifyPlanV, Failure> {
    if s.program_state is None {
        Err(Failure::Code(ErrorCode::MissingUplineAccount))
    } else if s.referrer_wallet is None {
        Err(Failure::Code(ErrorCode::MissingUplineAccount))
    } else if s.user_account is None {
        Err(Failure::Code(ErrorCode::UserNotRegisteredInAirdrop))
    } else if s.current_week_data is None {
        Err(Failure::Code(ErrorCode::MissingUplineAccount))
    } else if s.next_week_data is None {
        Err(Failure::Code(ErrorCode::MissingUplineAccount))
    } else if s.instructions_sysvar is None {
        Err(Failure::Code(ErrorCode::MissingUplineAccount))
    } else if s.airdrop_program is None {
        Err(Failure::Code(ErrorCode::MissingUplineAccount))
    } else {
        Ok(NotifyPlanV {
            program_state_account,
            referrer_wallet: s.referrer_wallet->0,
            user_account: s.user_account->0,
            current_week_data: s.current_week_data->0,
            next_week_data: s.next_week_data->0,
            instructions_sysvar: s.instructions_sysvar->0,
            airdrop_program: s.airdrop_program->0,
            targets: t,
            current_week,
            actual_week,
            is_last,
        })
    }
}

fn plan_from_slots_exec(
    s: NotifySlots,
    program_state_account: usize,
    t: NotifyTargets,
    current_week: u8,
    actual_week: u8,
    is_last: bool,
) -> (r: Result<NotifyPlan, Failure>)
    ensures
        match plan_from_slots(s, program_state_account, t@, current_week, actual_week, is_last) {
            Ok(pv) => r matches Ok(p) && p@ == pv,
            Err(e) => r == Err::<NotifyPlan, Failure>(e),
        },
{
    if s.program_state.is_none() {
        return Err(Failure::Code(ErrorCode::MissingUplineAccount));
    }
    let referrer_wallet = match s.referrer_wallet { Some(i) => i, None => return Err(Failure::Code(ErrorCode::MissingUplineAccount)) };
    let user_account = match s.user_account { Some(i) => i, None => return Err(Failure::Code(ErrorCode::UserNotRegisteredInAirdrop)) };
    let current_week_data = match s.current_week_data { Some(i) => i, None => return Err(Failure::Code(ErrorCode::MissingUplineAccount)) };
    let next_week_data = match s.next_week_data { Some(i) => i, None => return Err(Failure::Code(ErrorCode::MissingUplineAccount)) };
    let instructions_sysvar = match s.instructions_sysvar { Some(i) => i, None => return Err(Failure::Code(ErrorCode::MissingUplineAccount)) };
    let airdrop_program = match s.airdrop_program { Some(i) => i, None => return Err(Failure::Code(ErrorCode::MissingUplineAccount)) };
    Ok(NotifyPlan {
        program_state_account,
        referrer_wallet,
        user_account,
        current_week_data,
        next_week_data,
        instructions_sysvar,
        airdrop_program,
        targets: t,
        current_week,
        actual_week,
        is_last,
    })
}

/// What a completion notice needs first: nothing when the airdrop is
/// inactive, else the time, after the airdrop state account at the given
/// position has been found.
#[derive(Clone, Copy, Debug)]
pub enum NotifyStart {
    Skip,
    NeedClock { program_state_account: usize },
}

/// Position of the airdrop state account: position 7 when it is there,
/// else the first account with its address.
pub open spec fn state_account_index(accts: Seq<AccountSnapshot>, pda: Seq<u8>) -> Option<int> {
    if accts.len() > 7 && accts[7].key@ == pda {
        Some(7)
    } else if exists|i: int| is_first_with_key(accts, pda, i) {
        Some(choose|i: int| is_first_with_key(accts, pda, i))
    } else {
        None
    }
}

/// The first part of a completion notice for `wallet`'s matrix, over the
/// accounts as they are now: the wallet must have an airdrop account, the
/// airdrop state account must be present and long enough.
pub open spec fn spec_notify_begin(accts: Seq<AccountSnapshot>, wallet: Seq<u8>, active: bool) -> Result<NotifyStart, Failure> {
    if !active {
        Ok(NotifyStart::Skip)
    } else {
        match airdrop_pda(user_pda_seeds(wallet)) {
            None => Err(Failure::NoBumpSeed),
            Some((upda, _)) => if !spec_user_exists(accts, upda) {
                Err(Failure::Code(ErrorCode::UserNotRegisteredInAirdrop))
            } else {
                match airdrop_pda(seq![program_state_seed()]) {
                    None => Err(Failure::NoBumpSeed),
                    Some((ppda, _)) => match state_account_index(accts, ppda) {
                        None => Err(Failure::Code(ErrorCode::MissingUplineAccount)),
                        Some(i) => if accts[i].data@.len() < AIRDROP_STATE_MIN_LEN {
                            Err(Failure::Code(ErrorCode::MissingUplineAccount))
                        } else {
                            Ok(NotifyStart::NeedClock { program_state_account: i as usize })
                        },
                    },
                }
            },
        }
    }
}

fn find_state_account(accts: &Vec<AccountSnapshot>, pda: &Key) -> (r: Option<usize>)
    ensures
        state_account_index(accts@, pda@) is None ==> r is None,
        r matches Some(j) ==> state_account_index(accts@, pda@) == Some(j as int) && j < accts@.len(),
        state_account_index(accts@, pda@) is Some ==> r is Some,
{
    if accts.len() > 7 && same_key(&accts[7].key, pda) {
        return Some(7);
    }
    let mut i: usize = 0;
    while i < accts.len()
        invariant
            0 <= i <= accts@.len(),
            forall|j: int| 0 <= j < i ==> accts@[j].key@ != pda@,
            !(accts@.len() > 7 && accts@[7].key@ == pda@),
        decreases accts@.len() - i,
    {
        if same_key(&accts[i].key, pda) {
            proof {
                assert(is_first_with_key(accts@, pda@, i as int));
                assert forall|k: int| #[trigger] is_first_with_key(accts@, pda@, k) implies k == i by {
                    if k > i { assert(accts@[i as int].key@ == pda@); }
                }
            }
            return Some(i);
        }
        i = i + 1;
    }
    proof {
        assert forall|k: int| !#[trigger] is_first_with_key(accts@, pda@, k) by {}
    }
    None
}

/// Starts a completion notice for `wallet`'s matrix over the accounts as
/// they are now.
pub fn notify_begin(accts: &Vec<AccountSnapshot>, wallet: &Key, active: bool) -> (r: Result<NotifyStart, Failure>)
    ensures
        r == spec_notify_begin(accts@, wallet@, active),
        r matches Ok(NotifyStart::NeedClock { program_state_account }) ==> program_state_account < accts@.len(),
{
    if !active {
        return Ok(NotifyStart::Skip);
    }
    if !user_exists_in_airdrop(accts, wallet)? {
        return Err(Failure::Code(ErrorCode::UserNotRegisteredInAirdrop));
    }
    let ppda = airdrop_address(&program_state_seed_vec())?;
    match find_state_account(accts, &ppda) {
        None => Err(Failure::Code(ErrorCode::MissingUplineAccount)),
        Some(i) => {
            if accts[i].data.len() < AIRDROP_STATE_MIN_LEN {
                Err(Failure::Code(ErrorCode::MissingUplineAccount))
            } else {
                Ok(NotifyStart::NeedClock { program_state_account: i })
            }
        },
    }
}

/// The targets of a notice for `wallet`: the airdrop state account `ps`,
/// the wallet, its airdrop account `ua`, the weekly accounts `cw` and `nw`,
/// the instructions sysvar and the airdrop program.
pub open spec fn make_targets(ps: Seq<u8>, wallet: Seq<u8>, ua: Seq<u8>, cw: Seq<u8>, nw: Seq<u8>) -> TargetsV {
    TargetsV {
        program_state: ps,
        referrer_wallet: wallet,
        user_account: ua,
        current_week_data: cw,
        next_week_data: nw,
        instructions_sysvar: known_bytes(KnownAddress::InstructionsSysvar),
        airdrop_program: known_bytes(KnownAddress::AirdropProgram),
    }
}

/// The state after the airdrop's status is brought up to date (see
/// `airdrop_status_updated`), as a function.
pub open spec fn status_after(before: ProgramState, data: Seq<u8>, now: i64) -> ProgramState {
    if !before.airdrop_active || data.len() < AIRDROP_STATE_MIN_LEN {
        before
    } else {
        let week = data[CURRENT_WEEK_OFFSET as int];
        let start = spec_i64_from_le(data.subrange(START_TIMESTAMP_OFFSET as int, AIRDROP_STATE_MIN_LEN as int));
        if week >= crate::airdrop::AIRDROP_MAX_WEEKS || crate::airdrop::status_week(saturating_elapsed(now, start)) >= crate::airdrop::AIRDROP_MAX_WEEKS {
            ProgramState { airdrop_active: false, airdrop_end_timestamp: now, ..before }
        } else {
            before
        }
    }
}

/// The second part of a completion notice for `wallet`'s matrix, at time
/// `now`, given the addresses `keys` of the remaining accounts and the data
/// of the airdrop state account at position `psa`: the airdrop's status is
/// brought up to date; an ended airdrop gets no notice; otherwise the notice
/// carries the stored week and the week of `now`, and every account it names
/// must be found.
pub open spec fn spec_notify_finish(
    keys: Seq<Seq<u8>>,
    data: Seq<u8>,
    before: ProgramState,
    wallet: Seq<u8>,
    is_last: bool,
    now: i64,
    psa: usize,
) -> Result<Option<NotifyPlanV>, Failure> {
    let after = status_after(before, data, now);
    if !after.airdrop_active {
        Ok(None)
    } else if data.len() < AIRDROP_STATE_MIN_LEN {
        Err(Failure::Code(ErrorCode::MissingUplineAccount))
    } else {
        let cw = data[CURRENT_WEEK_OFFSET as int];
        let start = spec_i64_from_le(data.subrange(START_TIMESTAMP_OFFSET as int, AIRDROP_STATE_MIN_LEN as int));
        let aw = notify_week(saturating_elapsed(now, start));
        match (airdrop_pda(seq![program_state_seed()]), airdrop_pda(user_pda_seeds(wallet)), airdrop_pda(week_pda_seeds(cw)), airdrop_pda(week_pda_seeds(aw))) {
            (Some((ps, _)), Some((ua, _)), Some((c, _)), Some((n, _))) => {
                let t = make_targets(ps, wallet, ua, c, n);
                match plan_from_slots(resolve_slots(keys, t), psa, t, cw, aw, is_last) {
                    Ok(p) => Ok(Some(p)),
                    Err(e) => Err(e),
                }
            },
            _ => Err(Failure::NoBumpSeed),
        }
    }
}

/// Finishes a completion notice for `wallet`'s matrix at time `now`.
pub fn notify_finish(
    keys: &Vec<Key>,
    data: &[u8],
    state: &mut ProgramState,
    wallet: &Key,
    is_last: bool,
    now: i64,
    psa: usize,
) -> (r: Result<Option<NotifyPlan>, Failure>)
    ensures
        *final(state) == status_after(*old(state), data@, now),
        airdrop_status_updated(*old(state), data@, now, *final(state)),
        match spec_notify_finish(keys_v(keys@), data@, *old(state), wallet@, is_last, now, psa) {
            Ok(Some(pv)) => r matches Ok(Some(p)) && p@ == pv,
            Ok(None) => r == Ok::<Option<NotifyPlan>, Failure>(None),
            Err(e) => r == Err::<Option<NotifyPlan>, Failure>(e),
        },
{
    check_and_update_airdrop_status(state, data, now);
    if !state.airdrop_active {
        return Ok(None);
    }
    if data.len() < AIRDROP_STATE_MIN_LEN {
        return Err(Failure::Code(ErrorCode::MissingUplineAccount));
    }
    let current_week = data[CURRENT_WEEK_OFFSET];
    let start = i64_at(data, START_TIMESTAMP_OFFSET);
    let actual_week = notified_week(start, now);
    let ps = airdrop_address(&program_state_seed_vec())?;
    let ua = airdrop_address(&user_pda_seed_vec(wallet))?;
    let cw = airdrop_address(&week_seed_vec(current_week))?;
    let nw = airdrop_address(&week_seed_vec(actual_week))?;
    let t = NotifyTargets {
        program_state: ps,
        referrer_wallet: *wallet,
        user_account: ua,
        current_week_data: cw,
        next_week_data: nw,
        instructions_sysvar: known_address(KnownAddress::InstructionsSysvar),
        airdrop_program: known_address(KnownAddress::AirdropProgram),
    };
    let slots = resolve_notify_slots(keys, &t);
    proof {
        assert(t@ == make_targets(ps@, wallet@, ua@, cw@, nw@));
        assert(current_week == data@[CURRENT_WEEK_OFFSET as int]);
    }
    match plan_from_slots_exec(slots, psa, t, current_week, actual_week, is_last) {
        Ok(p) => Ok(Some(p)),
        Err(e) => Err(e),
    }
}

} // verus!
