use vstd::prelude::*;
use crate::key::Key;
use crate::codec::{chain_v, entries_v, entry_v, opt_key_v, ChainV, EntryV};
use crate::state::{chain_wf, ReferralChain, ReferralUpline, UplineEntry, UserAccount, MAX_UPLINE_DEPTH};

verus! {

/// `after` is `before` with `user` in the first free slot.
pub open spec fn places(before: ReferralChain, user: Key, after: ReferralChain) -> bool {
    &&& before.filled_slots < 3
    &&& after.id == before.id
    &&& after.filled_slots == before.filled_slots + 1
    &&& after.slots@ == before.slots@.update(before.filled_slots as int, Some(user))
}

/// `c` is an empty matrix with id `id`.
pub open spec fn is_empty_chain(c: ReferralChain, id: u32) -> bool {
    &&& c.id == id
    &&& c.filled_slots == 0
    &&& c.slots@ == seq![None::<Key>, None, None]
}

/// Puts `user` in the first free slot of the matrix and returns that slot's
/// index; a matrix with three or more filled slots is left as it is.
pub fn place_in_chain(chain: &mut ReferralChain, user: Key) -> (placed: Option<u8>)
    ensures
        old(chain).filled_slots >= 3 ==> placed is None && *final(chain) == *old(chain),
        old(chain).filled_slots < 3 ==> placed == Some(old(chain).filled_slots)
            && places(*old(chain), user, *final(chain)),
{
    let idx = chain.filled_slots;
    if idx >= 3 {
        return None;
    }
    chain.slots[idx as usize] = Some(user);
    chain.filled_slots = idx + 1;
    Some(idx)
}

/// Starts a fresh matrix with id `id` in place of a completed one.
pub fn reset_chain(chain: &mut ReferralChain, id: u32)
    ensures
        is_empty_chain(*final(chain), id),
{
    chain.id = id;
    chain.slots = [None, None, None];
    chain.filled_slots = 0;
}

/// An empty matrix with id `id`.
pub fn new_chain(id: u32) -> (c: ReferralChain)
    ensures
        is_empty_chain(c, id),
{
    ReferralChain { id, slots: [None, None, None], filled_slots: 0 }
}

/// Law: taking a slot keeps a matrix well formed unless it fills the third
/// slot, and starting a fresh matrix after the third slot is well formed.
pub proof fn lemma_place_keeps_chain_wf(before: ReferralChain, user: Key, after: ReferralChain, id: u32, fresh: ReferralChain)
    requires
        chain_wf(before),
        places(before, user, after),
        is_empty_chain(fresh, id),
    ensures
        after.filled_slots < 3 ==> chain_wf(after),
        after.filled_slots == 3 <==> before.filled_slots == 2,
        chain_wf(fresh),
{
    assert forall|i: int| 0 <= i < 3 implies (#[trigger] after.slots[i] is Some <==> i < after.filled_slots) by {
        if i != before.filled_slots as int {
            assert(after.slots[i] == before.slots[i]);
        }
    }
    assert forall|i: int| 0 <= i < 3 implies (#[trigger] fresh.slots[i] is Some <==> i < fresh.filled_slots) by {
        assert(fresh.slots@[i] == seq![None::<Key>, None, None][i]);
    }
}

/// Law: three users joining an empty matrix take slots 0, 1 and 2 in the
/// order they join, and the third one completes the matrix.
pub proof fn lemma_third_join_completes(
    c0: ReferralChain,
    c1: ReferralChain,
    c2: ReferralChain,
    c3: ReferralChain,
    a: Key,
    b: Key,
    d: Key,
)
    requires
        is_empty_chain(c0, c0.id),
        places(c0, a, c1),
        places(c1, b, c2),
        places(c2, d, c3),
    ensures
        c1.filled_slots == 1,
        c2.filled_slots == 2,
        c3.filled_slots == 3,
        c3.id == c0.id,
        c3.slots@ == seq![Some(a), Some(b), Some(d)],
{
    assert(c3.slots@ =~= seq![Some(a), Some(b), Some(d)]);
}

/// The upline of a new user whose referrer has upline `parent`: the last
/// five entries of `parent` (all of them when it has fewer than six), then
/// the referrer's own entry.
pub open spec fn spec_extend_upline(parent: Seq<UplineEntry>, entry: UplineEntry) -> Seq<UplineEntry> {
    if parent.len() >= MAX_UPLINE_DEPTH {
        parent.subrange(parent.len() - (MAX_UPLINE_DEPTH - 1), parent.len() as int).push(entry)
    } else {
        parent.push(entry)
    }
}

/// `spec_extend_upline` over the abstract entries.
pub open spec fn spec_extend_entries(parent: Seq<EntryV>, entry: EntryV) -> Seq<EntryV> {
    if parent.len() >= MAX_UPLINE_DEPTH {
        parent.subrange(parent.len() - (MAX_UPLINE_DEPTH - 1), parent.len() as int).push(entry)
    } else {
        parent.push(entry)
    }
}

pub proof fn lemma_extend_entries(parent: Seq<UplineEntry>, entry: UplineEntry)
    ensures
        entries_v(spec_extend_upline(parent, entry)) == spec_extend_entries(entries_v(parent), entry_v(entry)),
{
    assert(entries_v(spec_extend_upline(parent, entry)) =~= spec_extend_entries(entries_v(parent), entry_v(entry)));
}

/// Builds the upline of a new user from the referrer's upline and the
/// referrer's own entry.
pub fn extend_upline(parent: &Vec<UplineEntry>, entry: UplineEntry) -> (r: Vec<UplineEntry>)
    ensures
        r@ == spec_extend_upline(parent@, entry),
{
    let len = parent.len();
    let start: usize = if len >= MAX_UPLINE_DEPTH { len - (MAX_UPLINE_DEPTH - 1) } else { 0 };
    let mut r: Vec<UplineEntry> = Vec::new();
    let mut i = start;
    while i < len
        invariant
            start <= i <= len,
            len == parent@.len(),
            r@ == parent@.subrange(start as int, i as int),
        decreases len - i,
    {
        r.push(parent[i]);
        proof {
            assert(parent@.subrange(start as int, i + 1) =~= parent@.subrange(start as int, i as int).push(parent@[i as int]));
        }
        i = i + 1;
    }
    r.push(entry);
    proof {
        if len < MAX_UPLINE_DEPTH {
            assert(parent@.subrange(0, len as int) =~= parent@);
        }
    }
    r
}

/// Law: a new user's upline never holds more than six entries, ends with
/// the referrer's entry, and the entries before it are the newest entries of
/// the referrer's upline, in order.
pub proof fn lemma_upline_bounded(parent: Seq<UplineEntry>, entry: UplineEntry)
    ensures
        spec_extend_upline(parent, entry).len() <= MAX_UPLINE_DEPTH,
        spec_extend_upline(parent, entry).len() >= 1,
        spec_extend_upline(parent, entry).last() == entry,
        ({
            let up = spec_extend_upline(parent, entry);
            let k = up.len() - 1;
            forall|i: int| 0 <= i < k ==> #[trigger] up[i] == parent[parent.len() - k + i]
        }),
        parent.len() < MAX_UPLINE_DEPTH ==> spec_extend_upline(parent, entry).len() == parent.len() + 1,
{
}

/// `u` is the record of a user registered without a referrer.
pub open spec fn is_base_user(u: UserAccount, wallet: Key, upline_id: u32, chain_id: u32) -> bool {
    &&& u.is_registered
    &&& u.referrer is None
    &&& u.owner_wallet == wallet
    &&& u.upline.id == upline_id
    &&& u.upline.depth == 1
    &&& u.upline.upline@ == Seq::<UplineEntry>::empty()
    &&& is_empty_chain(u.chain, chain_id)
    &&& u.reserved_sol == 0
}

/// The record of a user registered without a referrer.
pub fn initialize_base_user_data(wallet: Key, upline_id: u32, chain_id: u32) -> (u: UserAccount)
    ensures
        is_base_user(u, wallet, upline_id, chain_id),
{
    UserAccount {
        is_registered: true,
        referrer: None,
        owner_wallet: wallet,
        upline: ReferralUpline { id: upline_id, depth: 1, upline: Vec::new() },
        chain: new_chain(chain_id),
        reserved_sol: 0,
    }
}

/// `u` is the record of a user registered under `referrer`.
pub open spec fn is_referred_user(
    u: UserAccount,
    wallet: Key,
    referrer_key: Key,
    referrer_wallet: Key,
    referrer: UserAccount,
    upline_id: u32,
    chain_id: u32,
) -> bool {
    &&& u.is_registered
    &&& u.referrer == Some(referrer_key)
    &&& u.owner_wallet == wallet
    &&& u.upline.id == upline_id
    &&& u.upline.depth == referrer.upline.depth + 1
    &&& u.upline.upline@ == spec_extend_upline(
        referrer.upline.upline@,
        UplineEntry { pda: referrer_key, wallet: referrer_wallet },
    )
    &&& is_empty_chain(u.chain, chain_id)
    &&& u.reserved_sol == 0
}

/// The record of a user registered under `referrer`, whose account is at
/// `referrer_key` and whose wallet is `referrer_wallet`.
pub fn new_referred_user(
    wallet: Key,
    referrer_key: Key,
    referrer_wallet: Key,
    referrer: &UserAccount,
    upline_id: u32,
    chain_id: u32,
) -> (u: UserAccount)
    requires
        referrer.upline.depth < 255,
    ensures
        is_referred_user(u, wallet, referrer_key, referrer_wallet, *referrer, upline_id, chain_id),
{
    let entry = UplineEntry { pda: referrer_key, wallet: referrer_wallet };
    let upline = extend_upline(&referrer.upline.upline, entry);
    UserAccount {
        is_registered: true,
        referrer: Some(referrer_key),
        owner_wallet: wallet,
        upline: ReferralUpline { id: upline_id, depth: referrer.upline.depth + 1, upline },
        chain: new_chain(chain_id),
        reserved_sol: 0,
    }
}

/// The abstract matrix after `user` takes slot `c.2`.
pub open spec fn place_v(c: ChainV, user: Seq<u8>) -> ChainV {
    (c.0, c.1.update(c.2 as int, Some(user)), (c.2 + 1) as u8)
}

/// The abstract empty matrix with id `id`.
pub open spec fn empty_chain_v(id: u32) -> ChainV {
    (id, seq![None::<Seq<u8>>, None, None], 0u8)
}

pub proof fn lemma_places_v(before: ReferralChain, user: Key, after: ReferralChain)
    requires
        places(before, user, after),
    ensures
        chain_v(after) == place_v(chain_v(before), user@),
{
    assert(after.slots@.map_values(|o: Option<Key>| opt_key_v(o)) =~= before.slots@.map_values(|o: Option<Key>| opt_key_v(o)).update(before.filled_slots as int, Some(user@)));
}

pub proof fn lemma_empty_v(c: ReferralChain, id: u32)
    requires
        is_empty_chain(c, id),
    ensures
        chain_v(c) == empty_chain_v(id),
{
    assert(c.slots@.map_values(|o: Option<Key>| opt_key_v(o)) =~= seq![None::<Seq<u8>>, None, None]);
}

} // verus!
