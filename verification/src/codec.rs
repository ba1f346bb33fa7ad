use vstd::prelude::*;
use vstd::bytes::{
    spec_u32_from_le_bytes, spec_u32_to_le_bytes, spec_u64_from_le_bytes, spec_u64_to_le_bytes,
    u32_from_le_bytes, u32_to_le_bytes, u64_from_le_bytes, u64_to_le_bytes,
};
use vstd::slice::slice_subrange;
use crate::key::{key_at, Key};
use crate::state::{ReferralChain, ReferralUpline, UplineEntry, UserAccount};

verus! {

broadcast use vstd::array::group_array_axioms;

/// The abstract content of an upline entry: its two addresses.
pub type EntryV = (Seq<u8>, Seq<u8>);

/// The abstract content of a matrix: id, the three slots, filled count.
pub type ChainV = (u32, Seq<Option<Seq<u8>>>, u8);

/// The abstract content of a user account, field by field.
pub type UserV = (bool, Option<Seq<u8>>, Seq<u8>, u32, u8, Seq<EntryV>, ChainV, u64);

pub open spec fn opt_key_v(o: Option<Key>) -> Option<Seq<u8>> {
    match o {
        Some(k) => Some(k@),
        None => None,
    }
}

pub open spec fn entry_v(e: UplineEntry) -> EntryV {
    (e.pda@, e.wallet@)
}

pub open spec fn entries_v(s: Seq<UplineEntry>) -> Seq<EntryV> {
    s.map_values(|e: UplineEntry| entry_v(e))
}

pub open spec fn chain_v(c: ReferralChain) -> ChainV {
    (c.id, c.slots@.map_values(|o: Option<Key>| opt_key_v(o)), c.filled_slots)
}

pub open spec fn user_v(u: UserAccount) -> UserV {
    (
        u.is_registered,
        opt_key_v(u.referrer),
        u.owner_wallet@,
        u.upline.id,
        u.upline.depth,
        entries_v(u.upline.upline@),
        chain_v(u.chain),
        u.reserved_sol,
    )
}

// ---- layout: each field in the order and width the account stores it ----

pub open spec fn enc_bool(b: bool) -> Seq<u8> {
    seq![if b { 1u8 } else { 0u8 }]
}

pub open spec fn enc_opt_key(o: Option<Seq<u8>>) -> Seq<u8> {
    match o {
        None => seq![0u8],
        Some(k) => seq![1u8] + k,
    }
}

pub open spec fn enc_entries(es: Seq<EntryV>) -> Seq<u8>
    decreases es.len(),
{
    if es.len() == 0 {
        Seq::empty()
    } else {
        es[0].0 + es[0].1 + enc_entries(es.drop_first())
    }
}

pub open spec fn enc_chain(c: ChainV) -> Seq<u8> {
    spec_u32_to_le_bytes(c.0) + enc_opt_key(c.1[0]) + enc_opt_key(c.1[1]) + enc_opt_key(c.1[2]) + seq![c.2]
}

/// The bytes under which a user account is stored (after the 8-byte tag).
pub open spec fn enc_user(v: UserV) -> Seq<u8> {
    enc_bool(v.0) + enc_opt_key(v.1) + v.2 + spec_u32_to_le_bytes(v.3) + seq![v.4]
        + spec_u32_to_le_bytes(v.5.len() as u32) + enc_entries(v.5) + enc_chain(v.6)
        + spec_u64_to_le_bytes(v.7)
}

// ---- reading: each reader takes what it needs from the front and returns the rest ----

pub open spec fn parse_u8(s: Seq<u8>) -> Option<(u8, Seq<u8>)> {
    if s.len() >= 1 { Some((s[0], s.skip(1))) } else { None }
}

pub open spec fn parse_bool(s: Seq<u8>) -> Option<(bool, Seq<u8>)> {
    if s.len() >= 1 && s[0] == 0 {
        Some((false, s.skip(1)))
    } else if s.len() >= 1 && s[0] == 1 {
        Some((true, s.skip(1)))
    } else {
        None
    }
}

pub open spec fn parse_key(s: Seq<u8>) -> Option<(Seq<u8>, Seq<u8>)> {
    if s.len() >= 32 { Some((s.take(32), s.skip(32))) } else { None }
}

pub open spec fn parse_u32(s: Seq<u8>) -> Option<(u32, Seq<u8>)> {
    if s.len() >= 4 { Some((spec_u32_from_le_bytes(s.take(4)), s.skip(4))) } else { None }
}

pub open spec fn parse_u64(s: Seq<u8>) -> Option<(u64, Seq<u8>)> {
    if s.len() >= 8 { Some((spec_u64_from_le_bytes(s.take(8)), s.skip(8))) } else { None }
}

pub open spec fn parse_opt_key(s: Seq<u8>) -> Option<(Option<Seq<u8>>, Seq<u8>)> {
    if s.len() >= 1 && s[0] == 0 {
        Some((None, s.skip(1)))
    } else if s.len() >= 1 && s[0] == 1 {
        match parse_key(s.skip(1)) {
            Some((k, r)) => Some((Some(k), r)),
            None => None,
        }
    } else {
        None
    }
}

pub open spec fn parse_entries(s: Seq<u8>, n: nat) -> Option<(Seq<EntryV>, Seq<u8>)>
    decreases n,
{
    if n == 0 {
        Some((Seq::empty(), s))
    } else if s.len() >= 64 {
        match parse_entries(s.skip(64), (n - 1) as nat) {
            Some((es, r)) => Some((seq![(s.take(32), s.subrange(32, 64))] + es, r)),
            None => None,
        }
    } else {
        None
    }
}

pub open spec fn parse_chain(s: Seq<u8>) -> Option<(ChainV, Seq<u8>)> {
    match parse_u32(s) {
        None => None,
        Some((id, r1)) => match parse_opt_key(r1) {
            None => None,
            Some((s0, r2)) => match parse_opt_key(r2) {
                None => None,
                Some((s1, r3)) => match parse_opt_key(r3) {
                    None => None,
                    Some((s2, r4)) => match parse_u8(r4) {
                        None => None,
                        Some((filled, r5)) => Some(((id, seq![s0, s1, s2], filled), r5)),
                    },
                },
            },
        },
    }
}

/// Reads a user account from the front of `s`; trailing bytes are left.
pub open spec fn parse_user(s: Seq<u8>) -> Option<(UserV, Seq<u8>)> {
    match parse_bool(s) {
        None => None,
        Some((reg, r1)) => match parse_opt_key(r1) {
            None => None,
            Some((referrer, r2)) => match parse_key(r2) {
                None => None,
                Some((owner, r3)) => match parse_u32(r3) {
                    None => None,
                    Some((uid, r4)) => match parse_u8(r4) {
                        None => None,
                        Some((depth, r5)) => match parse_u32(r5) {
                            None => None,
                            Some((n, r6)) => match parse_entries(r6, n as nat) {
                                None => None,
                                Some((es, r7)) => match parse_chain(r7) {
                                    None => None,
                                    Some((chain, r8)) => match parse_u64(r8) {
                                        None => None,
                                        Some((reserved, r9)) => Some(((reg, referrer, owner, uid, depth, es, chain, reserved), r9)),
                                    },
                                },
                            },
                        },
                    },
                },
            },
        },
    }
}

// ---- executable readers ----

fn read_u8(d: &[u8], p: usize) -> (r: Option<(u8, usize)>)
    requires
        p <= d@.len(),
    ensures
        match parse_u8(d@.skip(p as int)) {
            Some((v, rest)) => r matches Some((w, q)) && w == v && p <= q <= d@.len() && rest == d@.skip(q as int),
            None => r is None,
        },
{
    if p < d.len() {
        proof { assert(d@.skip(p as int).skip(1) =~= d@.skip(p + 1)); }
        Some((d[p], p + 1))
    } else {
        None
    }
}

fn read_bool(d: &[u8], p: usize) -> (r: Option<(bool, usize)>)
    requires
        p <= d@.len(),
    ensures
        match parse_bool(d@.skip(p as int)) {
            Some((v, rest)) => r matches Some((w, q)) && w == v && p <= q <= d@.len() && rest == d@.skip(q as int),
            None => r is None,
        },
{
    if p < d.len() {
        proof { assert(d@.skip(p as int).skip(1) =~= d@.skip(p + 1)); }
        if d[p] == 0 {
            return Some((false, p + 1));
        } else if d[p] == 1 {
            return Some((true, p + 1));
        }
    }
    None
}

fn read_key(d: &[u8], p: usize) -> (r: Option<(Key, usize)>)
    requires
        p <= d@.len(),
    ensures
        match parse_key(d@.skip(p as int)) {
            Some((v, rest)) => r matches Some((w, q)) && w@ == v && p <= q <= d@.len() && rest == d@.skip(q as int),
            None => r is None,
        },
{
    if d.len() - p >= 32 {
        let k = key_at(d, p);
        proof {
            assert(d@.skip(p as int).skip(32) =~= d@.skip(p + 32));
            assert(d@.skip(p as int).take(32) =~= d@.subrange(p as int, p + 32));
        }
        Some((k, p + 32))
    } else {
        None
    }
}

fn read_u32(d: &[u8], p: usize) -> (r: Option<(u32, usize)>)
    requires
        p <= d@.len(),
    ensures
        match parse_u32(d@.skip(p as int)) {
            Some((v, rest)) => r matches Some((w, q)) && w == v && p <= q <= d@.len() && rest == d@.skip(q as int),
            None => r is None,
        },
{
    if d.len() - p >= 4 {
        let s = slice_subrange(d, p, p + 4);
        let v = u32_from_le_bytes(s);
        proof {
            assert(d@.skip(p as int).skip(4) =~= d@.skip(p + 4));
            assert(d@.skip(p as int).take(4) =~= s@);
        }
        Some((v, p + 4))
    } else {
        None
    }
}

fn read_u64(d: &[u8], p: usize) -> (r: Option<(u64, usize)>)
    requires
        p <= d@.len(),
    ensures
        match parse_u64(d@.skip(p as int)) {
            Some((v, rest)) => r matches Some((w, q)) && w == v && p <= q <= d@.len() && rest == d@.skip(q as int),
            None => r is None,
        },
{
    if d.len() - p >= 8 {
        let s = slice_subrange(d, p, p + 8);
        let v = u64_from_le_bytes(s);
        proof {
            assert(d@.skip(p as int).skip(8) =~= d@.skip(p + 8));
            assert(d@.skip(p as int).take(8) =~= s@);
        }
        Some((v, p + 8))
    } else {
        None
    }
}

fn read_opt_key(d: &[u8], p: usize) -> (r: Option<(Option<Key>, usize)>)
    requires
        p <= d@.len(),
    ensures
        match parse_opt_key(d@.skip(p as int)) {
            Some((v, rest)) => r matches Some((w, q)) && opt_key_v(w) == v && p <= q <= d@.len() && rest == d@.skip(q as int),
            None => r is None,
        },
{
    if p < d.len() {
        proof { assert(d@.skip(p as int).skip(1) =~= d@.skip(p + 1)); }
        if d[p] == 0 {
            return Some((None, p + 1));
        } else if d[p] == 1 {
            match read_key(d, p + 1) {
                Some((k, q)) => return Some((Some(k), q)),
                None => return None,
            }
        }
    }
    None
}

pub open spec fn prepend_entries(acc: Seq<EntryV>, r: Option<(Seq<EntryV>, Seq<u8>)>) -> Option<(Seq<EntryV>, Seq<u8>)> {
    match r {
        Some((es, rest)) => Some((acc + es, rest)),
        None => None,
    }
}

fn read_entries(d: &[u8], p: usize, n: u32) -> (r: Option<(Vec<UplineEntry>, usize)>)
    requires
        p <= d@.len(),
    ensures
        match parse_entries(d@.skip(p as int), n as nat) {
            Some((es, rest)) => r matches Some((w, q)) && entries_v(w@) == es && p <= q <= d@.len() && rest == d@.skip(q as int),
            None => r is None,
        },
        r matches Some((w, _)) ==> w@.len() == n,
{
    let mut acc: Vec<UplineEntry> = Vec::new();
    let mut q = p;
    let mut i: u32 = 0;
    proof {
        assert(entries_v(acc@) =~= Seq::<EntryV>::empty());
        assert(prepend_entries(Seq::empty(), parse_entries(d@.skip(p as int), n as nat)) == parse_entries(d@.skip(p as int), n as nat)) by {
            match parse_entries(d@.skip(p as int), n as nat) {
                Some((es, rest)) => { assert(Seq::<EntryV>::empty() + es =~= es); },
                None => {},
            }
        }
    }
    while i < n
        invariant
            i <= n,
            acc@.len() == i,
            p <= q <= d@.len(),
            parse_entries(d@.skip(p as int), n as nat)
                == prepend_entries(entries_v(acc@), parse_entries(d@.skip(q as int), (n - i) as nat)),
        decreases n - i,
    {
        if d.len() - q < 64 {
            return None;
        }
        let pda = key_at(d, q);
        let wallet = key_at(d, q + 32);
        let ghost s = d@.skip(q as int);
        let ghost before = acc@;
        acc.push(UplineEntry { pda, wallet });
        proof {
            assert(s.skip(64) =~= d@.skip(q + 64));
            assert(s.take(32) =~= pda@);
            assert(s.subrange(32, 64) =~= wallet@);
            assert(entries_v(acc@) =~= entries_v(before) + seq![(pda@, wallet@)]);
            match parse_entries(d@.skip(q + 64), (n - i - 1) as nat) {
                Some((es, rest)) => {
                    assert(entries_v(before) + (seq![(pda@, wallet@)] + es) =~= entries_v(acc@) + es);
                },
                None => {},
            }
        }
        q = q + 64;
        i = i + 1;
    }
    proof {
        assert(entries_v(acc@) + Seq::<EntryV>::empty() =~= entries_v(acc@));
    }
    Some((acc, q))
}

fn read_chain(d: &[u8], p: usize) -> (r: Option<(ReferralChain, usize)>)
    requires
        p <= d@.len(),
    ensures
        match parse_chain(d@.skip(p as int)) {
            Some((v, rest)) => r matches Some((w, q)) && chain_v(w) == v && p <= q <= d@.len() && rest == d@.skip(q as int),
            None => r is None,
        },
{
    let (id, q1) = match read_u32(d, p) { Some(x) => x, None => return None };
    let (s0, q2) = match read_opt_key(d, q1) { Some(x) => x, None => return None };
    let (s1, q3) = match read_opt_key(d, q2) { Some(x) => x, None => return None };
    let (s2, q4) = match read_opt_key(d, q3) { Some(x) => x, None => return None };
    let (filled, q5) = match read_u8(d, q4) { Some(x) => x, None => return None };
    let c = ReferralChain { id, slots: [s0, s1, s2], filled_slots: filled };
    proof {
        assert(c.slots@.map_values(|o: Option<Key>| opt_key_v(o)) =~= seq![opt_key_v(s0), opt_key_v(s1), opt_key_v(s2)]);
    }
    Some((c, q5))
}

/// Reads a user account from the front of `d` (the account's data after
/// its 8-byte tag), as the account's serializer wrote it; bytes after the
/// record are ignored.
pub fn decode_user_account(d: &[u8]) -> (r: Option<UserAccount>)
    ensures
        match parse_user(d@) {
            Some((v, rest)) => r matches Some(u) && user_v(u) == v,
            None => r is None,
        },
        r matches Some(u) ==> u.upline.upline@.len() <= u32::MAX,
{
    proof { assert(d@.skip(0) =~= d@); }
    let (reg, q1) = match read_bool(d, 0) { Some(x) => x, None => return None };
    let (referrer, q2) = match read_opt_key(d, q1) { Some(x) => x, None => return None };
    let (owner, q3) = match read_key(d, q2) { Some(x) => x, None => return None };
    let (uid, q4) = match read_u32(d, q3) { Some(x) => x, None => return None };
    let (depth, q5) = match read_u8(d, q4) { Some(x) => x, None => return None };
    let (n, q6) = match read_u32(d, q5) { Some(x) => x, None => return None };
    let (upline, q7) = match read_entries(d, q6, n) { Some(x) => x, None => return None };
    let (chain, q8) = match read_chain(d, q7) { Some(x) => x, None => return None };
    let (reserved, _q9) = match read_u64(d, q8) { Some(x) => x, None => return None };
    Some(UserAccount {
        is_registered: reg,
        referrer,
        owner_wallet: owner,
        upline: ReferralUpline { id: uid, depth, upline },
        chain,
        reserved_sol: reserved,
    })
}

// ---- writing ----

proof fn lemma_enc_entries_push(es: Seq<EntryV>, e: EntryV)
    ensures
        enc_entries(es.push(e)) == enc_entries(es) + e.0 + e.1,
    decreases es.len(),
{
    if es.len() == 0 {
        let t = es.push(e).drop_first();
        assert(t =~= Seq::<EntryV>::empty());
        assert(enc_entries(t) =~= Seq::<u8>::empty());
        assert(es.push(e)[0] == e);
        assert(enc_entries(es.push(e)) =~= e.0 + e.1 + Seq::<u8>::empty());
        assert(enc_entries(es) + e.0 + e.1 =~= e.0 + e.1);
    } else {
        lemma_enc_entries_push(es.drop_first(), e);
        assert(es.push(e).drop_first() =~= es.drop_first().push(e));
        assert(enc_entries(es.push(e)) =~= es[0].0 + es[0].1 + (enc_entries(es.drop_first()) + e.0 + e.1));
    }
}

fn push_key(out: &mut Vec<u8>, k: &Key)
    ensures
        final(out)@ == old(out)@ + k@,
{
    let ghost start = out@;
    let mut i: usize = 0;
    while i < 32
        invariant
            0 <= i <= 32,
            out@ == start + k@.take(i as int),
        decreases 32 - i,
    {
        out.push(k.bytes[i]);
        proof { assert(start + k@.take(i + 1) =~= start + k@.take(i as int) + seq![k@[i as int]]); }
        i = i + 1;
    }
    proof { assert(k@.take(32) =~= k@); }
}

fn push_bytes(out: &mut Vec<u8>, b: &Vec<u8>)
    ensures
        final(out)@ == old(out)@ + b@,
{
    let ghost start = out@;
    let mut i: usize = 0;
    while i < b.len()
        invariant
            0 <= i <= b@.len(),
            out@ == start + b@.take(i as int),
        decreases b@.len() - i,
    {
        out.push(b[i]);
        proof { assert(start + b@.take(i + 1) =~= start + b@.take(i as int) + seq![b@[i as int]]); }
        i = i + 1;
    }
    proof { assert(b@.take(b@.len() as int) =~= b@); }
}

fn push_opt_key(out: &mut Vec<u8>, o: &Option<Key>)
    ensures
        final(out)@ == old(out)@ + enc_opt_key(opt_key_v(*o)),
{
    let ghost start = out@;
    match o {
        None => {
            out.push(0u8);
            proof { assert(out@ =~= start + seq![0u8]); }
        },
        Some(k) => {
            out.push(1u8);
            push_key(out, k);
            proof { assert(out@ =~= start + (seq![1u8] + k@)); }
        },
    }
}

/// The bytes under which a user account is stored after its 8-byte tag.
pub fn encode_user_account(u: &UserAccount) -> (r: Vec<u8>)
    requires
        u.upline.upline@.len() <= u32::MAX,
    ensures
        r@ == enc_user(user_v(*u)),
{
    let mut out: Vec<u8> = Vec::new();
    out.push(if u.is_registered { 1u8 } else { 0u8 });
    push_opt_key(&mut out, &u.referrer);
    push_key(&mut out, &u.owner_wallet);
    push_bytes(&mut out, &u32_to_le_bytes(u.upline.id));
    out.push(u.upline.depth);
    let n = u.upline.upline.len();
    push_bytes(&mut out, &u32_to_le_bytes(n as u32));
    let ghost head = out@;
    let ghost es = entries_v(u.upline.upline@);
    let mut i: usize = 0;
    while i < n
        invariant
            0 <= i <= n,
            n == u.upline.upline@.len(),
            es == entries_v(u.upline.upline@),
            out@ == head + enc_entries(es.take(i as int)),
        decreases n - i,
    {
        let e = u.upline.upline[i];
        push_key(&mut out, &e.pda);
        push_key(&mut out, &e.wallet);
        proof {
            assert(es.take(i + 1) =~= es.take(i as int).push(entry_v(e)));
            lemma_enc_entries_push(es.take(i as int), entry_v(e));
            assert(out@ =~= head + enc_entries(es.take(i + 1)));
        }
        i = i + 1;
    }
    proof { assert(es.take(n as int) =~= es); }
    push_bytes(&mut out, &u32_to_le_bytes(u.chain.id));
    push_opt_key(&mut out, &u.chain.slots[0]);
    push_opt_key(&mut out, &u.chain.slots[1]);
    push_opt_key(&mut out, &u.chain.slots[2]);
    out.push(u.chain.filled_slots);
    push_bytes(&mut out, &u64_to_le_bytes(u.reserved_sol));
    proof {
        let v = user_v(*u);
        assert(v.6.1[0] == opt_key_v(u.chain.slots[0]));
        assert(v.6.1[1] == opt_key_v(u.chain.slots[1]));
        assert(v.6.1[2] == opt_key_v(u.chain.slots[2]));
        assert(out@ =~= enc_user(v));
    }
    out
}

// ---- the reader undoes the writer ----

/// A user account's abstract content that the layout can hold: every
/// address has 32 bytes and the upline count fits in 32 bits.
pub open spec fn user_v_wf(v: UserV) -> bool {
    &&& (v.1 matches Some(k) ==> k.len() == 32)
    &&& v.2.len() == 32
    &&& v.5.len() <= u32::MAX
    &&& forall|i: int| 0 <= i < v.5.len() ==> (#[trigger] v.5[i]).0.len() == 32 && v.5[i].1.len() == 32
    &&& v.6.1.len() == 3
    &&& forall|i: int| 0 <= i < 3 ==> (#[trigger] v.6.1[i] matches Some(k) ==> k.len() == 32)
}

proof fn lemma_parse_opt_key(o: Option<Seq<u8>>, rest: Seq<u8>)
    requires
        o matches Some(k) ==> k.len() == 32,
    ensures
        parse_opt_key(enc_opt_key(o) + rest) == Some((o, rest)),
{
    let s = enc_opt_key(o) + rest;
    match o {
        None => { assert(s.skip(1) =~= rest); },
        Some(k) => {
            assert(s.skip(1) =~= k + rest);
            assert((k + rest).take(32) =~= k);
            assert((k + rest).skip(32) =~= rest);
        },
    }
}

proof fn lemma_parse_u32(x: u32, rest: Seq<u8>)
    ensures
        parse_u32(spec_u32_to_le_bytes(x) + rest) == Some((x, rest)),
{
    vstd::bytes::lemma_auto_spec_u32_to_from_le_bytes();
    let s = spec_u32_to_le_bytes(x) + rest;
    assert(s.take(4) =~= spec_u32_to_le_bytes(x));
    assert(s.skip(4) =~= rest);
}

proof fn lemma_parse_u64(x: u64, rest: Seq<u8>)
    ensures
        parse_u64(spec_u64_to_le_bytes(x) + rest) == Some((x, rest)),
{
    vstd::bytes::lemma_auto_spec_u64_to_from_le_bytes();
    let s = spec_u64_to_le_bytes(x) + rest;
    assert(s.take(8) =~= spec_u64_to_le_bytes(x));
    assert(s.skip(8) =~= rest);
}

proof fn lemma_parse_entries(es: Seq<EntryV>, rest: Seq<u8>)
    requires
        forall|i: int| 0 <= i < es.len() ==> (#[trigger] es[i]).0.len() == 32 && es[i].1.len() == 32,
    ensures
        parse_entries(enc_entries(es) + rest, es.len()) == Some((es, rest)),
    decreases es.len(),
{
    if es.len() == 0 {
        assert(enc_entries(es) + rest =~= rest);
        assert(Seq::<EntryV>::empty() =~= es);
    } else {
        let tail = es.drop_first();
        assert forall|i: int| 0 <= i < tail.len() implies (#[trigger] tail[i]).0.len() == 32 && tail[i].1.len() == 32 by {
            assert(tail[i] == es[i + 1]);
        }
        lemma_parse_entries(tail, rest);
        let s = enc_entries(es) + rest;
        assert(es[0].0.len() == 32 && es[0].1.len() == 32);
        assert(s =~= es[0].0 + es[0].1 + (enc_entries(tail) + rest));
        assert(s.skip(64) =~= enc_entries(tail) + rest);
        assert(s.take(32) =~= es[0].0);
        assert(s.subrange(32, 64) =~= es[0].1);
        assert(seq![(es[0].0, es[0].1)] + tail =~= es);
    }
}

proof fn lemma_parse_chain(c: ChainV, rest: Seq<u8>)
    requires
        c.1.len() == 3,
        forall|i: int| 0 <= i < 3 ==> (#[trigger] c.1[i] matches Some(k) ==> k.len() == 32),
    ensures
        parse_chain(enc_chain(c) + rest) == Some((c, rest)),
{
    let r5 = seq![c.2] + rest;
    let r4 = enc_opt_key(c.1[2]) + r5;
    let r3 = enc_opt_key(c.1[1]) + r4;
    let r2 = enc_opt_key(c.1[0]) + r3;
    assert(enc_chain(c) + rest =~= spec_u32_to_le_bytes(c.0) + r2);
    lemma_parse_u32(c.0, r2);
    assert(c.1[0] matches Some(k) ==> k.len() == 32);
    assert(c.1[1] matches Some(k) ==> k.len() == 32);
    assert(c.1[2] matches Some(k) ==> k.len() == 32);
    lemma_parse_opt_key(c.1[0], r3);
    lemma_parse_opt_key(c.1[1], r4);
    lemma_parse_opt_key(c.1[2], r5);
    assert(r5.skip(1) =~= rest);
    assert(seq![c.1[0], c.1[1], c.1[2]] =~= c.1);
}

/// Law: reading back what the writer stored for a user account gives the
/// same account, and leaves whatever followed it.
#[verifier::rlimit(60)]
pub proof fn lemma_user_roundtrip(v: UserV, rest: Seq<u8>)
    requires
        user_v_wf(v),
    ensures
        parse_user(enc_user(v) + rest) == Some((v, rest)),
{
    let r8 = spec_u64_to_le_bytes(v.7) + rest;
    let r7 = enc_chain(v.6) + r8;
    let r6 = enc_entries(v.5) + r7;
    let r5 = spec_u32_to_le_bytes(v.5.len() as u32) + r6;
    let r4 = seq![v.4] + r5;
    let r3 = spec_u32_to_le_bytes(v.3) + r4;
    let r2 = v.2 + r3;
    let r1 = enc_opt_key(v.1) + r2;
    let s = enc_user(v) + rest;
    assert(s =~= enc_bool(v.0) + r1);
    assert(s.skip(1) =~= r1);
    assert(parse_bool(s) == Some((v.0, r1)));
    lemma_parse_opt_key(v.1, r2);
    assert(r2.take(32) =~= v.2);
    assert(r2.skip(32) =~= r3);
    assert(parse_key(r2) == Some((v.2, r3)));
    lemma_parse_u32(v.3, r4);
    assert(r4.skip(1) =~= r5);
    assert(parse_u8(r4) == Some((v.4, r5)));
    lemma_parse_u32(v.5.len() as u32, r6);
    assert((v.5.len() as u32) as nat == v.5.len());
    lemma_parse_entries(v.5, r7);
    lemma_parse_chain(v.6, r8);
    lemma_parse_u64(v.7, rest);
}

/// Law: every stored user account satisfies the layout's assumptions, so
/// reading back a written account always gives it back.
pub proof fn lemma_user_account_roundtrip(u: UserAccount, rest: Seq<u8>)
    requires
        u.upline.upline@.len() <= u32::MAX,
    ensures
        parse_user(enc_user(user_v(u)) + rest) == Some((user_v(u), rest)),
{
    let v = user_v(u);
    assert forall|i: int| 0 <= i < 3 implies (#[trigger] v.6.1[i] matches Some(k) ==> k.len() == 32) by {
        assert(v.6.1[i] == opt_key_v(u.chain.slots@[i]));
    }
    assert forall|i: int| 0 <= i < v.5.len() implies (#[trigger] v.5[i]).0.len() == 32 && v.5[i].1.len() == 32 by {
        assert(v.5[i] == entry_v(u.upline.upline@[i]));
    }
    lemma_user_roundtrip(v, rest);
}

/// The signed 64-bit number stored little-endian in `s`.
pub open spec fn spec_i64_from_le(s: Seq<u8>) -> i64 {
    let u = spec_u64_from_le_bytes(s);
    if u <= i64::MAX { u as i64 } else { (u - 0x1_0000_0000_0000_0000int) as i64 }
}

/// Reads the signed 64-bit little-endian number at `offset` in `data`.
pub fn i64_at(data: &[u8], offset: usize) -> (r: i64)
    requires
        offset + 8 <= data.len(),
    ensures
        r == spec_i64_from_le(data@.subrange(offset as int, offset + 8)),
{
    let u = u64_from_le_bytes(slice_subrange(data, offset, offset + 8));
    if u <= 0x7fff_ffff_ffff_ffffu64 {
        u as i64
    } else {
        ((u - 0x8000_0000_0000_0000u64) as i64) + i64::MIN
    }
}

/// Reads the unsigned 64-bit little-endian number at `offset` in `data`.
pub fn u64_at(data: &[u8], offset: usize) -> (r: u64)
    requires
        offset + 8 <= data.len(),
    ensures
        r == spec_u64_from_le_bytes(data@.subrange(offset as int, offset + 8)),
{
    u64_from_le_bytes(slice_subrange(data, offset, offset + 8))
}

} // verus!
