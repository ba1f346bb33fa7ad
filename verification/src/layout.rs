use vstd::prelude::*;
use vstd::bytes::{spec_u32_from_le_bytes, spec_u32_to_le_bytes, spec_u64_from_le_bytes, spec_u64_to_le_bytes};
use crate::codec::{
    enc_bool, enc_chain, enc_entries, enc_opt_key, enc_user, opt_key_v, parse_bool, parse_chain, parse_entries,
    parse_key, parse_opt_key, parse_u32, parse_u64, parse_u8, parse_user, user_v, user_v_wf, ChainV, EntryV, UserV,
};
use crate::state::UserAccount;

verus! {

/// The bytes an optional address takes in a stored record: a tag byte, and
/// the 32-byte address when there is one.
pub open spec fn opt_key_width(o: Option<Seq<u8>>) -> int {
    match o {
        None => 1,
        Some(_) => 33,
    }
}

/// `o` is stored at position `p` of `b`: a 0 byte for none, or a 1 byte
/// followed by the address.
pub open spec fn opt_key_stored_at(b: Seq<u8>, p: int, o: Option<Seq<u8>>) -> bool {
    match o {
        None => b[p] == 0,
        Some(k) => b[p] == 1 && b.subrange(p + 1, p + 33) == k,
    }
}

proof fn lemma_opt_key_at(x: Seq<u8>, o: Option<Seq<u8>>, y: Seq<u8>)
    requires
        o matches Some(k) ==> k.len() == 32,
    ensures
        opt_key_stored_at(x + enc_opt_key(o) + y, x.len() as int, o),
        enc_opt_key(o).len() == opt_key_width(o),
{
    let s = x + enc_opt_key(o) + y;
    match o {
        None => {
            assert(s[x.len() as int] == 0);
        },
        Some(k) => {
            assert(s[x.len() as int] == 1);
            assert(s.subrange(x.len() as int + 1, x.len() as int + 33) =~= k);
        },
    }
}

proof fn lemma_enc_entries_len(es: Seq<EntryV>)
    requires
        forall|i: int| 0 <= i < es.len() ==> (#[trigger] es[i]).0.len() == 32 && es[i].1.len() == 32,
    ensures
        enc_entries(es).len() == 64 * es.len(),
    decreases es.len(),
{
    if es.len() > 0 {
        let t = es.drop_first();
        assert forall|i: int| 0 <= i < t.len() implies (#[trigger] t[i]).0.len() == 32 && t[i].1.len() == 32 by {
            assert(t[i] == es[i + 1]);
        }
        assert(es[0].0.len() == 32 && es[0].1.len() == 32);
        lemma_enc_entries_len(t);
    }
}

proof fn lemma_chain_at(pre: Seq<u8>, c: ChainV, tail: Seq<u8>)
    requires
        c.1.len() == 3,
        forall|i: int| 0 <= i < 3 ==> (#[trigger] c.1[i] matches Some(k) ==> k.len() == 32),
    ensures
        ({
            let b = pre + enc_chain(c) + tail;
            let off = pre.len() as int;
            let p0 = off + 4;
            let p1 = p0 + opt_key_width(c.1[0]);
            let p2 = p1 + opt_key_width(c.1[1]);
            let p3 = p2 + opt_key_width(c.1[2]);
            &&& b.len() == p3 + 1 + tail.len()
            &&& b.subrange(off, p0) == spec_u32_to_le_bytes(c.0)
            &&& opt_key_stored_at(b, p0, c.1[0])
            &&& opt_key_stored_at(b, p1, c.1[1])
            &&& opt_key_stored_at(b, p2, c.1[2])
            &&& b[p3] == c.2
            &&& b.subrange(p3 + 1, p3 + 1 + tail.len()) == tail
        }),
{
    vstd::bytes::lemma_auto_spec_u32_to_from_le_bytes();
    assert(c.1[0] matches Some(k) ==> k.len() == 32);
    assert(c.1[1] matches Some(k) ==> k.len() == 32);
    assert(c.1[2] matches Some(k) ==> k.len() == 32);
    let idb = spec_u32_to_le_bytes(c.0);
    let e0 = enc_opt_key(c.1[0]);
    let e1 = enc_opt_key(c.1[1]);
    let e2 = enc_opt_key(c.1[2]);
    let t = seq![c.2] + tail;
    let b = pre + enc_chain(c) + tail;
    assert(b =~= pre + idb + e0 + e1 + e2 + t);
    let a0 = pre + idb;
    let a1 = a0 + e0;
    let a2 = a1 + e1;
    let a3 = a2 + e2;
    lemma_opt_key_at(a0, c.1[0], e1 + e2 + t);
    assert(b =~= a0 + e0 + (e1 + e2 + t));
    lemma_opt_key_at(a1, c.1[1], e2 + t);
    assert(b =~= a1 + e1 + (e2 + t));
    lemma_opt_key_at(a2, c.1[2], t);
    assert(b =~= a2 + e2 + t);
    assert(b.subrange(pre.len() as int, a0.len() as int) =~= idb);
    assert(b =~= a3 + t);
    assert(b[a3.len() as int] == c.2);
    assert(b.subrange(a3.len() as int + 1, a3.len() as int + 1 + tail.len()) =~= tail);
}

/// Law: a stored user record lays its matrix out field by field in the
/// order the account type declares them, right after the upline entries:
/// the matrix id (4 bytes, little-endian), then the first, second and third
/// slots in that order (each a tag byte and its address if any), then the
/// filled count, and last the reserve (8 bytes, little-endian), which ends
/// the record. The fields before the matrix take a byte for the registered
/// flag, the referrer (tag and address), 32 bytes of wallet, 4 of upline id,
/// 1 of depth, 4 of entry count and 64 per upline entry.
pub proof fn law_stored_chain_layout(u: UserAccount)
    requires
        u.upline.upline@.len() <= u32::MAX,
    ensures
        ({
            let b = enc_user(user_v(u));
            let s0 = opt_key_v(u.chain.slots[0]);
            let s1 = opt_key_v(u.chain.slots[1]);
            let s2 = opt_key_v(u.chain.slots[2]);
            let off = 1 + opt_key_width(opt_key_v(u.referrer)) + 32 + 4 + 1 + 4 + 64 * u.upline.upline@.len();
            let p0 = off + 4;
            let p1 = p0 + opt_key_width(s0);
            let p2 = p1 + opt_key_width(s1);
            let p3 = p2 + opt_key_width(s2);
            &&& b.len() == p3 + 9
            &&& b.subrange(off, p0) == spec_u32_to_le_bytes(u.chain.id)
            &&& opt_key_stored_at(b, p0, s0)
            &&& opt_key_stored_at(b, p1, s1)
            &&& opt_key_stored_at(b, p2, s2)
            &&& b[p3] == u.chain.filled_slots
            &&& b.subrange(p3 + 1, p3 + 9) == spec_u64_to_le_bytes(u.reserved_sol)
        }),
{
    broadcast use vstd::array::group_array_axioms;
    vstd::bytes::lemma_auto_spec_u32_to_from_le_bytes();
    vstd::bytes::lemma_auto_spec_u64_to_from_le_bytes();
    let v = user_v(u);
    assert forall|i: int| 0 <= i < v.5.len() implies (#[trigger] v.5[i]).0.len() == 32 && v.5[i].1.len() == 32 by {
        assert(v.5[i] == crate::codec::entry_v(u.upline.upline@[i]));
    }
    assert forall|i: int| 0 <= i < 3 implies (#[trigger] v.6.1[i] matches Some(k) ==> k.len() == 32) by {
        assert(v.6.1[i] == opt_key_v(u.chain.slots@[i]));
    }
    lemma_enc_entries_len(v.5);
    assert(v.6.1[0] == opt_key_v(u.chain.slots[0]));
    assert(v.6.1[1] == opt_key_v(u.chain.slots[1]));
    assert(v.6.1[2] == opt_key_v(u.chain.slots[2]));
    let pre = enc_bool(v.0) + enc_opt_key(v.1) + v.2 + spec_u32_to_le_bytes(v.3) + seq![v.4]
        + spec_u32_to_le_bytes(v.5.len() as u32) + enc_entries(v.5);
    lemma_opt_key_at(enc_bool(v.0), v.1, Seq::empty());
    assert(v.2.len() == 32);
    assert(pre.len() == 1 + opt_key_width(v.1) + 32 + 4 + 1 + 4 + 64 * v.5.len());
    assert(enc_user(v) == pre + enc_chain(v.6) + spec_u64_to_le_bytes(v.7));
    lemma_chain_at(pre, v.6, spec_u64_to_le_bytes(v.7));
}

// ---- what is read is what the writer stores ----

proof fn lemma_opt_key_read(s: Seq<u8>)
    ensures
        parse_opt_key(s) matches Some((o, r)) ==> (o matches Some(k) ==> k.len() == 32) && s == enc_opt_key(o) + r,
{
    if s.len() >= 1 && s[0] == 0 {
        assert(s =~= seq![0u8] + s.skip(1));
    } else if s.len() >= 1 && s[0] == 1 && s.len() >= 33 {
        assert(s.skip(1).take(32).len() == 32);
        assert(s =~= seq![1u8] + s.skip(1).take(32) + s.skip(1).skip(32));
    }
}

proof fn lemma_u32_read(s: Seq<u8>)
    ensures
        parse_u32(s) matches Some((x, r)) ==> s == spec_u32_to_le_bytes(x) + r,
{
    vstd::bytes::lemma_auto_spec_u32_to_from_le_bytes();
    if s.len() >= 4 {
        assert(spec_u32_to_le_bytes(spec_u32_from_le_bytes(s.take(4))) == s.take(4));
        assert(s =~= s.take(4) + s.skip(4));
    }
}

proof fn lemma_u64_read(s: Seq<u8>)
    ensures
        parse_u64(s) matches Some((x, r)) ==> s == spec_u64_to_le_bytes(x) + r,
{
    vstd::bytes::lemma_auto_spec_u64_to_from_le_bytes();
    if s.len() >= 8 {
        assert(spec_u64_to_le_bytes(spec_u64_from_le_bytes(s.take(8))) == s.take(8));
        assert(s =~= s.take(8) + s.skip(8));
    }
}

proof fn lemma_entries_read(s: Seq<u8>, n: nat)
    ensures
        parse_entries(s, n) matches Some((es, r)) ==> {
            &&& es.len() == n
            &&& forall|i: int| 0 <= i < es.len() ==> (#[trigger] es[i]).0.len() == 32 && es[i].1.len() == 32
            &&& s == enc_entries(es) + r
        },
    decreases n,
{
    if n == 0 {
        if let Some((es, r)) = parse_entries(s, n) {
            assert(enc_entries(es) + r =~= s);
        }
    } else if s.len() >= 64 {
        lemma_entries_read(s.skip(64), (n - 1) as nat);
        if let Some((es, r)) = parse_entries(s, n) {
            let (t, r2) = parse_entries(s.skip(64), (n - 1) as nat)->0;
            let head = (s.take(32), s.subrange(32, 64));
            assert(es == seq![head] + t);
            assert(es.drop_first() =~= t);
            assert(es[0] == head);
            assert forall|i: int| 0 <= i < es.len() implies (#[trigger] es[i]).0.len() == 32 && es[i].1.len() == 32 by {
                if i > 0 {
                    assert(es[i] == t[i - 1]);
                }
            }
            assert(s =~= s.take(32) + s.subrange(32, 64) + s.skip(64));
            assert(enc_entries(es) == head.0 + head.1 + enc_entries(t));
            assert(s =~= enc_entries(es) + r);
        }
    }
}

proof fn lemma_chain_read(s: Seq<u8>)
    ensures
        parse_chain(s) matches Some((c, r)) ==> {
            &&& c.1.len() == 3
            &&& forall|i: int| 0 <= i < 3 ==> (#[trigger] c.1[i] matches Some(k) ==> k.len() == 32)
            &&& s == enc_chain(c) + r
        },
{
    lemma_u32_read(s);
    if let Some((id, r1)) = parse_u32(s) {
        lemma_opt_key_read(r1);
        if let Some((x0, r2)) = parse_opt_key(r1) {
            lemma_opt_key_read(r2);
            if let Some((x1, r3)) = parse_opt_key(r2) {
                lemma_opt_key_read(r3);
                if let Some((x2, r4)) = parse_opt_key(r3) {
                    if let Some((f, r5)) = parse_u8(r4) {
                        let c: ChainV = (id, seq![x0, x1, x2], f);
                        assert(c.1[0] == x0 && c.1[1] == x1 && c.1[2] == x2);
                        let idb = spec_u32_to_le_bytes(id);
                        let e0 = enc_opt_key(x0);
                        let e1 = enc_opt_key(x1);
                        let e2 = enc_opt_key(x2);
                        let fb = seq![f];
                        assert(r4 =~= fb + r5);
                        assert(s == idb + (e0 + (e1 + (e2 + (fb + r5)))));
                        vstd::seq_lib::lemma_concat_associative(idb, e0, e1 + (e2 + (fb + r5)));
                        vstd::seq_lib::lemma_concat_associative(idb + e0, e1, e2 + (fb + r5));
                        vstd::seq_lib::lemma_concat_associative(idb + e0 + e1, e2, fb + r5);
                        vstd::seq_lib::lemma_concat_associative(idb + e0 + e1 + e2, fb, r5);
                        assert(enc_chain(c) == idb + e0 + e1 + e2 + fb);
                    }
                }
            }
        }
    }
}

/// Law: a user record read from bytes is exactly what the writer stores
/// for it, followed by whatever came after; so every field is read from the
/// place where the writer puts it.
#[verifier::rlimit(60)]
pub proof fn law_read_record_is_stored_bytes(s: Seq<u8>)
    ensures
        parse_user(s) matches Some((v, rest)) ==> user_v_wf(v) && s == enc_user(v) + rest,
{
    if let Some((reg, r1)) = parse_bool(s) {
        assert(s =~= enc_bool(reg) + r1);
        lemma_opt_key_read(r1);
        if let Some((referrer, r2)) = parse_opt_key(r1) {
            if let Some((owner, r3)) = parse_key(r2) {
                assert(r2 =~= owner + r3);
                lemma_u32_read(r3);
                if let Some((uid, r4)) = parse_u32(r3) {
                    if let Some((depth, r5)) = parse_u8(r4) {
                        assert(r4 =~= seq![depth] + r5);
                        lemma_u32_read(r5);
                        if let Some((n, r6)) = parse_u32(r5) {
                            lemma_entries_read(r6, n as nat);
                            if let Some((es, r7)) = parse_entries(r6, n as nat) {
                                lemma_chain_read(r7);
                                if let Some((chain, r8)) = parse_chain(r7) {
                                    lemma_u64_read(r8);
                                    if let Some((reserved, r9)) = parse_u64(r8) {
                                        let v: UserV = (reg, referrer, owner, uid, depth, es, chain, reserved);
                                        assert((es.len() as u32) == n);
                                        let p0 = enc_bool(reg);
                                        let p1 = enc_opt_key(referrer);
                                        let p3 = spec_u32_to_le_bytes(uid);
                                        let p4 = seq![depth];
                                        let p5 = spec_u32_to_le_bytes(n);
                                        let p6 = enc_entries(es);
                                        let p7 = enc_chain(chain);
                                        let p8 = spec_u64_to_le_bytes(reserved);
                                        assert(s == p0 + (p1 + (owner + (p3 + (p4 + (p5 + (p6 + (p7 + (p8 + r9)))))))));
                                        vstd::seq_lib::lemma_concat_associative(p0, p1, owner + (p3 + (p4 + (p5 + (p6 + (p7 + (p8 + r9)))))));
                                        vstd::seq_lib::lemma_concat_associative(p0 + p1, owner, p3 + (p4 + (p5 + (p6 + (p7 + (p8 + r9))))));
                                        vstd::seq_lib::lemma_concat_associative(p0 + p1 + owner, p3, p4 + (p5 + (p6 + (p7 + (p8 + r9)))));
                                        vstd::seq_lib::lemma_concat_associative(p0 + p1 + owner + p3, p4, p5 + (p6 + (p7 + (p8 + r9))));
                                        vstd::seq_lib::lemma_concat_associative(p0 + p1 + owner + p3 + p4, p5, p6 + (p7 + (p8 + r9)));
                                        vstd::seq_lib::lemma_concat_associative(p0 + p1 + owner + p3 + p4 + p5, p6, p7 + (p8 + r9));
                                        vstd::seq_lib::lemma_concat_associative(p0 + p1 + owner + p3 + p4 + p5 + p6, p7, p8 + r9);
                                        vstd::seq_lib::lemma_concat_associative(p0 + p1 + owner + p3 + p4 + p5 + p6 + p7, p8, r9);
                                        assert(enc_user(v) == p0 + p1 + owner + p3 + p4 + p5 + p6 + p7 + p8);
                                    }
                                }
                            }
                        }
                    }
                }
            }
        }
    }
}

} // verus!
