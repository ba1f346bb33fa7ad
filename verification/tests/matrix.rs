use matrix_system::key::Key;
use matrix_system::matrix::{
    extend_upline, initialize_base_user_data, new_chain, new_referred_user, place_in_chain, reset_chain,
};
use matrix_system::state::{ReferralChain, UplineEntry, MAX_UPLINE_DEPTH};

fn key(n: u8) -> Key {
    Key { bytes: [n; 32] }
}

fn entry(n: u8) -> UplineEntry {
    UplineEntry { pda: key(n), wallet: key(n + 100) }
}

#[test]
fn three_joins_fill_the_slots_in_order() {
    let mut c = new_chain(7);
    assert_eq!(c.filled_slots, 0);
    assert_eq!(place_in_chain(&mut c, key(1)), Some(0));
    assert_eq!(place_in_chain(&mut c, key(2)), Some(1));
    assert_eq!(place_in_chain(&mut c, key(3)), Some(2));
    assert_eq!(c.filled_slots, 3);
    assert_eq!(c.id, 7);
    assert_eq!(c.slots, [Some(key(1)), Some(key(2)), Some(key(3))]);
}

#[test]
fn a_full_matrix_takes_no_one() {
    let mut c = ReferralChain { id: 1, slots: [Some(key(1)), Some(key(2)), Some(key(3))], filled_slots: 3 };
    assert_eq!(place_in_chain(&mut c, key(4)), None);
    assert_eq!(c.slots, [Some(key(1)), Some(key(2)), Some(key(3))]);
    assert_eq!(c.filled_slots, 3);
}

#[test]
fn reset_starts_a_fresh_matrix() {
    let mut c = ReferralChain { id: 1, slots: [Some(key(1)), Some(key(2)), Some(key(3))], filled_slots: 3 };
    reset_chain(&mut c, 42);
    assert_eq!(c.id, 42);
    assert_eq!(c.slots, [None, None, None]);
    assert_eq!(c.filled_slots, 0);
}

#[test]
fn short_upline_gains_the_referrer() {
    let parent = vec![entry(1), entry(2)];
    let up = extend_upline(&parent, entry(3));
    let pdas: Vec<Key> = up.iter().map(|e| e.pda).collect();
    assert_eq!(pdas, vec![key(1), key(2), key(3)]);
}

#[test]
fn long_upline_keeps_the_newest_five_and_the_referrer() {
    let parent: Vec<UplineEntry> = (1u8..=7).map(entry).collect();
    let up = extend_upline(&parent, entry(8));
    assert_eq!(up.len(), MAX_UPLINE_DEPTH);
    let pdas: Vec<Key> = up.iter().map(|e| e.pda).collect();
    assert_eq!(pdas, vec![key(3), key(4), key(5), key(6), key(7), key(8)]);
    let full: Vec<UplineEntry> = (1u8..=6).map(entry).collect();
    let up6 = extend_upline(&full, entry(9));
    let pdas6: Vec<Key> = up6.iter().map(|e| e.pda).collect();
    assert_eq!(pdas6, vec![key(2), key(3), key(4), key(5), key(6), key(9)]);
}

#[test]
fn base_user_record() {
    let u = initialize_base_user_data(key(5), 11, 12);
    assert!(u.is_registered);
    assert_eq!(u.referrer, None);
    assert_eq!(u.owner_wallet, key(5));
    assert_eq!(u.upline.id, 11);
    assert_eq!(u.upline.depth, 1);
    assert!(u.upline.upline.is_empty());
    assert_eq!(u.chain.id, 12);
    assert_eq!(u.chain.slots, [None, None, None]);
    assert_eq!(u.chain.filled_slots, 0);
    assert_eq!(u.reserved_sol, 0);
}

#[test]
fn referred_user_record() {
    let mut referrer = initialize_base_user_data(key(5), 1, 1);
    referrer.upline.upline = vec![entry(1)];
    referrer.upline.depth = 3;
    let u = new_referred_user(key(6), key(50), key(5), &referrer, 20, 21);
    assert!(u.is_registered);
    assert_eq!(u.referrer, Some(key(50)));
    assert_eq!(u.owner_wallet, key(6));
    assert_eq!(u.upline.id, 20);
    assert_eq!(u.upline.depth, 4);
    assert_eq!(u.upline.upline.len(), 2);
    assert_eq!(u.upline.upline[1].pda, key(50));
    assert_eq!(u.upline.upline[1].wallet, key(5));
    assert_eq!(u.chain.id, 21);
    assert_eq!(u.chain.filled_slots, 0);
    assert_eq!(u.reserved_sol, 0);
}
