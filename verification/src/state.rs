use vstd::prelude::*;
use crate::key::Key;

verus! {

/// Largest number of ancestors that a user's upline keeps.
pub const MAX_UPLINE_DEPTH: usize = 6;

/// Global program state.
#[derive(Clone, Copy, Debug)]
pub struct ProgramState {
    pub owner: Key,
    pub multisig_treasury: Key,
    pub next_upline_id: u32,
    pub next_chain_id: u32,
    pub airdrop_active: bool,
    pub airdrop_end_timestamp: i64,
}

/// One ancestor of a user: the ancestor's account address and wallet.
#[derive(Clone, Copy, Debug)]
pub struct UplineEntry {
    pub pda: Key,
    pub wallet: Key,
}

/// The chain of referrers above a user, oldest first.
#[derive(Debug)]
pub struct ReferralUpline {
    pub id: u32,
    pub depth: u8,
    pub upline: Vec<UplineEntry>,
}

/// A user's 3-slot referral matrix.
#[derive(Clone, Copy, Debug)]
pub struct ReferralChain {
    pub id: u32,
    pub slots: [Option<Key>; 3],
    pub filled_slots: u8,
}

/// A registered user of the matrix program.
#[derive(Debug)]
pub struct UserAccount {
    pub is_registered: bool,
    pub referrer: Option<Key>,
    pub owner_wallet: Key,
    pub upline: ReferralUpline,
    pub chain: ReferralChain,
    pub reserved_sol: u64,
}

/// Event recorded each time a user takes a slot in someone's matrix.
#[derive(Clone, Copy, Debug)]
pub struct SlotFilled {
    pub slot_idx: u8,
    pub chain_id: u32,
    pub user: Key,
    pub owner: Key,
}

/// The state that the airdrop program keeps, as laid out in its account.
#[derive(Debug)]
pub struct AirdropProgramState {
    pub admin: Key,
    pub donut_token_mint: Key,
    pub current_week: u8,
    pub matrix_program_id: Key,
    pub start_timestamp: i64,
    pub total_matrices_completed: u64,
    pub matrices_by_week: [u64; 36],
    pub total_users: u64,
    pub token_vault: Key,
    pub token_vault_bump: u8,
    pub initialized: bool,
    pub vault_created: bool,
}

impl ProgramState {
    /// Serialized size of the state, without the 8-byte account tag.
    pub const SIZE: usize = 32 + 32 + 4 + 4 + 1 + 8;
}

impl UserAccount {
    /// Serialized size of a user account with a full upline, without the tag.
    pub const SIZE: usize = 1 + 1 + 32 + 32 + 4 + 1 + 4 + MAX_UPLINE_DEPTH * (32 + 32) + 4 + 3 * (1 + 32) + 1 + 8;
}

/// What the program can see of an account: its address, its owner
/// program, its balance in lamports and its data.
#[derive(Debug)]
pub struct AccountSnapshot {
    pub key: Key,
    pub owner: Key,
    pub lamports: u64,
    pub data: Vec<u8>,
}

/// A matrix is well formed when the first `filled_slots` slots are taken,
/// the others are empty, and at most two are taken.
pub open spec fn chain_wf(c: ReferralChain) -> bool {
    &&& c.filled_slots <= 2
    &&& forall|i: int| 0 <= i < 3 ==> (#[trigger] c.slots[i] is Some <==> i < c.filled_slots)
}

} // verus!
