use vstd::prelude::*;
use crate::effects::AccountRef;
use crate::key::Key;
use crate::state::AccountSnapshot;

verus! {

/// What the runtime must find out before a registration can go on.
#[derive(Clone, Copy, Debug)]
pub enum Request {
    /// Read the price feed (remaining accounts 4 and 5) and the clock.
    ReadPrice,
    /// Compute the minimum deposit, in lamports, for this SOL price.
    ComputeMinimum { price: i128, decimals: u32 },
    /// Report the account as it is now.
    ReadAccount(AccountRef),
    /// Report all remaining accounts as they are now.
    ReadRemaining,
    /// Report the clock's Unix time.
    ReadClock,
    /// Nothing more: store the records; the instruction succeeds.
    Finish,
}

/// What the runtime found out.
#[derive(Debug)]
pub enum Event {
    /// The feed's answer, its decimals, the clock's time and the answer's time.
    Price { answer: i128, decimals: u32, now: i64, feed_timestamp: i64 },
    /// The minimum deposit in lamports.
    Minimum(u64),
    /// The account that was asked for.
    Account(AccountSnapshot),
    /// All remaining accounts.
    Remaining(Vec<AccountSnapshot>),
    /// The clock's Unix time.
    Clock(i64),
}

/// Where a registration goes on once a swap-and-burn or a completion notice
/// is over.
#[derive(Clone, Copy, Debug, PartialEq, Eq, Structural)]
pub enum Resume {
    /// After the burn of a deposit that took the referrer's first slot.
    SlotBurn,
    /// After the notice of the referrer's completed matrix.
    ReferrerNotify,
    /// After the burn of a deposit that reached a user without referrer.
    BaseBurn,
    /// After the burn of a deposit that took an upline's first slot.
    UplineBurn,
    /// After the notice of an upline's completed matrix.
    UplineNotify,
    /// After the burn of a deposit that no upline took.
    LeftoverBurn,
}

/// Where a registration stands.
#[derive(Clone, Copy, Debug)]
pub enum Stage {
    AwaitPrice,
    AwaitMinimum,
    /// Waiting for the DONUT account before the swap.
    BurnBefore { amount: u64, resume: Resume },
    /// Waiting for the DONUT account after the swap.
    BurnAfter { amount: u64, before: u64, resume: Resume },
    /// Waiting for all remaining accounts, to notify `wallet`'s completion.
    NotifyRemaining { wallet: Key, is_last: bool, resume: Resume },
    /// Waiting for the clock, to notify `wallet`'s completion.
    NotifyClock { wallet: Key, is_last: bool, program_state_account: usize, resume: Resume },
    /// Waiting for the account of upline pair `pair`.
    AwaitUpline { pair: usize },
    /// Waiting for the wrapped-SOL account, to close it.
    AwaitWsolLen,
    Finished,
}

} // verus!
