use vstd::prelude::*;
use crate::error::ErrorCode;
use crate::key::{known_address, known_bytes, same_key, Key, KnownAddress};
use crate::state::{ProgramState, UserAccount};

verus! {

/// The accounts of the instruction that sets up the program state.
#[derive(Clone, Copy, Debug)]
pub struct Initialize {
    /// The signer, who pays for the state account.
    pub owner: Key,
}

/// The program state as it is set up by `owner`: the owner, the fixed
/// treasury, both id counters at one, the airdrop running with no end yet.
pub open spec fn initial_state_ok(s: ProgramState, owner: Key) -> bool {
    &&& s.owner == owner
    &&& s.multisig_treasury@ == known_bytes(KnownAddress::MultisigTreasury)
    &&& s.next_upline_id == 1
    &&& s.next_chain_id == 1
    &&& s.airdrop_active
    &&& s.airdrop_end_timestamp == 0
}

/// Sets up the program state; only the authorized initializer may.
pub fn initialize(accounts: &Initialize) -> (r: Result<ProgramState, ErrorCode>)
    ensures
        accounts.owner@ != known_bytes(KnownAddress::AuthorizedInitializer) ==> r == Err::<ProgramState, ErrorCode>(
            ErrorCode::NotAuthorized,
        ),
        accounts.owner@ == known_bytes(KnownAddress::AuthorizedInitializer) ==> (r matches Ok(s)
            && initial_state_ok(s, accounts.owner)),
{
    if !same_key(&accounts.owner, &known_address(KnownAddress::AuthorizedInitializer)) {
        return Err(ErrorCode::NotAuthorized);
    }
    Ok(ProgramState {
        owner: accounts.owner,
        multisig_treasury: known_address(KnownAddress::MultisigTreasury),
        next_upline_id: 1,
        next_chain_id: 1,
        airdrop_active: true,
        airdrop_end_timestamp: 0,
    })
}

/// The accounts of a matrix completion: the program state, the referrer's
/// wallet (a signer), the referrer's account, the paying user and the
/// system program.
#[derive(Debug)]
pub struct MatrixCompletion {
    pub state: ProgramState,
    pub referrer_wallet: Key,
    pub referrer: UserAccount,
    pub user: Key,
    pub system_program: Key,
}

impl MatrixCompletion {
    /// The referrer's account must belong to the referrer's wallet.
    pub fn validate(&self) -> (r: Result<(), ErrorCode>)
        ensures
            r == (if self.referrer.owner_wallet@ == self.referrer_wallet@ {
                Ok::<(), ErrorCode>(())
            } else {
                Err(ErrorCode::InvalidAccountOwner)
            }),
    {
        if !same_key(&self.referrer.owner_wallet, &self.referrer_wallet) {
            return Err(ErrorCode::InvalidAccountOwner);
        }
        Ok(())
    }
}

} // verus!
