use vstd::prelude::*;
use vstd::bytes::spec_u64_to_le_bytes;
use solana_program::instruction::Instruction;
use solana_program::pubkey::Pubkey;
use crate::key::{known_bytes, Key, KnownAddress};

verus! {

/// One account that an instruction names, and how it uses it.
#[derive(Clone, Copy, Debug)]
pub struct Meta {
    pub key: Key,
    pub is_signer: bool,
    pub is_writable: bool,
}

/// An instruction for another program: its program, accounts and data.
#[derive(Debug)]
pub struct Ix {
    pub program_id: Key,
    pub accounts: Vec<Meta>,
    pub data: Vec<u8>,
}

/// The abstract content of an account entry: address, signer, writable.
pub type MetaV = (Seq<u8>, bool, bool);

pub open spec fn meta_v(m: Meta) -> MetaV {
    (m.key@, m.is_signer, m.is_writable)
}

pub open spec fn metas_v(s: Seq<Meta>) -> Seq<MetaV> {
    s.map_values(|m: Meta| meta_v(m))
}

/// The address that the runtime derives from `seeds` for `program_id`, with
/// its bump seed, or none when no bump seed gives an address off the curve.
pub uninterp spec fn program_address(seeds: Seq<Seq<u8>>, program_id: Seq<u8>) -> Option<(Seq<u8>, u8)>;

/// Calls `Pubkey::try_find_program_address` of solana-program. The contract
/// claims only that its result is a function of the seeds and the program
/// id, named `program_address`.
#[verifier::external_body]
pub(crate) fn find_program_address(seeds: &Vec<Vec<u8>>, program_id: &Key) -> (r: Option<(Key, u8)>)
    ensures
        r is Some <==> program_address(seeds.deep_view(), program_id@) is Some,
        r matches Some((k, b)) ==> program_address(seeds.deep_view(), program_id@) == Some((k@, b)),
{
    let parts: Vec<&[u8]> = seeds.iter().map(|s| s.as_slice()).collect();
    let program = Pubkey::new_from_array(program_id.bytes);
    Pubkey::try_find_program_address(&parts, &program).map(|(pk, bump)| (Key { bytes: pk.to_bytes() }, bump))
}

/// Calls `system_instruction::transfer` of solana-program. The contract
/// claims the instruction that its source builds: the system program, the
/// payer as a writable signer, the payee as writable, and the data of the
/// transfer variant (tag 2 as 4 little-endian bytes, then the lamports).
#[verifier::external_body]
pub(crate) fn system_transfer(from: &Key, to: &Key, lamports: u64) -> (ix: Ix)
    ensures
        ix.program_id@ == known_bytes(KnownAddress::SystemProgram),
        metas_v(ix.accounts@) == seq![(from@, true, true), (to@, false, true)],
        ix.data@ == seq![2u8, 0, 0, 0] + spec_u64_to_le_bytes(lamports),
{
    let i: Instruction = solana_program::system_instruction::transfer(
        &Pubkey::new_from_array(from.bytes), &Pubkey::new_from_array(to.bytes), lamports);
    Ix {
        program_id: Key { bytes: i.program_id.to_bytes() },
        accounts: i.accounts.iter().map(|m| Meta { key: Key { bytes: m.pubkey.to_bytes() }, is_signer: m.is_signer, is_writable: m.is_writable }).collect(),
        data: i.data,
    }
}

/// Calls `spl_token::instruction::sync_native`. The contract claims what
/// its source builds: an error unless the program id is the token program,
/// else the token program, the account as writable, and data `[17]`.
#[verifier::external_body]
pub(crate) fn token_sync_native(token_program_id: &Key, account: &Key) -> (r: Option<Ix>)
    ensures
        r is Some <==> token_program_id@ == known_bytes(KnownAddress::TokenProgram),
        r matches Some(ix) ==> ix.program_id@ == token_program_id@
            && metas_v(ix.accounts@) == seq![(account@, false, true)]
            && ix.data@ == seq![17u8],
{
    let i = spl_token::instruction::sync_native(&Pubkey::new_from_array(token_program_id.bytes), &Pubkey::new_from_array(account.bytes)).ok()?;
    Some(Ix {
        program_id: Key { bytes: i.program_id.to_bytes() },
        accounts: i.accounts.iter().map(|m| Meta { key: Key { bytes: m.pubkey.to_bytes() }, is_signer: m.is_signer, is_writable: m.is_writable }).collect(),
        data: i.data,
    })
}

/// Calls `spl_token::instruction::close_account` with no extra signers. The
/// contract claims what its source builds: an error unless the program id
/// is the token program, else the account and the destination as writable,
/// the owner as a read-only signer, and data `[9]`.
#[verifier::external_body]
pub(crate) fn token_close_account(token_program_id: &Key, account: &Key, destination: &Key, owner: &Key) -> (r: Option<Ix>)
    ensures
        r is Some <==> token_program_id@ == known_bytes(KnownAddress::TokenProgram),
        r matches Some(ix) ==> ix.program_id@ == token_program_id@
            && metas_v(ix.accounts@) == seq![(account@, false, true), (destination@, false, true), (owner@, true, false)]
            && ix.data@ == seq![9u8],
{
    let (p, a, d, o) = (Pubkey::new_from_array(token_program_id.bytes), Pubkey::new_from_array(account.bytes), Pubkey::new_from_array(destination.bytes), Pubkey::new_from_array(owner.bytes));
    let i = spl_token::instruction::close_account(&p, &a, &d, &o, &[]).ok()?;
    Some(Ix {
        program_id: Key { bytes: i.program_id.to_bytes() },
        accounts: i.accounts.iter().map(|m| Meta { key: Key { bytes: m.pubkey.to_bytes() }, is_signer: m.is_signer, is_writable: m.is_writable }).collect(),
        data: i.data,
    })
}

/// Calls `spl_token::instruction::burn` with no extra signers. The contract
/// claims what its source builds: an error unless the program id is the
/// token program, else the account and the mint as writable, the authority
/// as a read-only signer, and data `[8]` then the amount in little-endian.
#[verifier::external_body]
pub(crate) fn token_burn(token_program_id: &Key, account: &Key, mint: &Key, authority: &Key, amount: u64) -> (r: Option<Ix>)
    ensures
        r is Some <==> token_program_id@ == known_bytes(KnownAddress::TokenProgram),
        r matches Some(ix) ==> ix.program_id@ == token_program_id@
            && metas_v(ix.accounts@) == seq![(account@, false, true), (mint@, false, true), (authority@, true, false)]
            && ix.data@ == seq![8u8] + spec_u64_to_le_bytes(amount),
{
    let (p, a, m, w) = (Pubkey::new_from_array(token_program_id.bytes), Pubkey::new_from_array(account.bytes), Pubkey::new_from_array(mint.bytes), Pubkey::new_from_array(authority.bytes));
    let i = spl_token::instruction::burn(&p, &a, &m, &w, &[], amount).ok()?;
    Some(Ix {
        program_id: Key { bytes: i.program_id.to_bytes() },
        accounts: i.accounts.iter().map(|m| Meta { key: Key { bytes: m.pubkey.to_bytes() }, is_signer: m.is_signer, is_writable: m.is_writable }).collect(),
        data: i.data,
    })
}

/// The seeds from which the associated token account of `wallet` for
/// `mint` under token program `token_program` is derived.
pub open spec fn ata_seeds(wallet: Seq<u8>, token_program: Seq<u8>, mint: Seq<u8>) -> Seq<Seq<u8>> {
    seq![wallet, token_program, mint]
}

/// The associated token account of `wallet` for `mint` under token program
/// `token_program`, when it can be derived.
pub open spec fn ata_address(wallet: Seq<u8>, token_program: Seq<u8>, mint: Seq<u8>) -> Seq<u8> {
    match program_address(ata_seeds(wallet, token_program, mint), known_bytes(KnownAddress::AssociatedTokenProgram)) {
        Some((a, _)) => a,
        None => Seq::empty(),
    }
}

/// Calls `spl_associated_token_account::instruction::create_associated_token_account`.
/// The contract claims what its source builds: the associated token account
/// program; the funder as a writable signer; the account derived from the
/// wallet, token program and mint as writable; then wallet, mint, system
/// program and token program read-only; data `[0]`. The derivation must
/// succeed, which the caller checks first (the source panics otherwise).
#[verifier::external_body]
pub(crate) fn create_associated_token_account(funder: &Key, wallet: &Key, mint: &Key, token_program_id: &Key) -> (ix: Ix)
    requires
        program_address(ata_seeds(wallet@, token_program_id@, mint@), known_bytes(KnownAddress::AssociatedTokenProgram)) is Some,
    ensures
        ix.program_id@ == known_bytes(KnownAddress::AssociatedTokenProgram),
        metas_v(ix.accounts@) == seq![
            (funder@, true, true),
            (ata_address(wallet@, token_program_id@, mint@), false, true),
            (wallet@, false, false),
            (mint@, false, false),
            (known_bytes(KnownAddress::SystemProgram), false, false),
            (token_program_id@, false, false),
        ],
        ix.data@ == seq![0u8],
{
    let (f, w, m, t) = (Pubkey::new_from_array(funder.bytes), Pubkey::new_from_array(wallet.bytes), Pubkey::new_from_array(mint.bytes), Pubkey::new_from_array(token_program_id.bytes));
    let i = spl_associated_token_account::instruction::create_associated_token_account(&f, &w, &m, &t);
    Ix {
        program_id: Key { bytes: i.program_id.to_bytes() },
        accounts: i.accounts.iter().map(|m| Meta { key: Key { bytes: m.pubkey.to_bytes() }, is_signer: m.is_signer, is_writable: m.is_writable }).collect(),
        data: i.data,
    }
}

} // verus!
