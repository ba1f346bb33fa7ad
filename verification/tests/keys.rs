use std::str::FromStr;

use matrix_system::key::{key_at, known_address, same_key, Key, KnownAddress};
use solana_program::pubkey::Pubkey;

fn bytes_of(s: &str) -> [u8; 32] {
    Pubkey::from_str(s).unwrap().to_bytes()
}

#[test]
fn known_addresses_match_their_base58_names() {
    let table = [
        (KnownAddress::Pool, "CbPqqtMDr23yGoBgWwYdd3DdDPs6Md9fkYDLvN2nhhTE"),
        (KnownAddress::AVault, "5w7Jtio3JdQNA5AJ5xscf4CXCoYyh8bKLRMifrwyVvmC"),
        (KnownAddress::AVaultLp, "AVd4YdUCmU5uC1pvCNeDMi9aLq2zLX7m3Waxc1AMoUTa"),
        (KnownAddress::AVaultLpMint, "36kcK9rFc8pQhzDnGj95ik86gnENqKZxNoKu4Lu6UcNZ"),
        (KnownAddress::ATokenVault, "EpCRN19HhzSRouHX2A3ww3v6MkivZntuYzMoEKbi4TBd"),
        (KnownAddress::BVaultLp, "AqjUDqBoSSHrmMPaj9NaLaFVVTxLGJf2vAtNGTVur1XP"),
        (KnownAddress::BVault, "FERjPVNEa7Udq8CEv68h6tPL46Tq7ieE49HrE2wea3XT"),
        (KnownAddress::BTokenVault, "HZeLxbZ9uHtSpwZC3LBr4Nubd14iHwz7bRSghRZf5VCG"),
        (KnownAddress::BVaultLpMint, "FZN7QZ8ZUUAxMPfxYEYkH3cXUASzH8EqA6B4tyCL8f1j"),
        (KnownAddress::TokenMint, "DoNUTcc99FrkpQyeaLkYRcangQboNBYP17x7wbqvCqdo"),
        (KnownAddress::WsolMint, "So11111111111111111111111111111111111111112"),
        (KnownAddress::ChainlinkProgram, "HEvSKofvBgfaexv23kMabbYqxasxU3mQ4ibBMEmJWHny"),
        (KnownAddress::SolUsdFeed, "CH31Xns5z3M1cTAbKW34jcxPPciazARpijcHj9rxtemt"),
        (KnownAddress::MeteoraVaultProgram, "24Uqj9JCLxUeoC3hGfh5W3s9FM9uCHDS2SG3LYwBpyTi"),
        (KnownAddress::MeteoraAmmProgram, "Eo7WjKq67rjJQSZxS6z3YkapzY3eMj6Xy8X5EQVn5UaB"),
        (KnownAddress::ProtocolTokenBFee, "FjT6jkxcZPU78v5E4Pomri1Kq6SBmkuz1n5M36xZyhwW"),
        (KnownAddress::MultisigTreasury, "7xGZx4p8ta1jsMU96opkeH8iF84gfLv5kaEvbTfeEGxU"),
        (KnownAddress::AuthorizedInitializer, "24bvHXAxxVT2HxuoBptyG9guhE4vUKUTzFWPVBmHRCzw"),
        (KnownAddress::AirdropProgram, "ABSanWxsMbM2uLfBz31vbB33qdaEjE8wjRfVWgBw9Cdw"),
        (KnownAddress::MatrixProgram, "27j1sNEtfRWBYnaNfWcbpJ4t3QAiWqq9rB4bBgLATmPW"),
        (KnownAddress::SystemProgram, "11111111111111111111111111111111"),
        (KnownAddress::TokenProgram, "TokenkegQfeZyiNwAJbNbGKPFXCWuBvf9Ss623VQ5DA"),
        (KnownAddress::AssociatedTokenProgram, "ATokenGPvbdGVxr1b2hvZbsiqW5xWH25efTNsLJA8knL"),
        (KnownAddress::InstructionsSysvar, "Sysvar1nstructions1111111111111111111111111"),
    ];
    for (which, text) in table.iter() {
        assert_eq!(known_address(*which).bytes, bytes_of(text), "{:?}", which);
    }
}

#[test]
fn same_key_compares_all_bytes() {
    let a = Key { bytes: [7u8; 32] };
    let mut b = a;
    assert!(same_key(&a, &b));
    assert!(a == b);
    b.bytes[31] = 8;
    assert!(!same_key(&a, &b));
    assert!(a != b);
}

#[test]
fn key_at_reads_32_bytes_at_offset() {
    let data: Vec<u8> = (0u8..80).collect();
    let k = key_at(&data, 10);
    let expected: Vec<u8> = (10u8..42).collect();
    assert_eq!(k.bytes.to_vec(), expected);
}
