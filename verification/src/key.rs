use vstd::prelude::*;

verus! {

/// A 32-byte account address.
#[derive(Clone, Copy, Debug)]
pub struct Key {
    pub bytes: [u8; 32],
}

impl View for Key {
    type V = Seq<u8>;

    open spec fn view(&self) -> Seq<u8> {
        self.bytes@
    }
}

impl PartialEq for Key {
    fn eq(&self, other: &Self) -> (r: bool) {
        let mut i: usize = 0;
        while i < 32
            invariant
                0 <= i <= 32,
                forall|j: int| 0 <= j < i ==> self.bytes@[j] == other.bytes@[j],
            decreases 32 - i,
        {
            if self.bytes[i] != other.bytes[i] {
                return false;
            }
            i = i + 1;
        }
        proof {
            assert(self.bytes@ =~= other.bytes@);
        }
        true
    }
}

impl Eq for Key {}

impl vstd::std_specs::cmp::PartialEqSpecImpl for Key {
    open spec fn obeys_eq_spec() -> bool {
        true
    }

    open spec fn eq_spec(&self, other: &Key) -> bool {
        self@ == other@
    }
}

/// Compares two addresses by their bytes.
pub fn same_key(a: &Key, b: &Key) -> (r: bool)
    ensures
        r == (a@ == b@),
{
    *a == *b
}

/// The addresses that the program knows by heart.
#[derive(Clone, Copy, Debug, PartialEq, Eq, Structural)]
pub enum KnownAddress {
    /// The Meteora pool.
    Pool,
    /// The vault A (DONUT token vault).
    AVault,
    /// The vault A LP account.
    AVaultLp,
    /// The vault A LP mint.
    AVaultLpMint,
    /// The vault A token vault.
    ATokenVault,
    /// The vault B LP account.
    BVaultLp,
    /// The vault B (SOL).
    BVault,
    /// The vault B token vault.
    BTokenVault,
    /// The vault B LP mint.
    BVaultLpMint,
    /// The DONUT token mint.
    TokenMint,
    /// The wrapped SOL mint.
    WsolMint,
    /// The Chainlink program.
    ChainlinkProgram,
    /// The SOL/USD price feed.
    SolUsdFeed,
    /// The Meteora vault program.
    MeteoraVaultProgram,
    /// The Meteora dynamic AMM program.
    MeteoraAmmProgram,
    /// The Meteora protocol fee account for token B.
    ProtocolTokenBFee,
    /// The multisig treasury, the only base-user registrar.
    MultisigTreasury,
    /// The the only wallet that may initialize the program.
    AuthorizedInitializer,
    /// The airdrop program.
    AirdropProgram,
    /// The this program.
    MatrixProgram,
    /// The system program.
    SystemProgram,
    /// The SPL token program.
    TokenProgram,
    /// The associated token account program.
    AssociatedTokenProgram,
    /// The instructions sysvar.
    InstructionsSysvar,
}

/// The bytes of each known address.
pub open spec fn known_bytes(which: KnownAddress) -> Seq<u8> {
    match which {
        KnownAddress::Pool => seq![172u8, 64, 33, 161, 13, 104, 163, 50, 148, 63, 41, 116, 45, 208, 151, 97, 52, 67, 226, 100, 107, 246, 72, 12, 168, 251, 225, 135, 70, 104, 218, 1],
        KnownAddress::AVault => seq![73u8, 75, 62, 145, 242, 113, 221, 118, 48, 136, 0, 190, 173, 39, 22, 242, 1, 232, 218, 74, 38, 70, 152, 113, 134, 100, 147, 95, 210, 204, 180, 87],
        KnownAddress::AVaultLp => seq![141u8, 14, 56, 45, 1, 142, 215, 82, 120, 4, 105, 33, 43, 219, 121, 90, 252, 26, 126, 93, 90, 41, 151, 92, 60, 145, 245, 184, 157, 22, 200, 97],
        KnownAddress::AVaultLpMint => seq![31u8, 48, 150, 41, 210, 76, 119, 89, 31, 13, 238, 221, 155, 57, 15, 149, 0, 232, 191, 188, 197, 140, 116, 152, 67, 146, 123, 74, 122, 246, 71, 22],
        KnownAddress::ATokenVault => seq![205u8, 63, 36, 7, 228, 150, 29, 56, 34, 3, 0, 28, 78, 185, 24, 183, 146, 76, 13, 17, 130, 90, 245, 80, 110, 225, 253, 102, 63, 156, 168, 88],
        KnownAddress::BVaultLp => seq![146u8, 53, 20, 214, 142, 97, 11, 193, 164, 61, 109, 202, 39, 162, 202, 117, 15, 60, 72, 36, 199, 25, 175, 176, 107, 219, 164, 91, 173, 85, 236, 74],
        KnownAddress::BVault => seq![211u8, 116, 33, 118, 184, 156, 94, 20, 201, 107, 116, 137, 152, 66, 31, 56, 16, 30, 9, 229, 197, 147, 49, 177, 104, 182, 37, 205, 39, 21, 187, 38],
        KnownAddress::BTokenVault => seq![246u8, 23, 205, 69, 16, 175, 112, 199, 97, 146, 4, 153, 248, 254, 151, 213, 178, 49, 26, 105, 225, 154, 23, 104, 60, 162, 170, 164, 139, 236, 154, 125],
        KnownAddress::BVaultLpMint => seq![216u8, 78, 18, 144, 193, 152, 231, 136, 186, 14, 17, 79, 3, 130, 20, 103, 150, 8, 218, 40, 252, 210, 10, 22, 49, 239, 195, 147, 251, 191, 105, 42],
        KnownAddress::TokenMint => seq![190u8, 45, 61, 139, 245, 34, 54, 214, 245, 115, 193, 99, 250, 220, 153, 142, 108, 95, 134, 250, 97, 38, 55, 93, 54, 9, 50, 58, 23, 176, 192, 158],
        KnownAddress::WsolMint => seq![6u8, 155, 136, 87, 254, 171, 129, 132, 251, 104, 127, 99, 70, 24, 192, 53, 218, 196, 57, 220, 26, 235, 59, 85, 152, 160, 240, 0, 0, 0, 0, 1],
        KnownAddress::ChainlinkProgram => seq![241u8, 75, 246, 90, 213, 107, 210, 186, 113, 94, 69, 116, 44, 35, 31, 39, 214, 54, 33, 207, 91, 119, 143, 55, 193, 162, 72, 149, 29, 23, 86, 2],
        KnownAddress::SolUsdFeed => seq![167u8, 140, 30, 242, 193, 23, 166, 75, 154, 50, 51, 139, 60, 250, 7, 100, 232, 71, 190, 42, 248, 150, 252, 63, 70, 124, 227, 72, 107, 215, 33, 103],
        KnownAddress::MeteoraVaultProgram => seq![15u8, 191, 232, 132, 109, 104, 92, 189, 198, 44, 202, 126, 4, 199, 232, 246, 141, 204, 49, 58, 179, 18, 119, 226, 224, 17, 42, 46, 192, 224, 82, 229],
        KnownAddress::MeteoraAmmProgram => seq![204u8, 248, 2, 212, 204, 204, 132, 215, 251, 33, 181, 247, 59, 73, 216, 26, 22, 197, 180, 200, 142, 227, 35, 148, 225, 201, 29, 53, 136, 204, 64, 128],
        KnownAddress::ProtocolTokenBFee => seq![218u8, 227, 133, 102, 39, 99, 154, 238, 66, 61, 8, 156, 151, 84, 58, 135, 208, 245, 137, 246, 81, 91, 250, 204, 134, 43, 101, 44, 218, 155, 46, 89],
        KnownAddress::MultisigTreasury => seq![103u8, 78, 171, 64, 186, 59, 9, 29, 213, 185, 198, 88, 222, 33, 247, 243, 91, 21, 193, 242, 251, 236, 49, 8, 34, 66, 46, 130, 185, 131, 137, 69],
        KnownAddress::AuthorizedInitializer => seq![15u8, 199, 233, 124, 162, 213, 225, 117, 176, 67, 108, 109, 105, 184, 251, 254, 31, 226, 77, 233, 212, 133, 61, 168, 35, 16, 247, 252, 234, 13, 70, 108],
        KnownAddress::AirdropProgram => seq![136u8, 101, 234, 169, 120, 3, 93, 161, 20, 120, 201, 110, 222, 14, 135, 157, 91, 98, 199, 30, 216, 14, 165, 169, 226, 137, 108, 213, 42, 97, 208, 10],
        KnownAddress::MatrixProgram => seq![16u8, 148, 173, 162, 135, 29, 114, 238, 211, 56, 209, 250, 62, 3, 212, 69, 184, 133, 238, 144, 59, 148, 238, 63, 138, 51, 66, 215, 149, 9, 28, 137],
        KnownAddress::SystemProgram => seq![0u8, 0, 0, 0, 0, 0, 0, 0, 0, 0, 0, 0, 0, 0, 0, 0, 0, 0, 0, 0, 0, 0, 0, 0, 0, 0, 0, 0, 0, 0, 0, 0],
        KnownAddress::TokenProgram => seq![6u8, 221, 246, 225, 215, 101, 161, 147, 217, 203, 225, 70, 206, 235, 121, 172, 28, 180, 133, 237, 95, 91, 55, 145, 58, 140, 245, 133, 126, 255, 0, 169],
        KnownAddress::AssociatedTokenProgram => seq![140u8, 151, 37, 143, 78, 36, 137, 241, 187, 61, 16, 41, 20, 142, 13, 131, 11, 90, 19, 153, 218, 255, 16, 132, 4, 142, 123, 216, 219, 233, 248, 89],
        KnownAddress::InstructionsSysvar => seq![6u8, 167, 213, 23, 24, 123, 209, 102, 53, 218, 212, 4, 85, 253, 194, 192, 193, 36, 198, 143, 33, 86, 117, 165, 219, 186, 203, 95, 8, 0, 0, 0],
    }
}

/// The known address `which`.
pub fn known_address(which: KnownAddress) -> (k: Key)
    ensures
        k@ == known_bytes(which),
{
    match which {
        KnownAddress::Pool => Key { bytes: [172u8, 64, 33, 161, 13, 104, 163, 50, 148, 63, 41, 116, 45, 208, 151, 97, 52, 67, 226, 100, 107, 246, 72, 12, 168, 251, 225, 135, 70, 104, 218, 1] },
        KnownAddress::AVault => Key { bytes: [73u8, 75, 62, 145, 242, 113, 221, 118, 48, 136, 0, 190, 173, 39, 22, 242, 1, 232, 218, 74, 38, 70, 152, 113, 134, 100, 147, 95, 210, 204, 180, 87] },
        KnownAddress::AVaultLp => Key { bytes: [141u8, 14, 56, 45, 1, 142, 215, 82, 120, 4, 105, 33, 43, 219, 121, 90, 252, 26, 126, 93, 90, 41, 151, 92, 60, 145, 245, 184, 157, 22, 200, 97] },
        KnownAddress::AVaultLpMint => Key { bytes: [31u8, 48, 150, 41, 210, 76, 119, 89, 31, 13, 238, 221, 155, 57, 15, 149, 0, 232, 191, 188, 197, 140, 116, 152, 67, 146, 123, 74, 122, 246, 71, 22] },
        KnownAddress::ATokenVault => Key { bytes: [205u8, 63, 36, 7, 228, 150, 29, 56, 34, 3, 0, 28, 78, 185, 24, 183, 146, 76, 13, 17, 130, 90, 245, 80, 110, 225, 253, 102, 63, 156, 168, 88] },
        KnownAddress::BVaultLp => Key { bytes: [146u8, 53, 20, 214, 142, 97, 11, 193, 164, 61, 109, 202, 39, 162, 202, 117, 15, 60, 72, 36, 199, 25, 175, 176, 107, 219, 164, 91, 173, 85, 236, 74] },
        KnownAddress::BVault => Key { bytes: [211u8, 116, 33, 118, 184, 156, 94, 20, 201, 107, 116, 137, 152, 66, 31, 56, 16, 30, 9, 229, 197, 147, 49, 177, 104, 182, 37, 205, 39, 21, 187, 38] },
        KnownAddress::BTokenVault => Key { bytes: [246u8, 23, 205, 69, 16, 175, 112, 199, 97, 146, 4, 153, 248, 254, 151, 213, 178, 49, 26, 105, 225, 154, 23, 104, 60, 162, 170, 164, 139, 236, 154, 125] },
        KnownAddress::BVaultLpMint => Key { bytes: [216u8, 78, 18, 144, 193, 152, 231, 136, 186, 14, 17, 79, 3, 130, 20, 103, 150, 8, 218, 40, 252, 210, 10, 22, 49, 239, 195, 147, 251, 191, 105, 42] },
        KnownAddress::TokenMint => Key { bytes: [190u8, 45, 61, 139, 245, 34, 54, 214, 245, 115, 193, 99, 250, 220, 153, 142, 108, 95, 134, 250, 97, 38, 55, 93, 54, 9, 50, 58, 23, 176, 192, 158] },
        KnownAddress::WsolMint => Key { bytes: [6u8, 155, 136, 87, 254, 171, 129, 132, 251, 104, 127, 99, 70, 24, 192, 53, 218, 196, 57, 220, 26, 235, 59, 85, 152, 160, 240, 0, 0, 0, 0, 1] },
        KnownAddress::ChainlinkProgram => Key { bytes: [241u8, 75, 246, 90, 213, 107, 210, 186, 113, 94, 69, 116, 44, 35, 31, 39, 214, 54, 33, 207, 91, 119, 143, 55, 193, 162, 72, 149, 29, 23, 86, 2] },
        KnownAddress::SolUsdFeed => Key { bytes: [167u8, 140, 30, 242, 193, 23, 166, 75, 154, 50, 51, 139, 60, 250, 7, 100, 232, 71, 190, 42, 248, 150, 252, 63, 70, 124, 227, 72, 107, 215, 33, 103] },
        KnownAddress::MeteoraVaultProgram => Key { bytes: [15u8, 191, 232, 132, 109, 104, 92, 189, 198, 44, 202, 126, 4, 199, 232, 246, 141, 204, 49, 58, 179, 18, 119, 226, 224, 17, 42, 46, 192, 224, 82, 229] },
        KnownAddress::MeteoraAmmProgram => Key { bytes: [204u8, 248, 2, 212, 204, 204, 132, 215, 251, 33, 181, 247, 59, 73, 216, 26, 22, 197, 180, 200, 142, 227, 35, 148, 225, 201, 29, 53, 136, 204, 64, 128] },
        KnownAddress::ProtocolTokenBFee => Key { bytes: [218u8, 227, 133, 102, 39, 99, 154, 238, 66, 61, 8, 156, 151, 84, 58, 135, 208, 245, 137, 246, 81, 91, 250, 204, 134, 43, 101, 44, 218, 155, 46, 89] },
        KnownAddress::MultisigTreasury => Key { bytes: [103u8, 78, 171, 64, 186, 59, 9, 29, 213, 185, 198, 88, 222, 33, 247, 243, 91, 21, 193, 242, 251, 236, 49, 8, 34, 66, 46, 130, 185, 131, 137, 69] },
        KnownAddress::AuthorizedInitializer => Key { bytes: [15u8, 199, 233, 124, 162, 213, 225, 117, 176, 67, 108, 109, 105, 184, 251, 254, 31, 226, 77, 233, 212, 133, 61, 168, 35, 16, 247, 252, 234, 13, 70, 108] },
        KnownAddress::AirdropProgram => Key { bytes: [136u8, 101, 234, 169, 120, 3, 93, 161, 20, 120, 201, 110, 222, 14, 135, 157, 91, 98, 199, 30, 216, 14, 165, 169, 226, 137, 108, 213, 42, 97, 208, 10] },
        KnownAddress::MatrixProgram => Key { bytes: [16u8, 148, 173, 162, 135, 29, 114, 238, 211, 56, 209, 250, 62, 3, 212, 69, 184, 133, 238, 144, 59, 148, 238, 63, 138, 51, 66, 215, 149, 9, 28, 137] },
        KnownAddress::SystemProgram => Key { bytes: [0u8, 0, 0, 0, 0, 0, 0, 0, 0, 0, 0, 0, 0, 0, 0, 0, 0, 0, 0, 0, 0, 0, 0, 0, 0, 0, 0, 0, 0, 0, 0, 0] },
        KnownAddress::TokenProgram => Key { bytes: [6u8, 221, 246, 225, 215, 101, 161, 147, 217, 203, 225, 70, 206, 235, 121, 172, 28, 180, 133, 237, 95, 91, 55, 145, 58, 140, 245, 133, 126, 255, 0, 169] },
        KnownAddress::AssociatedTokenProgram => Key { bytes: [140u8, 151, 37, 143, 78, 36, 137, 241, 187, 61, 16, 41, 20, 142, 13, 131, 11, 90, 19, 153, 218, 255, 16, 132, 4, 142, 123, 216, 219, 233, 248, 89] },
        KnownAddress::InstructionsSysvar => Key { bytes: [6u8, 167, 213, 23, 24, 123, 209, 102, 53, 218, 212, 4, 85, 253, 194, 192, 193, 36, 198, 143, 33, 86, 117, 165, 219, 186, 203, 95, 8, 0, 0, 0] },
    }
}

/// Reads the 32-byte address stored at `offset` in `data`.
pub fn key_at(data: &[u8], offset: usize) -> (k: Key)
    requires
        offset + 32 <= data@.len(),
    ensures
        k@ == data@.subrange(offset as int, offset + 32),
{
    let mut bytes = [0u8; 32];
    let mut i: usize = 0;
    while i < 32
        invariant
            0 <= i <= 32,
            offset + 32 <= data.len(),
            forall|j: int| 0 <= j < i ==> bytes@[j] == data@[offset + j],
        decreases 32 - i,
    {
        bytes[i] = data[offset + i];
        i = i + 1;
    }
    let k = Key { bytes };
    proof {
        assert(k@ =~= data@.subrange(offset as int, offset + 32));
    }
    k
}

} // verus!
