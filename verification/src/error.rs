use vstd::prelude::*;

verus! {

/// The errors that the program reports, numbered from 6000 in this order.
#[derive(Clone, Copy, Debug, PartialEq, Eq, Structural)]
pub enum ErrorCode {
    /// Referrer account is not registered
    ReferrerNotRegistered,
    /// Missing required vault A accounts
    MissingVaultAAccounts,
    /// Not authorized
    NotAuthorized,
    /// Slot account not owned by program
    InvalidSlotOwner,
    /// Invalid account owner
    InvalidAccountOwner,
    /// Slot account not registered
    SlotNotRegistered,
    /// Insufficient deposit amount
    InsufficientDeposit,
    /// Failed to process SOL reserve
    SolReserveFailed,
    /// Failed to process referrer payment
    ReferrerPaymentFailed,
    /// Failed to wrap SOL to WSOL
    WrapSolFailed,
    /// Failed to unwrap WSOL to SOL
    UnwrapSolFailed,
    /// Invalid wallet for ATA
    InvalidWalletForATA,
    /// Missing required account for upline
    MissingUplineAccount,
    /// Payment wallet is not a system account
    PaymentWalletInvalid,
    /// Failed to read price feed
    PriceFeedReadFailed,
    /// Price feed too old
    PriceFeedTooOld,
    /// Invalid Chainlink program
    InvalidChainlinkProgram,
    /// Invalid price feed
    InvalidPriceFeed,
    /// Invalid pool address
    InvalidPoolAddress,
    /// Invalid vault address
    InvalidVaultAddress,
    /// Invalid token mint address
    InvalidTokenMintAddress,
    /// Invalid vault program address
    InvalidVaultProgram,
    /// Invalid AMM program
    InvalidAmmProgram,
    /// Invalid protocol fee account
    InvalidProtocolFeeAccount,
    /// Failed to process swap
    SwapFailed,
    /// Failed to burn tokens
    BurnFailed,
    /// Failed to read Meteora pool data
    PriceMeteoraReadFailed,
    /// Meteora pool calculation overflow
    MeteoraCalculationOverflow,
    /// Deposit was not allocated - critical error
    UnusedDepositDetected,
    /// Non-base user must provide uplines for slot 3
    UplineRequiredForNonBase,
    /// User not registered in airdrop program
    UserNotRegisteredInAirdrop,
    /// Invalid token account
    InvalidTokenAccount,
    /// Token account has wrong mint
    InvalidTokenMint,
    /// Token account has wrong owner
    InvalidTokenOwner,
    /// Duplicate upline detected - possible exploit attempt
    DuplicateUplineExploit,
    /// Invalid upline wallet
    InvalidUplineWallet,
    /// Too many uplines provided
    InvalidUplineCount,
    /// Invalid airdrop PDA
    InvalidAirdropPDA,
    /// Invalid upline order
    InvalidUplineOrder,
    /// Invalid airdrop account data
    InvalidAccountData,
}

/// Why an instruction stops: one of the program's own errors, or a failure
/// that the runtime reports for the program: bad account data, account
/// data that does not decode or does not fit, an arithmetic overflow or an
/// out-of-range index (which abort the program), no bump seed for a derived
/// address, or a token instruction built for another program.
#[derive(Clone, Copy, Debug, PartialEq, Eq, Structural)]
pub enum Failure {
    Code(ErrorCode),
    InvalidAccountData,
    Deserialize,
    Serialize,
    Overflow,
    OutOfBounds,
    NoBumpSeed,
    IncorrectProgramId,
}

impl ErrorCode {
    /// The number under which the error is reported.
    pub open spec fn spec_number(self) -> u32 {
        match self {
            ErrorCode::ReferrerNotRegistered => 6000,
            ErrorCode::MissingVaultAAccounts => 6001,
            ErrorCode::NotAuthorized => 6002,
            ErrorCode::InvalidSlotOwner => 6003,
            ErrorCode::InvalidAccountOwner => 6004,
            ErrorCode::SlotNotRegistered => 6005,
            ErrorCode::InsufficientDeposit => 6006,
            ErrorCode::SolReserveFailed => 6007,
            ErrorCode::ReferrerPaymentFailed => 6008,
            ErrorCode::WrapSolFailed => 6009,
            ErrorCode::UnwrapSolFailed => 6010,
            ErrorCode::InvalidWalletForATA => 6011,
            ErrorCode::MissingUplineAccount => 6012,
            ErrorCode::PaymentWalletInvalid => 6013,
            ErrorCode::PriceFeedReadFailed => 6014,
            ErrorCode::PriceFeedTooOld => 6015,
            ErrorCode::InvalidChainlinkProgram => 6016,
            ErrorCode::InvalidPriceFeed => 6017,
            ErrorCode::InvalidPoolAddress => 6018,
            ErrorCode::InvalidVaultAddress => 6019,
            ErrorCode::InvalidTokenMintAddress => 6020,
            ErrorCode::InvalidVaultProgram => 6021,
            ErrorCode::InvalidAmmProgram => 6022,
            ErrorCode::InvalidProtocolFeeAccount => 6023,
            ErrorCode::SwapFailed => 6024,
            ErrorCode::BurnFailed => 6025,
            ErrorCode::PriceMeteoraReadFailed => 6026,
            ErrorCode::MeteoraCalculationOverflow => 6027,
            ErrorCode::UnusedDepositDetected => 6028,
            ErrorCode::UplineRequiredForNonBase => 6029,
            ErrorCode::UserNotRegisteredInAirdrop => 6030,
            ErrorCode::InvalidTokenAccount => 6031,
            ErrorCode::InvalidTokenMint => 6032,
            ErrorCode::InvalidTokenOwner => 6033,
            ErrorCode::DuplicateUplineExploit => 6034,
            ErrorCode::InvalidUplineWallet => 6035,
            ErrorCode::InvalidUplineCount => 6036,
            ErrorCode::InvalidAirdropPDA => 6037,
            ErrorCode::InvalidUplineOrder => 6038,
            ErrorCode::InvalidAccountData => 6039,
        }
    }

    pub fn number(&self) -> (r: u32)
        ensures
            r == self.spec_number(),
    {
        match self {
            ErrorCode::ReferrerNotRegistered => 6000,
            ErrorCode::MissingVaultAAccounts => 6001,
            ErrorCode::NotAuthorized => 6002,
            ErrorCode::InvalidSlotOwner => 6003,
            ErrorCode::InvalidAccountOwner => 6004,
            ErrorCode::SlotNotRegistered => 6005,
            ErrorCode::InsufficientDeposit => 6006,
            ErrorCode::SolReserveFailed => 6007,
            ErrorCode::ReferrerPaymentFailed => 6008,
            ErrorCode::WrapSolFailed => 6009,
            ErrorCode::UnwrapSolFailed => 6010,
            ErrorCode::InvalidWalletForATA => 6011,
            ErrorCode::MissingUplineAccount => 6012,
            ErrorCode::PaymentWalletInvalid => 6013,
            ErrorCode::PriceFeedReadFailed => 6014,
            ErrorCode::PriceFeedTooOld => 6015,
            ErrorCode::InvalidChainlinkProgram => 6016,
            ErrorCode::InvalidPriceFeed => 6017,
            ErrorCode::InvalidPoolAddress => 6018,
            ErrorCode::InvalidVaultAddress => 6019,
            ErrorCode::InvalidTokenMintAddress => 6020,
            ErrorCode::InvalidVaultProgram => 6021,
            ErrorCode::InvalidAmmProgram => 6022,
            ErrorCode::InvalidProtocolFeeAccount => 6023,
            ErrorCode::SwapFailed => 6024,
            ErrorCode::BurnFailed => 6025,
            ErrorCode::PriceMeteoraReadFailed => 6026,
            ErrorCode::MeteoraCalculationOverflow => 6027,
            ErrorCode::UnusedDepositDetected => 6028,
            ErrorCode::UplineRequiredForNonBase => 6029,
            ErrorCode::UserNotRegisteredInAirdrop => 6030,
            ErrorCode::InvalidTokenAccount => 6031,
            ErrorCode::InvalidTokenMint => 6032,
            ErrorCode::InvalidTokenOwner => 6033,
            ErrorCode::DuplicateUplineExploit => 6034,
            ErrorCode::InvalidUplineWallet => 6035,
            ErrorCode::InvalidUplineCount => 6036,
            ErrorCode::InvalidAirdropPDA => 6037,
            ErrorCode::InvalidUplineOrder => 6038,
            ErrorCode::InvalidAccountData => 6039,
        }
    }

    /// The message that goes with the error.
    pub open spec fn spec_message(self) -> Seq<char> {
        match self {
            ErrorCode::ReferrerNotRegistered => "Referrer account is not registered"@,
            ErrorCode::MissingVaultAAccounts => "Missing required vault A accounts"@,
            ErrorCode::NotAuthorized => "Not authorized"@,
            ErrorCode::InvalidSlotOwner => "Slot account not owned by program"@,
            ErrorCode::InvalidAccountOwner => "Invalid account owner"@,
            ErrorCode::SlotNotRegistered => "Slot account not registered"@,
            ErrorCode::InsufficientDeposit => "Insufficient deposit amount"@,
            ErrorCode::SolReserveFailed => "Failed to process SOL reserve"@,
            ErrorCode::ReferrerPaymentFailed => "Failed to process referrer payment"@,
            ErrorCode::WrapSolFailed => "Failed to wrap SOL to WSOL"@,
            ErrorCode::UnwrapSolFailed => "Failed to unwrap WSOL to SOL"@,
            ErrorCode::InvalidWalletForATA => "Invalid wallet for ATA"@,
            ErrorCode::MissingUplineAccount => "Missing required account for upline"@,
            ErrorCode::PaymentWalletInvalid => "Payment wallet is not a system account"@,
            ErrorCode::PriceFeedReadFailed => "Failed to read price feed"@,
            ErrorCode::PriceFeedTooOld => "Price feed too old"@,
            ErrorCode::InvalidChainlinkProgram => "Invalid Chainlink program"@,
            ErrorCode::InvalidPriceFeed => "Invalid price feed"@,
            ErrorCode::InvalidPoolAddress => "Invalid pool address"@,
            ErrorCode::InvalidVaultAddress => "Invalid vault address"@,
            ErrorCode::InvalidTokenMintAddress => "Invalid token mint address"@,
            ErrorCode::InvalidVaultProgram => "Invalid vault program address"@,
            ErrorCode::InvalidAmmProgram => "Invalid AMM program"@,
            ErrorCode::InvalidProtocolFeeAccount => "Invalid protocol fee account"@,
            ErrorCode::SwapFailed => "Failed to process swap"@,
            ErrorCode::BurnFailed => "Failed to burn tokens"@,
            ErrorCode::PriceMeteoraReadFailed => "Failed to read Meteora pool data"@,
            ErrorCode::MeteoraCalculationOverflow => "Meteora pool calculation overflow"@,
            ErrorCode::UnusedDepositDetected => "Deposit was not allocated - critical error"@,
            ErrorCode::UplineRequiredForNonBase => "Non-base user must provide uplines for slot 3"@,
            ErrorCode::UserNotRegisteredInAirdrop => "User not registered in airdrop program"@,
            ErrorCode::InvalidTokenAccount => "Invalid token account"@,
            ErrorCode::InvalidTokenMint => "Token account has wrong mint"@,
            ErrorCode::InvalidTokenOwner => "Token account has wrong owner"@,
            ErrorCode::DuplicateUplineExploit => "Duplicate upline detected - possible exploit attempt"@,
            ErrorCode::InvalidUplineWallet => "Invalid upline wallet"@,
            ErrorCode::InvalidUplineCount => "Too many uplines provided"@,
            ErrorCode::InvalidAirdropPDA => "Invalid airdrop PDA"@,
            ErrorCode::InvalidUplineOrder => "Invalid upline order"@,
            ErrorCode::InvalidAccountData => "Invalid airdrop account data"@,
        }
    }

    /// The message that goes with the error.
    pub fn message(&self) -> (m: &'static str)
        ensures
            m@ == self.spec_message(),
    {
        match self {
            ErrorCode::ReferrerNotRegistered => "Referrer account is not registered",
            ErrorCode::MissingVaultAAccounts => "Missing required vault A accounts",
            ErrorCode::NotAuthorized => "Not authorized",
            ErrorCode::InvalidSlotOwner => "Slot account not owned by program",
            ErrorCode::InvalidAccountOwner => "Invalid account owner",
            ErrorCode::SlotNotRegistered => "Slot account not registered",
            ErrorCode::InsufficientDeposit => "Insufficient deposit amount",
            ErrorCode::SolReserveFailed => "Failed to process SOL reserve",
            ErrorCode::ReferrerPaymentFailed => "Failed to process referrer payment",
            ErrorCode::WrapSolFailed => "Failed to wrap SOL to WSOL",
            ErrorCode::UnwrapSolFailed => "Failed to unwrap WSOL to SOL",
            ErrorCode::InvalidWalletForATA => "Invalid wallet for ATA",
            ErrorCode::MissingUplineAccount => "Missing required account for upline",
            ErrorCode::PaymentWalletInvalid => "Payment wallet is not a system account",
            ErrorCode::PriceFeedReadFailed => "Failed to read price feed",
            ErrorCode::PriceFeedTooOld => "Price feed too old",
            ErrorCode::InvalidChainlinkProgram => "Invalid Chainlink program",
            ErrorCode::InvalidPriceFeed => "Invalid price feed",
            ErrorCode::InvalidPoolAddress => "Invalid pool address",
            ErrorCode::InvalidVaultAddress => "Invalid vault address",
            ErrorCode::InvalidTokenMintAddress => "Invalid token mint address",
            ErrorCode::InvalidVaultProgram => "Invalid vault program address",
            ErrorCode::InvalidAmmProgram => "Invalid AMM program",
            ErrorCode::InvalidProtocolFeeAccount => "Invalid protocol fee account",
            ErrorCode::SwapFailed => "Failed to process swap",
            ErrorCode::BurnFailed => "Failed to burn tokens",
            ErrorCode::PriceMeteoraReadFailed => "Failed to read Meteora pool data",
            ErrorCode::MeteoraCalculationOverflow => "Meteora pool calculation overflow",
            ErrorCode::UnusedDepositDetected => "Deposit was not allocated - critical error",
            ErrorCode::UplineRequiredForNonBase => "Non-base user must provide uplines for slot 3",
            ErrorCode::UserNotRegisteredInAirdrop => "User not registered in airdrop program",
            ErrorCode::InvalidTokenAccount => "Invalid token account",
            ErrorCode::InvalidTokenMint => "Token account has wrong mint",
            ErrorCode::InvalidTokenOwner => "Token account has wrong owner",
            ErrorCode::DuplicateUplineExploit => "Duplicate upline detected - possible exploit attempt",
            ErrorCode::InvalidUplineWallet => "Invalid upline wallet",
            ErrorCode::InvalidUplineCount => "Too many uplines provided",
            ErrorCode::InvalidAirdropPDA => "Invalid airdrop PDA",
            ErrorCode::InvalidUplineOrder => "Invalid upline order",
            ErrorCode::InvalidAccountData => "Invalid airdrop account data",
        }
    }
}

} // verus!
