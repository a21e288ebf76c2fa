//! Errors of the game program.
use vstd::prelude::*;

verus! {

/// The program's own error kinds.
#[derive(Debug, Clone, Copy, PartialEq, Eq, Structural)]
pub enum CrapsError {
    AccountNotInitialized,
    ActiveTournament,
    AlreadyClaimed,
    AlreadyInTournament,
    AlreadyInitialized,
    BatchFull,
    BetsNotSettled,
    BonusOnlyComeOut,
    CircuitBreakerTripped,
    DepositExceedsLimit,
    EmergencyReserveInsufficient,
    EmergencyShutdown,
    EpochMismatch,
    EpochNotFinalized,
    EpochTooRecent,
    ExceedsWithdrawalLimit,
    FireRequiresComeOut,
    GamePaused,
    HotRollerRequiresComeOut,
    InsufficientBalance,
    InsufficientBlockHashes,
    InsufficientFunds,
    InsufficientTreasuryBalance,
    InsufficientTreasuryFunds,
    InvalidAccount,
    InvalidAmount,
    InvalidAuthority,
    InvalidBetAmount,
    InvalidBetData,
    InvalidBetForPhase,
    InvalidBetKind,
    InvalidBlockhashData,
    InvalidDepositAmount,
    InvalidDiceTotal,
    InvalidDiceValues,
    InvalidEpoch,
    InvalidEpochRange,
    InvalidPDA,
    InvalidPhase,
    InvalidPlayer,
    InvalidRngPhase,
    InvalidTokenAccount,
    InvalidTokenMint,
    InvalidTournament,
    InvalidWithdrawalAmount,
    LiquidityThresholdExceeded,
    MaxBlockHashesReached,
    NoHashesCollected,
    NotInitialized,
    NotYetImplemented,
    NumericalOverflow,
    NumericalUnderflow,
    OddsBetRequiresBase,
    PayoutRatioExceeded,
    RepeaterRequiresComeOut,
    RngNotFinalized,
    SinglePayoutTooLarge,
    TooManyEpochsToSettle,
    UnauthorizedAuthority,
    UnauthorizedPlayer,
    WithdrawalExceedsLimit,
}

impl CrapsError {
    /// The number under which the error is reported to the runtime: its position in the list.
    pub open spec fn spec_code(self) -> u32 {
        match self {
            CrapsError::AccountNotInitialized => 0,
            CrapsError::ActiveTournament => 1,
            CrapsError::AlreadyClaimed => 2,
            CrapsError::AlreadyInTournament => 3,
            CrapsError::AlreadyInitialized => 4,
            CrapsError::BatchFull => 5,
            CrapsError::BetsNotSettled => 6,
            CrapsError::BonusOnlyComeOut => 7,
            CrapsError::CircuitBreakerTripped => 8,
            CrapsError::DepositExceedsLimit => 9,
            CrapsError::EmergencyReserveInsufficient => 10,
            CrapsError::EmergencyShutdown => 11,
            CrapsError::EpochMismatch => 12,
            CrapsError::EpochNotFinalized => 13,
            CrapsError::EpochTooRecent => 14,
            CrapsError::ExceedsWithdrawalLimit => 15,
            CrapsError::FireRequiresComeOut => 16,
            CrapsError::GamePaused => 17,
            CrapsError::HotRollerRequiresComeOut => 18,
            CrapsError::InsufficientBalance => 19,
            CrapsError::InsufficientBlockHashes => 20,
            CrapsError::InsufficientFunds => 21,
            CrapsError::InsufficientTreasuryBalance => 22,
            CrapsError::InsufficientTreasuryFunds => 23,
            CrapsError::InvalidAccount => 24,
            CrapsError::InvalidAmount => 25,
            CrapsError::InvalidAuthority => 26,
            CrapsError::InvalidBetAmount => 27,
            CrapsError::InvalidBetData => 28,
            CrapsError::InvalidBetForPhase => 29,
            CrapsError::InvalidBetKind => 30,
            CrapsError::InvalidBlockhashData => 31,
            CrapsError::InvalidDepositAmount => 32,
            CrapsError::InvalidDiceTotal => 33,
            CrapsError::InvalidDiceValues => 34,
            CrapsError::InvalidEpoch => 35,
            CrapsError::InvalidEpochRange => 36,
            CrapsError::InvalidPDA => 37,
            CrapsError::InvalidPhase => 38,
            CrapsError::InvalidPlayer => 39,
            CrapsError::InvalidRngPhase => 40,
            CrapsError::InvalidTokenAccount => 41,
            CrapsError::InvalidTokenMint => 42,
            CrapsError::InvalidTournament => 43,
            CrapsError::InvalidWithdrawalAmount => 44,
            CrapsError::LiquidityThresholdExceeded => 45,
            CrapsError::MaxBlockHashesReached => 46,
            CrapsError::NoHashesCollected => 47,
            CrapsError::NotInitialized => 48,
            CrapsError::NotYetImplemented => 49,
            CrapsError::NumericalOverflow => 50,
            CrapsError::NumericalUnderflow => 51,
            CrapsError::OddsBetRequiresBase => 52,
            CrapsError::PayoutRatioExceeded => 53,
            CrapsError::RepeaterRequiresComeOut => 54,
            CrapsError::RngNotFinalized => 55,
            CrapsError::SinglePayoutTooLarge => 56,
            CrapsError::TooManyEpochsToSettle => 57,
            CrapsError::UnauthorizedAuthority => 58,
            CrapsError::UnauthorizedPlayer => 59,
            CrapsError::WithdrawalExceedsLimit => 60,
        }
    }

    /// The number under which the error is reported to the runtime.
    pub fn code(&self) -> (r: u32)
        ensures
            r == self.spec_code(),
    {
        match self {
            CrapsError::AccountNotInitialized => 0,
            CrapsError::ActiveTournament => 1,
            CrapsError::AlreadyClaimed => 2,
            CrapsError::AlreadyInTournament => 3,
            CrapsError::AlreadyInitialized => 4,
            CrapsError::BatchFull => 5,
            CrapsError::BetsNotSettled => 6,
            CrapsError::BonusOnlyComeOut => 7,
            CrapsError::CircuitBreakerTripped => 8,
            CrapsError::DepositExceedsLimit => 9,
            CrapsError::EmergencyReserveInsufficient => 10,
            CrapsError::EmergencyShutdown => 11,
            CrapsError::EpochMismatch => 12,
            CrapsError::EpochNotFinalized => 13,
            CrapsError::EpochTooRecent => 14,
            CrapsError::ExceedsWithdrawalLimit => 15,
            CrapsError::FireRequiresComeOut => 16,
            CrapsError::GamePaused => 17,
            CrapsError::HotRollerRequiresComeOut => 18,
            CrapsError::InsufficientBalance => 19,
            CrapsError::InsufficientBlockHashes => 20,
            CrapsError::InsufficientFunds => 21,
            CrapsError::InsufficientTreasuryBalance => 22,
            CrapsError::InsufficientTreasuryFunds => 23,
            CrapsError::InvalidAccount => 24,
            CrapsError::InvalidAmount => 25,
            CrapsError::InvalidAuthority => 26,
            CrapsError::InvalidBetAmount => 27,
            CrapsError::InvalidBetData => 28,
            CrapsError::InvalidBetForPhase => 29,
            CrapsError::InvalidBetKind => 30,
            CrapsError::InvalidBlockhashData => 31,
            CrapsError::InvalidDepositAmount => 32,
            CrapsError::InvalidDiceTotal => 33,
            CrapsError::InvalidDiceValues => 34,
            CrapsError::InvalidEpoch => 35,
            CrapsError::InvalidEpochRange => 36,
            CrapsError::InvalidPDA => 37,
            CrapsError::InvalidPhase => 38,
            CrapsError::InvalidPlayer => 39,
            CrapsError::InvalidRngPhase => 40,
            CrapsError::InvalidTokenAccount => 41,
            CrapsError::InvalidTokenMint => 42,
            CrapsError::InvalidTournament => 43,
            CrapsError::InvalidWithdrawalAmount => 44,
            CrapsError::LiquidityThresholdExceeded => 45,
            CrapsError::MaxBlockHashesReached => 46,
            CrapsError::NoHashesCollected => 47,
            CrapsError::NotInitialized => 48,
            CrapsError::NotYetImplemented => 49,
            CrapsError::NumericalOverflow => 50,
            CrapsError::NumericalUnderflow => 51,
            CrapsError::OddsBetRequiresBase => 52,
            CrapsError::PayoutRatioExceeded => 53,
            CrapsError::RepeaterRequiresComeOut => 54,
            CrapsError::RngNotFinalized => 55,
            CrapsError::SinglePayoutTooLarge => 56,
            CrapsError::TooManyEpochsToSettle => 57,
            CrapsError::UnauthorizedAuthority => 58,
            CrapsError::UnauthorizedPlayer => 59,
            CrapsError::WithdrawalExceedsLimit => 60,
        }
    }
}

/// Errors an instruction can end with: the runtime's generic kinds and the program's own.
#[derive(Debug, Clone, Copy, PartialEq, Eq, Structural)]
pub enum ProgramError {
    /// One of the program's own errors.
    Custom(CrapsError),
    AccountAlreadyInitialized,
    ArithmeticOverflow,
    IllegalOwner,
    IncorrectProgramId,
    InvalidAccountData,
    InvalidAccountOwner,
    InvalidInstructionData,
    InvalidSeeds,
    MissingRequiredSignature,
    NotEnoughAccountKeys,
}

} // verus!
