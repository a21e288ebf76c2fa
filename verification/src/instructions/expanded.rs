//! The instruction set with one instruction for each operation (34 in all), where
//! deposits, withdrawals, authority updates and emergency operations each have their own
//! number.
use vstd::prelude::*;
use crate::error::ProgramError;

verus! {

/// The instructions of the program, by their first byte, one per operation.
#[derive(Debug, Clone, Copy, PartialEq, Eq, Structural)]
pub enum CrapsInstruction {
    InitializeSystem,
    InitializeCriticalPDAs,
    InitializePlayer,
    ClosePlayerAccount,
    DepositV2,
    WithdrawV2,
    DepositWithAutoClaimV2,
    WithdrawWithAutoClaimV2,
    PlaceBet,
    SecureAutoRoll,
    CollectBlockHash,
    FinalizeRng,
    StartBettingPhase,
    SettleRealizableBets,
    ClaimEpochPayoutsUnified,
    CleanupBetBatch,
    CleanupOldBetBatch,
    CleanupOldEpochOutcome,
    UpdateAuthority,
    UpdateRngAuthority,
    UpdateAdminAuthority,
    UpdateEmergencyAuthority,
    ExecuteAuthorityTransfer,
    EmergencyShutdown,
    ResumeOperations,
    EmergencyPause,
    ResumeGame,
    EnableSecureRng,
    UpdatePlayerTournament,
    ClearPlayerTournament,
    UpdateTreasuryAuthority,
    UpdateTreasuryParameters,
    CreatePda,
    GetPda,
}

/// The instruction a byte stands for (0 to 33).
pub open spec fn instruction_of(b: u8) -> Option<CrapsInstruction> {
    if b == 0 {
        Some(CrapsInstruction::InitializeSystem)
    } else if b == 1 {
        Some(CrapsInstruction::InitializeCriticalPDAs)
    } else if b == 2 {
        Some(CrapsInstruction::InitializePlayer)
    } else if b == 3 {
        Some(CrapsInstruction::ClosePlayerAccount)
    } else if b == 4 {
        Some(CrapsInstruction::DepositV2)
    } else if b == 5 {
        Some(CrapsInstruction::WithdrawV2)
    } else if b == 6 {
        Some(CrapsInstruction::DepositWithAutoClaimV2)
    } else if b == 7 {
        Some(CrapsInstruction::WithdrawWithAutoClaimV2)
    } else if b == 8 {
        Some(CrapsInstruction::PlaceBet)
    } else if b == 9 {
        Some(CrapsInstruction::SecureAutoRoll)
    } else if b == 10 {
        Some(CrapsInstruction::CollectBlockHash)
    } else if b == 11 {
        Some(CrapsInstruction::FinalizeRng)
    } else if b == 12 {
        Some(CrapsInstruction::StartBettingPhase)
    } else if b == 13 {
        Some(CrapsInstruction::SettleRealizableBets)
    } else if b == 14 {
        Some(CrapsInstruction::ClaimEpochPayoutsUnified)
    } else if b == 15 {
        Some(CrapsInstruction::CleanupBetBatch)
    } else if b == 16 {
        Some(CrapsInstruction::CleanupOldBetBatch)
    } else if b == 17 {
        Some(CrapsInstruction::CleanupOldEpochOutcome)
    } else if b == 18 {
        Some(CrapsInstruction::UpdateAuthority)
    } else if b == 19 {
        Some(CrapsInstruction::UpdateRngAuthority)
    } else if b == 20 {
        Some(CrapsInstruction::UpdateAdminAuthority)
    } else if b == 21 {
        Some(CrapsInstruction::UpdateEmergencyAuthority)
    } else if b == 22 {
        Some(CrapsInstruction::ExecuteAuthorityTransfer)
    } else if b == 23 {
        Some(CrapsInstruction::EmergencyShutdown)
    } else if b == 24 {
        Some(CrapsInstruction::ResumeOperations)
    } else if b == 25 {
        Some(CrapsInstruction::EmergencyPause)
    } else if b == 26 {
        Some(CrapsInstruction::ResumeGame)
    } else if b == 27 {
        Some(CrapsInstruction::EnableSecureRng)
    } else if b == 28 {
        Some(CrapsInstruction::UpdatePlayerTournament)
    } else if b == 29 {
        Some(CrapsInstruction::ClearPlayerTournament)
    } else if b == 30 {
        Some(CrapsInstruction::UpdateTreasuryAuthority)
    } else if b == 31 {
        Some(CrapsInstruction::UpdateTreasuryParameters)
    } else if b == 32 {
        Some(CrapsInstruction::CreatePda)
    } else if b == 33 {
        Some(CrapsInstruction::GetPda)
    } else {
        None
    }
}

impl CrapsInstruction {
    /// The instruction a byte stands for; any other byte is invalid instruction data.
    pub fn try_from(value: &u8) -> (r: Result<Self, ProgramError>)
        ensures
            instruction_of(*value) matches Some(i) ==> r == Ok::<Self, ProgramError>(i),
            instruction_of(*value) is None ==> r == Err::<Self, ProgramError>(ProgramError::InvalidInstructionData),
    {
        match *value {
            0 => Ok(CrapsInstruction::InitializeSystem),
            1 => Ok(CrapsInstruction::InitializeCriticalPDAs),
            2 => Ok(CrapsInstruction::InitializePlayer),
            3 => Ok(CrapsInstruction::ClosePlayerAccount),
            4 => Ok(CrapsInstruction::DepositV2),
            5 => Ok(CrapsInstruction::WithdrawV2),
            6 => Ok(CrapsInstruction::DepositWithAutoClaimV2),
            7 => Ok(CrapsInstruction::WithdrawWithAutoClaimV2),
            8 => Ok(CrapsInstruction::PlaceBet),
            9 => Ok(CrapsInstruction::SecureAutoRoll),
            10 => Ok(CrapsInstruction::CollectBlockHash),
            11 => Ok(CrapsInstruction::FinalizeRng),
            12 => Ok(CrapsInstruction::StartBettingPhase),
            13 => Ok(CrapsInstruction::SettleRealizableBets),
            14 => Ok(CrapsInstruction::ClaimEpochPayoutsUnified),
            15 => Ok(CrapsInstruction::CleanupBetBatch),
            16 => Ok(CrapsInstruction::CleanupOldBetBatch),
            17 => Ok(CrapsInstruction::CleanupOldEpochOutcome),
            18 => Ok(CrapsInstruction::UpdateAuthority),
            19 => Ok(CrapsInstruction::UpdateRngAuthority),
            20 => Ok(CrapsInstruction::UpdateAdminAuthority),
            21 => Ok(CrapsInstruction::UpdateEmergencyAuthority),
            22 => Ok(CrapsInstruction::ExecuteAuthorityTransfer),
            23 => Ok(CrapsInstruction::EmergencyShutdown),
            24 => Ok(CrapsInstruction::ResumeOperations),
            25 => Ok(CrapsInstruction::EmergencyPause),
            26 => Ok(CrapsInstruction::ResumeGame),
            27 => Ok(CrapsInstruction::EnableSecureRng),
            28 => Ok(CrapsInstruction::UpdatePlayerTournament),
            29 => Ok(CrapsInstruction::ClearPlayerTournament),
            30 => Ok(CrapsInstruction::UpdateTreasuryAuthority),
            31 => Ok(CrapsInstruction::UpdateTreasuryParameters),
            32 => Ok(CrapsInstruction::CreatePda),
            33 => Ok(CrapsInstruction::GetPda),
            _ => Err(ProgramError::InvalidInstructionData),
        }
    }
}

} // verus!
