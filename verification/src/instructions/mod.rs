//! The program's instructions: their numbering and data, the routing of an instruction
//! to its handler, and the decisions of the handlers over the accounts' contents.
pub mod game;
pub mod expanded;
pub mod data;
pub mod betting;
pub mod treasury;
pub mod admin;

use vstd::prelude::*;
use crate::error::ProgramError;

verus! {

/// The instructions of the program, by their first byte.
#[derive(Debug, Clone, Copy, PartialEq, Eq, Structural)]
pub enum CrapsInstruction {
    InitializeSystem,
    InitializeCriticalPDAs,
    InitializePlayer,
    ClosePlayerAccount,
    Deposit,
    Withdraw,
    PlaceBet,
    SecureAutoRoll,
    CollectBlockHash,
    FinalizeRng,
    StartBettingPhase,
    SettleRealizableBets,
    ClaimEpochPayoutsUnified,
    CleanupBetBatch,
    CleanupOldEpochOutcome,
    UpdateAuthority,
    ExecuteAuthorityTransfer,
    EmergencyOperation,
    EnableSecureRng,
    UpdatePlayerTournament,
    ClearPlayerTournament,
    UpdateTreasuryParameters,
}

/// The instruction a byte stands for: 0 initializes the system up to 21, which updates
/// the treasury's parameters.
pub open spec fn instruction_of(b: u8) -> Option<CrapsInstruction> {
    if b == 0 {
        Some(CrapsInstruction::InitializeSystem)
    } else if b == 1 {
        Some(CrapsInstruction::InitializeCriticalPDAs)
    } else if b == 2 {
        Some(CrapsInstruction::InitializePlayer)
    } else if b == 3 {
        Some(CrapsInstruction::ClosePlayerAccount)
    } else if b == 4 {
        Some(CrapsInstruction::Deposit)
    } else if b == 5 {
        Some(CrapsInstruction::Withdraw)
    } else if b == 6 {
        Some(CrapsInstruction::PlaceBet)
    } else if b == 7 {
        Some(CrapsInstruction::SecureAutoRoll)
    } else if b == 8 {
        Some(CrapsInstruction::CollectBlockHash)
    } else if b == 9 {
        Some(CrapsInstruction::FinalizeRng)
    } else if b == 10 {
        Some(CrapsInstruction::StartBettingPhase)
    } else if b == 11 {
        Some(CrapsInstruction::SettleRealizableBets)
    } else if b == 12 {
        Some(CrapsInstruction::ClaimEpochPayoutsUnified)
    } else if b == 13 {
        Some(CrapsInstruction::CleanupBetBatch)
    } else if b == 14 {
        Some(CrapsInstruction::CleanupOldEpochOutcome)
    } else if b == 15 {
        Some(CrapsInstruction::UpdateAuthority)
    } else if b == 16 {
        Some(CrapsInstruction::ExecuteAuthorityTransfer)
    } else if b == 17 {
        Some(CrapsInstruction::EmergencyOperation)
    } else if b == 18 {
        Some(CrapsInstruction::EnableSecureRng)
    } else if b == 19 {
        Some(CrapsInstruction::UpdatePlayerTournament)
    } else if b == 20 {
        Some(CrapsInstruction::ClearPlayerTournament)
    } else if b == 21 {
        Some(CrapsInstruction::UpdateTreasuryParameters)
    } else {
        None
    }
}

impl CrapsInstruction {
    /// The instruction a byte stands for; any other byte is invalid instruction data.
    pub fn try_from(value: &u8) -> (r: Result<Self, ProgramError>)
        ensures
            instruction_of(*value) matches Some(i) ==> r == Ok::<Self, ProgramError>(i),
            instruction_of(*value) is None ==> r == Err::<Self, ProgramError>(ProgramError::InvalidInstructionData),
    {
        match *value {
            0 => Ok(CrapsInstruction::InitializeSystem),
            1 => Ok(CrapsInstruction::InitializeCriticalPDAs),
            2 => Ok(CrapsInstruction::InitializePlayer),
            3 => Ok(CrapsInstruction::ClosePlayerAccount),
            4 => Ok(CrapsInstruction::Deposit),
            5 => Ok(CrapsInstruction::Withdraw),
            6 => Ok(CrapsInstruction::PlaceBet),
            7 => Ok(CrapsInstruction::SecureAutoRoll),
            8 => Ok(CrapsInstruction::CollectBlockHash),
            9 => Ok(CrapsInstruction::FinalizeRng),
            10 => Ok(CrapsInstruction::StartBettingPhase),
            11 => Ok(CrapsInstruction::SettleRealizableBets),
            12 => Ok(CrapsInstruction::ClaimEpochPayoutsUnified),
            13 => Ok(CrapsInstruction::CleanupBetBatch),
            14 => Ok(CrapsInstruction::CleanupOldEpochOutcome),
            15 => Ok(CrapsInstruction::UpdateAuthority),
            16 => Ok(CrapsInstruction::ExecuteAuthorityTransfer),
            17 => Ok(CrapsInstruction::EmergencyOperation),
            18 => Ok(CrapsInstruction::EnableSecureRng),
            19 => Ok(CrapsInstruction::UpdatePlayerTournament),
            20 => Ok(CrapsInstruction::ClearPlayerTournament),
            21 => Ok(CrapsInstruction::UpdateTreasuryParameters),
            _ => Err(ProgramError::InvalidInstructionData),
        }
    }
}

/// Which authority an update replaces.
#[derive(Debug, Clone, Copy, PartialEq, Eq, Structural)]
pub enum AuthorityType {
    System,
    Rng,
    Admin,
    Emergency,
    Treasury,
}

/// The authority kind the first byte of the data stands for (0 to 4).
pub open spec fn authority_type_of(data: Seq<u8>) -> Option<AuthorityType> {
    if data.len() == 0 {
        None
    } else if data[0] == 0 {
        Some(AuthorityType::System)
    } else if data[0] == 1 {
        Some(AuthorityType::Rng)
    } else if data[0] == 2 {
        Some(AuthorityType::Admin)
    } else if data[0] == 3 {
        Some(AuthorityType::Emergency)
    } else if data[0] == 4 {
        Some(AuthorityType::Treasury)
    } else {
        None
    }
}

impl AuthorityType {
    /// The authority kind named by the first byte of the data; empty data or another byte
    /// is invalid instruction data.
    pub fn try_from(value: &[u8]) -> (r: Result<Self, ProgramError>)
        ensures
            authority_type_of(value@) matches Some(a) ==> r == Ok::<Self, ProgramError>(a),
            authority_type_of(value@) is None ==> r == Err::<Self, ProgramError>(ProgramError::InvalidInstructionData),
    {
        if value.len() == 0 {
            return Err(ProgramError::InvalidInstructionData);
        }
        match value[0] {
            0 => Ok(AuthorityType::System),
            1 => Ok(AuthorityType::Rng),
            2 => Ok(AuthorityType::Admin),
            3 => Ok(AuthorityType::Emergency),
            4 => Ok(AuthorityType::Treasury),
            _ => Err(ProgramError::InvalidInstructionData),
        }
    }
}

/// An emergency operation.
#[derive(Debug, Clone, Copy, PartialEq, Eq, Structural)]
pub enum EmergencyOperation {
    Shutdown,
    Resume,
    PauseGame,
    ResumeGame,
}

/// The emergency operation the first byte of the data stands for (0 to 3).
pub open spec fn emergency_operation_of(data: Seq<u8>) -> Option<EmergencyOperation> {
    if data.len() == 0 {
        None
    } else if data[0] == 0 {
        Some(EmergencyOperation::Shutdown)
    } else if data[0] == 1 {
        Some(EmergencyOperation::Resume)
    } else if data[0] == 2 {
        Some(EmergencyOperation::PauseGame)
    } else if data[0] == 3 {
        Some(EmergencyOperation::ResumeGame)
    } else {
        None
    }
}

impl EmergencyOperation {
    /// The operation named by the first byte of the data; empty data or another byte is
    /// invalid instruction data.
    pub fn try_from(value: &[u8]) -> (r: Result<Self, ProgramError>)
        ensures
            emergency_operation_of(value@) matches Some(o) ==> r == Ok::<Self, ProgramError>(o),
            emergency_operation_of(value@) is None ==> r == Err::<Self, ProgramError>(ProgramError::InvalidInstructionData),
    {
        if value.len() == 0 {
            return Err(ProgramError::InvalidInstructionData);
        }
        match value[0] {
            0 => Ok(EmergencyOperation::Shutdown),
            1 => Ok(EmergencyOperation::Resume),
            2 => Ok(EmergencyOperation::PauseGame),
            3 => Ok(EmergencyOperation::ResumeGame),
            _ => Err(ProgramError::InvalidInstructionData),
        }
    }
}

/// The handler an instruction is routed to.
#[derive(Debug, Clone, Copy, PartialEq, Eq, Structural)]
pub enum Handler {
    InitializeSystem,
    InitializeCriticalPdas,
    InitializePlayer,
    ClosePlayerAccount,
    Deposit,
    DepositWithAutoClaim,
    Withdraw,
    WithdrawWithAutoClaim,
    PlaceBet,
    SecureAutoRoll,
    CollectBlockHash,
    FinalizeRng,
    StartBettingPhase,
    SettleRealizableBets,
    ClaimEpochPayoutsUnified,
    CleanupBetBatch,
    CleanupOldEpochOutcome,
    UpdateAuthority,
    UpdateRngAuthority,
    UpdateAdminAuthority,
    UpdateEmergencyAuthority,
    UpdateTreasuryAuthority,
    ExecuteAuthorityTransfer,
    EmergencyShutdown,
    ResumeOperations,
    EmergencyPause,
    ResumeGame,
    EnableSecureRng,
    UpdatePlayerTournament,
    ClearPlayerTournament,
    UpdateTreasuryParameters,
}

/// Whether the data asks a deposit or withdrawal to claim pending payouts: a non-zero
/// first byte.
pub open spec fn auto_claim_requested(data: Seq<u8>) -> bool {
    data.len() > 0 && data[0] != 0
}

/// The handler of an instruction given the data after its first byte.
pub open spec fn handler_of(instruction: CrapsInstruction, data: Seq<u8>) -> Result<Handler, ProgramError> {
    match instruction {
        CrapsInstruction::InitializeSystem => Ok(Handler::InitializeSystem),
        CrapsInstruction::InitializeCriticalPDAs => Ok(Handler::InitializeCriticalPdas),
        CrapsInstruction::InitializePlayer => Ok(Handler::InitializePlayer),
        CrapsInstruction::ClosePlayerAccount => Ok(Handler::ClosePlayerAccount),
        CrapsInstruction::Deposit => Ok(
            if auto_claim_requested(data) { Handler::DepositWithAutoClaim } else { Handler::Deposit },
        ),
        CrapsInstruction::Withdraw => Ok(
            if auto_claim_requested(data) { Handler::WithdrawWithAutoClaim } else { Handler::Withdraw },
        ),
        CrapsInstruction::PlaceBet => Ok(Handler::PlaceBet),
        CrapsInstruction::SecureAutoRoll => Ok(Handler::SecureAutoRoll),
        CrapsInstruction::CollectBlockHash => Ok(Handler::CollectBlockHash),
        CrapsInstruction::FinalizeRng => Ok(Handler::FinalizeRng),
        CrapsInstruction::StartBettingPhase => Ok(Handler::StartBettingPhase),
        CrapsInstruction::SettleRealizableBets => Ok(Handler::SettleRealizableBets),
        CrapsInstruction::ClaimEpochPayoutsUnified => Ok(Handler::ClaimEpochPayoutsUnified),
        CrapsInstruction::CleanupBetBatch => Ok(Handler::CleanupBetBatch),
        CrapsInstruction::CleanupOldEpochOutcome => Ok(Handler::CleanupOldEpochOutcome),
        CrapsInstruction::UpdateAuthority => match authority_type_of(data) {
            Some(AuthorityType::System) => Ok(Handler::UpdateAuthority),
            Some(AuthorityType::Rng) => Ok(Handler::UpdateRngAuthority),
            Some(AuthorityType::Admin) => Ok(Handler::UpdateAdminAuthority),
            Some(AuthorityType::Emergency) => Ok(Handler::UpdateEmergencyAuthority),
            Some(AuthorityType::Treasury) => Ok(Handler::UpdateTreasuryAuthority),
            None => Err(ProgramError::InvalidInstructionData),
        },
        CrapsInstruction::ExecuteAuthorityTransfer => Ok(Handler::ExecuteAuthorityTransfer),
        CrapsInstruction::EmergencyOperation => match emergency_operation_of(data) {
            Some(EmergencyOperation::Shutdown) => Ok(Handler::EmergencyShutdown),
            Some(EmergencyOperation::Resume) => Ok(Handler::ResumeOperations),
            Some(EmergencyOperation::PauseGame) => Ok(Handler::EmergencyPause),
            Some(EmergencyOperation::ResumeGame) => Ok(Handler::ResumeGame),
            None => Err(ProgramError::InvalidInstructionData),
        },
        CrapsInstruction::EnableSecureRng => Ok(Handler::EnableSecureRng),
        CrapsInstruction::UpdatePlayerTournament => Ok(Handler::UpdatePlayerTournament),
        CrapsInstruction::ClearPlayerTournament => Ok(Handler::ClearPlayerTournament),
        CrapsInstruction::UpdateTreasuryParameters => Ok(Handler::UpdateTreasuryParameters),
    }
}

/// The handler an instruction goes to, from its first byte (none for empty instruction
/// data) and the data after it: a program id that is not this program's is refused,
/// empty data and an unknown first byte are invalid instruction data, and the data picks
/// the auto-claim, authority or emergency variant.
pub open spec fn route_of(program_id_matches: bool, discriminator: Option<u8>, data: Seq<u8>) -> Result<Handler, ProgramError> {
    if !program_id_matches {
        Err(ProgramError::IncorrectProgramId)
    } else {
        match discriminator {
            None => Err(ProgramError::InvalidInstructionData),
            Some(b) => match instruction_of(b) {
                None => Err(ProgramError::InvalidInstructionData),
                Some(i) => handler_of(i, data),
            },
        }
    }
}

/// Routes an instruction, split into its first byte and the rest, to its handler; the
/// handler is given the rest.
pub fn route_instruction(program_id_matches: bool, discriminator: Option<u8>, data: &[u8]) -> (r: Result<Handler, ProgramError>)
    ensures
        r == route_of(program_id_matches, discriminator, data@),
{
    if !program_id_matches {
        return Err(ProgramError::IncorrectProgramId);
    }
    let first = match discriminator {
        Some(b) => b,
        None => return Err(ProgramError::InvalidInstructionData),
    };
    let instruction = match CrapsInstruction::try_from(&first) {
        Ok(i) => i,
        Err(e) => return Err(e),
    };
    let auto_claim = if data.len() > 0 { data[0] != 0 } else { false };
    match instruction {
        CrapsInstruction::InitializeSystem => Ok(Handler::InitializeSystem),
        CrapsInstruction::InitializeCriticalPDAs => Ok(Handler::InitializeCriticalPdas),
        CrapsInstruction::InitializePlayer => Ok(Handler::InitializePlayer),
        CrapsInstruction::ClosePlayerAccount => Ok(Handler::ClosePlayerAccount),
        CrapsInstruction::Deposit => Ok(if auto_claim { Handler::DepositWithAutoClaim } else { Handler::Deposit }),
        CrapsInstruction::Withdraw => Ok(if auto_claim { Handler::WithdrawWithAutoClaim } else { Handler::Withdraw }),
        CrapsInstruction::PlaceBet => Ok(Handler::PlaceBet),
        CrapsInstruction::SecureAutoRoll => Ok(Handler::SecureAutoRoll),
        CrapsInstruction::CollectBlockHash => Ok(Handler::CollectBlockHash),
        CrapsInstruction::FinalizeRng => Ok(Handler::FinalizeRng),
        CrapsInstruction::StartBettingPhase => Ok(Handler::StartBettingPhase),
        CrapsInstruction::SettleRealizableBets => Ok(Handler::SettleRealizableBets),
        CrapsInstruction::ClaimEpochPayoutsUnified => Ok(Handler::ClaimEpochPayoutsUnified),
        CrapsInstruction::CleanupBetBatch => Ok(Handler::CleanupBetBatch),
        CrapsInstruction::CleanupOldEpochOutcome => Ok(Handler::CleanupOldEpochOutcome),
        CrapsInstruction::UpdateAuthority => match AuthorityType::try_from(data) {
            Ok(AuthorityType::System) => Ok(Handler::UpdateAuthority),
            Ok(AuthorityType::Rng) => Ok(Handler::UpdateRngAuthority),
            Ok(AuthorityType::Admin) => Ok(Handler::UpdateAdminAuthority),
            Ok(AuthorityType::Emergency) => Ok(Handler::UpdateEmergencyAuthority),
            Ok(AuthorityType::Treasury) => Ok(Handler::UpdateTreasuryAuthority),
            Err(e) => Err(e),
        },
        CrapsInstruction::ExecuteAuthorityTransfer => Ok(Handler::ExecuteAuthorityTransfer),
        CrapsInstruction::EmergencyOperation => match EmergencyOperation::try_from(data) {
            Ok(EmergencyOperation::Shutdown) => Ok(Handler::EmergencyShutdown),
            Ok(EmergencyOperation::Resume) => Ok(Handler::ResumeOperations),
            Ok(EmergencyOperation::PauseGame) => Ok(Handler::EmergencyPause),
            Ok(EmergencyOperation::ResumeGame) => Ok(Handler::ResumeGame),
            Err(e) => Err(e),
        },
        CrapsInstruction::EnableSecureRng => Ok(Handler::EnableSecureRng),
        CrapsInstruction::UpdatePlayerTournament => Ok(Handler::UpdatePlayerTournament),
        CrapsInstruction::ClearPlayerTournament => Ok(Handler::ClearPlayerTournament),
        CrapsInstruction::UpdateTreasuryParameters => Ok(Handler::UpdateTreasuryParameters),
    }
}

} // verus!
