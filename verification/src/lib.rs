//! Escrow-backed prediction competitions: parameter validation, the
//! competition life cycle and the custody of the pooled funds.

pub mod address;
pub mod error;
pub mod funds;
pub mod instructions;
pub mod laws;
pub mod pubkey;
pub mod state;
pub mod validation;

pub use address::{find_competition_address, find_prediction_address, find_vault_address};
pub use error::{ErrorCode, InstructionError};
pub use funds::{AccountMeta, Instruction, Transfer};
pub use instructions::{
    apply_creation, apply_resolution, apply_submission, initialize_competition,
    resolve_competition, submit_prediction, CreationFindings, InitializeCompetition,
    ResolveCompetition, SubmissionFindings, SubmitPrediction,
};
pub use pubkey::{id, Pubkey};
pub use state::{
    Competition, CompetitionAccount, CompetitionState, Prediction, PredictionAccount,
    SystemAccount,
};
pub use validation::{
    validate_competition_params, validate_prediction_guess, validate_resolve_params,
};
