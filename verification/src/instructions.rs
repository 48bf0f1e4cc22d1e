//! The three instructions: create a competition, submit a prediction, resolve
//! a competition. Each takes the accounts it works on, decides, and either
//! applies all of its effects or none. What it returns on success is the
//! transfer that the ledger has to carry out.
//!
//! Every instruction comes in two steps. The first establishes what can only
//! be computed: whether the accounts are at the addresses derived for them,
//! and, for a creation, whether the parameters are valid. The second, named
//! `apply_..`, decides on these findings and on what the accounts hold, and
//! acts. `initialize_competition`, `submit_prediction` and
//! `resolve_competition` do both.

use vstd::prelude::*;
use crate::address::{
    authority,
    competition_seeds,
    is_competition_address,
    is_derived,
    is_prediction_address,
    prediction_seeds,
    vault_authority,
    vault_seeds,
};
use crate::error::{ErrorCode, InstructionError};
use crate::funds::{
    deposit_authorized,
    inbound_transfer,
    judge_deposit,
    judge_pay_out,
    outbound_transfer,
    pay_out_authorized,
    Transfer,
};
use crate::pubkey::Pubkey;
use crate::state::{
    Competition,
    CompetitionAccount,
    CompetitionAccountView,
    CompetitionState,
    CompetitionView,
    Prediction,
    PredictionAccount,
    SystemAccount,
};
use crate::validation::{
    competition_params_check,
    prediction_guess_check,
    resolve_params_check,
    validate_competition_params,
    validate_prediction_guess,
    validate_resolve_params,
};

verus! {

/// The accounts of the instruction that creates a competition.
#[derive(Clone, Debug, PartialEq, Eq)]
pub struct InitializeCompetition {
    /// Where the competition is to be recorded; nothing may be there yet.
    pub competition: CompetitionAccount,
    /// The vault of the competition.
    pub vault: SystemAccount,
    /// The party that signs, pays the prize pool and becomes the creator.
    pub creator: Pubkey,
}

/// What the accounts of a creation hold.
pub ghost struct InitializeCompetitionView {
    pub competition: CompetitionAccountView,
    pub vault: SystemAccount,
    pub creator: Pubkey,
}

impl View for InitializeCompetition {
    type V = InitializeCompetitionView;

    open spec fn view(&self) -> InitializeCompetitionView {
        InitializeCompetitionView {
            competition: self.competition@,
            vault: self.vault,
            creator: self.creator,
        }
    }
}

/// The accounts of the instruction that submits a prediction.
#[derive(Clone, Debug, PartialEq, Eq)]
pub struct SubmitPrediction {
    /// The competition that the prediction is for.
    pub competition: CompetitionAccount,
    /// Where the prediction is to be recorded; nothing may be there yet.
    pub prediction: PredictionAccount,
    /// The vault of the competition.
    pub vault: SystemAccount,
    /// The participant, who signs and pays the entry fee.
    pub user: Pubkey,
}

/// What the accounts of a submission hold.
pub ghost struct SubmitPredictionView {
    pub competition: CompetitionAccountView,
    pub prediction: PredictionAccount,
    pub vault: SystemAccount,
    pub user: Pubkey,
}

impl View for SubmitPrediction {
    type V = SubmitPredictionView;

    open spec fn view(&self) -> SubmitPredictionView {
        SubmitPredictionView {
            competition: self.competition@,
            prediction: self.prediction,
            vault: self.vault,
            user: self.user,
        }
    }
}

/// The accounts of the instruction that resolves a competition.
#[derive(Clone, Debug, PartialEq, Eq)]
pub struct ResolveCompetition {
    /// The competition to resolve.
    pub competition: CompetitionAccount,
    /// The vault of the competition.
    pub vault: SystemAccount,
    /// The party that signs; it has to be the recorded creator.
    pub creator: Pubkey,
}

/// What the accounts of a resolution hold.
pub ghost struct ResolveCompetitionView {
    pub competition: CompetitionAccountView,
    pub vault: SystemAccount,
    pub creator: Pubkey,
}

impl View for ResolveCompetition {
    type V = ResolveCompetitionView;

    open spec fn view(&self) -> ResolveCompetitionView {
        ResolveCompetitionView {
            competition: self.competition@,
            vault: self.vault,
            creator: self.creator,
        }
    }
}

/// The record of a competition that was just created.
pub open spec fn new_competition(
    creator: Pubkey,
    id: Seq<char>,
    token: Seq<char>,
    end_time: i64,
    entry_fee: u64,
    prize_pool: u64,
    bump: u8,
) -> CompetitionView {
    CompetitionView {
        id,
        creator,
        token,
        end_time,
        entry_fee,
        prize_pool,
        state: CompetitionState::Active,
        winner: Pubkey::empty(),
        bump,
    }
}

/// What was established about a creation before it is decided on.
#[derive(Clone, Copy, Debug, PartialEq, Eq)]
pub struct CreationFindings {
    /// The verdict on the parameters.
    pub parameters: Result<(), ErrorCode>,
    /// Whether the competition account is at the address derived from the
    /// identifier.
    pub competition_address: bool,
    /// The vault's bump, where the vault account is at the address derived
    /// from the identifier; `None` where it is not.
    pub vault_authority: Option<u8>,
}

/// Whether a competition can be created, and if not, why. The parameters come
/// first; then the record's address, which has to be the derived one and
/// unoccupied; then the payment of the prize pool into the vault.
pub open spec fn judge_creation(
    accounts: InitializeCompetitionView,
    findings: CreationFindings,
    prize_pool: u64,
) -> Result<(), InstructionError> {
    match findings.parameters {
        Err(reason) => Err(InstructionError::Program(reason)),
        Ok(()) => if !findings.competition_address {
            Err(InstructionError::SeedsMismatch)
        } else if accounts.competition.record is Some {
            Err(InstructionError::AccountInUse)
        } else {
            judge_deposit(accounts.vault, findings.vault_authority, accounts.creator, prize_pool)
        },
    }
}

/// What is to be established about a creation at time `now`.
pub open spec fn creation_findings(
    program_id: Pubkey,
    accounts: InitializeCompetitionView,
    id: Seq<char>,
    token: Seq<char>,
    end_time: i64,
    entry_fee: u64,
    prize_pool: u64,
    now: i64,
) -> CreationFindings {
    CreationFindings {
        parameters: competition_params_check(id, token, end_time, entry_fee, prize_pool, now),
        competition_address: is_derived(
            competition_seeds(id),
            program_id,
            accounts.competition.key,
        ),
        vault_authority: authority(vault_seeds(id), program_id, accounts.vault.key),
    }
}

/// Whether a competition can be created at time `now`, and if not, why.
pub open spec fn initialize_competition_check(
    program_id: Pubkey,
    accounts: InitializeCompetitionView,
    id: Seq<char>,
    token: Seq<char>,
    end_time: i64,
    entry_fee: u64,
    prize_pool: u64,
    now: i64,
) -> Result<(), InstructionError> {
    judge_creation(
        accounts,
        creation_findings(program_id, accounts, id, token, end_time, entry_fee, prize_pool, now),
        prize_pool,
    )
}

/// The accounts after a competition was created on them.
pub open spec fn initialize_competition_effect(
    accounts: InitializeCompetitionView,
    id: Seq<char>,
    token: Seq<char>,
    end_time: i64,
    entry_fee: u64,
    prize_pool: u64,
    bump: u8,
) -> InitializeCompetitionView {
    InitializeCompetitionView {
        competition: CompetitionAccountView {
            key: accounts.competition.key,
            record: Some(
                new_competition(accounts.creator, id, token, end_time, entry_fee, prize_pool, bump),
            ),
        },
        vault: accounts.vault.credited(prize_pool),
        creator: accounts.creator,
    }
}

/// The accounts after an attempt to create a competition on them: changed
/// where the attempt succeeds, untouched where it fails.
pub open spec fn initialize_competition_step(
    program_id: Pubkey,
    accounts: InitializeCompetitionView,
    id: Seq<char>,
    token: Seq<char>,
    end_time: i64,
    entry_fee: u64,
    prize_pool: u64,
    bump: u8,
    now: i64,
) -> InitializeCompetitionView {
    if initialize_competition_check(
        program_id,
        accounts,
        id,
        token,
        end_time,
        entry_fee,
        prize_pool,
        now,
    ) is Ok {
        initialize_competition_effect(accounts, id, token, end_time, entry_fee, prize_pool, bump)
    } else {
        accounts
    }
}

/// Decides on a creation and carries it out, given what was established
/// about it.
///
/// On success the record is written, active and without a winner, the vault
/// holds `prize_pool` more than before, and the transfer of the prize pool
/// from the creator to the vault is returned. On failure the accounts are as
/// they were.
pub fn apply_creation(
    ctx: &mut InitializeCompetition,
    findings: &CreationFindings,
    competition_id: String,
    token: String,
    end_time: i64,
    entry_fee: u64,
    prize_pool: u64,
    bump: u8,
) -> (done: Result<Transfer, InstructionError>)
    ensures
        match judge_creation(old(ctx)@, *findings, prize_pool) {
            Ok(()) => {
                &&& done matches Ok(transfer)
                &&& transfer@ == inbound_transfer(old(ctx).creator, old(ctx).vault.key, prize_pool)
                &&& final(ctx)@ == initialize_competition_effect(
                    old(ctx)@,
                    competition_id@,
                    token@,
                    end_time,
                    entry_fee,
                    prize_pool,
                    bump,
                )
            },
            Err(reason) => {
                &&& done matches Err(error)
                &&& error == reason
                &&& *final(ctx) == *old(ctx)
            },
        },
{
    match findings.parameters {
        Err(reason) => { return Err(InstructionError::Program(reason)); },
        Ok(()) => {},
    }
    if !findings.competition_address {
        return Err(InstructionError::SeedsMismatch);
    }
    if ctx.competition.record.is_some() {
        return Err(InstructionError::AccountInUse);
    }
    let creator = ctx.creator;
    let transfer = match deposit_authorized(
        &mut ctx.vault,
        findings.vault_authority,
        &creator,
        prize_pool,
    ) {
        Ok(transfer) => transfer,
        Err(reason) => { return Err(reason); },
    };
    ctx.competition.record = Some(
        Competition {
            id: competition_id,
            creator,
            token,
            end_time,
            entry_fee,
            prize_pool,
            state: CompetitionState::Active,
            winner: Pubkey::default(),
            bump,
        },
    );
    Ok(transfer)
}

/// Creates a competition at time `now`.
///
/// The parameters are checked and the addresses of the competition account
/// and of the vault are recomputed from the identifier; what follows is
/// `apply_creation`. On success the record is written, active and without a
/// winner, the vault holds `prize_pool` more than before, and the transfer of
/// the prize pool from the creator to the vault is returned. On failure the
/// accounts are as they were.
pub fn initialize_competition(
    program_id: &Pubkey,
    ctx: &mut InitializeCompetition,
    competition_id: String,
    token: String,
    end_time: i64,
    entry_fee: u64,
    prize_pool: u64,
    bump: u8,
    now: i64,
) -> (done: Result<Transfer, InstructionError>)
    ensures
        match initialize_competition_check(
            *program_id,
            old(ctx)@,
            competition_id@,
            token@,
            end_time,
            entry_fee,
            prize_pool,
            now,
        ) {
            Ok(()) => {
                &&& done matches Ok(transfer)
                &&& transfer@ == inbound_transfer(old(ctx).creator, old(ctx).vault.key, prize_pool)
            },
            Err(reason) => {
                &&& done matches Err(error)
                &&& error == reason
                &&& *final(ctx) == *old(ctx)
            },
        },
        final(ctx)@ == initialize_competition_step(
            *program_id,
            old(ctx)@,
            competition_id@,
            token@,
            end_time,
            entry_fee,
            prize_pool,
            bump,
            now,
        ),
{
    let findings = CreationFindings {
        parameters: validate_competition_params(
            competition_id.as_str(),
            token.as_str(),
            end_time,
            entry_fee,
            prize_pool,
            now,
        ),
        competition_address: is_competition_address(
            program_id,
            &ctx.competition.key,
            competition_id.as_str(),
        ),
        vault_authority: vault_authority(program_id, &ctx.vault.key, competition_id.as_str()),
    };
    apply_creation(ctx, &findings, competition_id, token, end_time, entry_fee, prize_pool, bump)
}

/// The record of a prediction that was just submitted.
pub open spec fn new_prediction(
    competition: Pubkey,
    user: Pubkey,
    guess: u64,
    timestamp: i64,
    bump: u8,
) -> Prediction {
    Prediction { competition, user, guess, timestamp, bump }
}

/// What was established about a submission before it is decided on.
#[derive(Clone, Copy, Debug, PartialEq, Eq)]
pub struct SubmissionFindings {
    /// Whether the prediction account is at the address derived from the
    /// competition's address and the participant.
    pub prediction_address: bool,
    /// The vault's bump, where the vault account is at the address derived
    /// from the competition's identifier; `None` where it is not.
    pub vault_authority: Option<u8>,
}

/// Whether a prediction can be submitted at time `now`, and if not, why.
/// A competition that is resolved and one whose deadline has passed are
/// refused alike, as closed. Then the guess is checked; then the record's
/// address, which has to be the derived one and unoccupied; then the payment
/// of the entry fee into the vault.
pub open spec fn judge_submission(
    accounts: SubmitPredictionView,
    findings: SubmissionFindings,
    guess: u64,
    now: i64,
) -> Result<(), InstructionError> {
    match accounts.competition.record {
        None => Err(InstructionError::AccountNotInitialized),
        Some(competition) => if !competition.accepts_predictions(now) {
            Err(InstructionError::Program(ErrorCode::CompetitionClosed))
        } else {
            match prediction_guess_check(guess) {
                Err(reason) => Err(InstructionError::Program(reason)),
                Ok(()) => if !findings.prediction_address {
                    Err(InstructionError::SeedsMismatch)
                } else if accounts.prediction.record is Some {
                    Err(InstructionError::AccountInUse)
                } else {
                    judge_deposit(
                        accounts.vault,
                        findings.vault_authority,
                        accounts.user,
                        competition.entry_fee,
                    )
                },
            }
        },
    }
}

/// What is to be established about a submission. Without a competition
/// record there is no identifier to derive the vault from, and nothing is
/// established.
pub open spec fn submission_findings(
    program_id: Pubkey,
    accounts: SubmitPredictionView,
) -> SubmissionFindings {
    match accounts.competition.record {
        None => SubmissionFindings { prediction_address: false, vault_authority: None },
        Some(competition) => SubmissionFindings {
            prediction_address: is_derived(
                prediction_seeds(accounts.competition.key, accounts.user),
                program_id,
                accounts.prediction.key,
            ),
            vault_authority: authority(vault_seeds(competition.id), program_id, accounts.vault.key),
        },
    }
}

/// Whether a prediction can be submitted at time `now`, and if not, why.
pub open spec fn submit_prediction_check(
    program_id: Pubkey,
    accounts: SubmitPredictionView,
    guess: u64,
    now: i64,
) -> Result<(), InstructionError> {
    judge_submission(accounts, submission_findings(program_id, accounts), guess, now)
}

/// The accounts after a prediction was submitted on them at time `now`.
pub open spec fn submit_prediction_effect(
    accounts: SubmitPredictionView,
    guess: u64,
    bump: u8,
    now: i64,
) -> SubmitPredictionView
    recommends
        accounts.competition.record is Some,
{
    SubmitPredictionView {
        competition: accounts.competition,
        prediction: PredictionAccount {
            key: accounts.prediction.key,
            record: Some(new_prediction(accounts.competition.key, accounts.user, guess, now, bump)),
        },
        vault: accounts.vault.credited(accounts.competition.record->0.entry_fee),
        user: accounts.user,
    }
}

/// The accounts after an attempt to submit a prediction on them: changed where
/// the attempt succeeds, untouched where it fails.
pub open spec fn submit_prediction_step(
    program_id: Pubkey,
    accounts: SubmitPredictionView,
    guess: u64,
    bump: u8,
    now: i64,
) -> SubmitPredictionView {
    if submit_prediction_check(program_id, accounts, guess, now) is Ok {
        submit_prediction_effect(accounts, guess, bump, now)
    } else {
        accounts
    }
}

/// Decides on a submission at time `now` and carries it out, given what was
/// established about it.
///
/// On success the prediction is recorded with `now` as its time, the vault
/// holds the entry fee more than before, and the transfer of the entry fee
/// from the participant to the vault is returned. On failure the accounts are
/// as they were.
pub fn apply_submission(
    ctx: &mut SubmitPrediction,
    findings: &SubmissionFindings,
    guess: u64,
    bump: u8,
    now: i64,
) -> (done: Result<Transfer, InstructionError>)
    ensures
        match judge_submission(old(ctx)@, *findings, guess, now) {
            Ok(()) => {
                &&& done matches Ok(transfer)
                &&& transfer@ == inbound_transfer(
                    old(ctx).user,
                    old(ctx).vault.key,
                    old(ctx)@.competition.record->0.entry_fee,
                )
                &&& final(ctx)@ == submit_prediction_effect(old(ctx)@, guess, bump, now)
            },
            Err(reason) => {
                &&& done matches Err(error)
                &&& error == reason
                &&& *final(ctx) == *old(ctx)
            },
        },
{
    let user = ctx.user;
    let transfer = match &ctx.competition.record {
        None => { return Err(InstructionError::AccountNotInitialized); },
        Some(competition) => {
            if !competition.accepts_predictions(now) {
                return Err(InstructionError::Program(ErrorCode::CompetitionClosed));
            }
            match validate_prediction_guess(guess) {
                Err(reason) => { return Err(InstructionError::Program(reason)); },
                Ok(()) => {},
            }
            if !findings.prediction_address {
                return Err(InstructionError::SeedsMismatch);
            }
            if ctx.prediction.record.is_some() {
                return Err(InstructionError::AccountInUse);
            }
            match deposit_authorized(
                &mut ctx.vault,
                findings.vault_authority,
                &user,
                competition.entry_fee,
            ) {
                Ok(transfer) => transfer,
                Err(reason) => { return Err(reason); },
            }
        },
    };
    ctx.prediction.record = Some(
        Prediction { competition: ctx.competition.key, user, guess, timestamp: now, bump },
    );
    Ok(transfer)
}

/// Submits a prediction at time `now`.
///
/// The addresses of the prediction account and of the vault are recomputed;
/// what follows is `apply_submission`. On success the prediction is recorded
/// with `now` as its time, the vault holds the entry fee more than before,
/// and the transfer of the entry fee from the participant to the vault is
/// returned. On failure the accounts are as they were.
pub fn submit_prediction(
    program_id: &Pubkey,
    ctx: &mut SubmitPrediction,
    guess: u64,
    bump: u8,
    now: i64,
) -> (done: Result<Transfer, InstructionError>)
    ensures
        match submit_prediction_check(*program_id, old(ctx)@, guess, now) {
            Ok(()) => {
                &&& done matches Ok(transfer)
                &&& transfer@ == inbound_transfer(
                    old(ctx).user,
                    old(ctx).vault.key,
                    old(ctx)@.competition.record->0.entry_fee,
                )
            },
            Err(reason) => {
                &&& done matches Err(error)
                &&& error == reason
                &&& *final(ctx) == *old(ctx)
            },
        },
        final(ctx)@ == submit_prediction_step(*program_id, old(ctx)@, guess, bump, now),
{
    let findings = match &ctx.competition.record {
        None => SubmissionFindings { prediction_address: false, vault_authority: None },
        Some(competition) => SubmissionFindings {
            prediction_address: is_prediction_address(
                program_id,
                &ctx.prediction.key,
                &ctx.competition.key,
                &ctx.user,
            ),
            vault_authority: vault_authority(program_id, &ctx.vault.key, competition.id.as_str()),
        },
    };
    apply_submission(ctx, &findings, guess, bump, now)
}

/// Whether a competition can be resolved in favour of `winner` with a payout
/// of `payout`, and if not, why. `vault_authority` is the vault's bump where
/// the vault account is the one derived for the competition. A competition
/// that is not active is refused first, whoever asks; then a signer who is
/// not the recorded creator; then the winner and the payout are checked
/// against the vault's balance; then the vault's authority and, once more,
/// its balance.
pub open spec fn judge_resolution(
    accounts: ResolveCompetitionView,
    vault_authority: Option<u8>,
    winner: Pubkey,
    payout: u64,
) -> Result<(), InstructionError> {
    match accounts.competition.record {
        None => Err(InstructionError::AccountNotInitialized),
        Some(competition) => if competition.state != CompetitionState::Active {
            Err(InstructionError::Program(ErrorCode::AlreadyResolved))
        } else if accounts.creator != competition.creator {
            Err(InstructionError::Program(ErrorCode::UnauthorizedAccess))
        } else {
            match resolve_params_check(winner, payout, accounts.vault.lamports) {
                Err(reason) => Err(InstructionError::Program(reason)),
                Ok(()) => judge_pay_out(accounts.vault, vault_authority, payout),
            }
        },
    }
}

/// The authority that is to be established for the vault of a resolution.
/// Without a competition record there is no identifier to derive it from.
pub open spec fn resolution_authority(
    program_id: Pubkey,
    accounts: ResolveCompetitionView,
) -> Option<u8> {
    match accounts.competition.record {
        None => None,
        Some(competition) => authority(vault_seeds(competition.id), program_id, accounts.vault.key),
    }
}

/// Whether a competition can be resolved in favour of `winner` with a payout
/// of `payout`, and if not, why.
pub open spec fn resolve_competition_check(
    program_id: Pubkey,
    accounts: ResolveCompetitionView,
    winner: Pubkey,
    payout: u64,
) -> Result<(), InstructionError> {
    judge_resolution(accounts, resolution_authority(program_id, accounts), winner, payout)
}

/// The accounts after the competition on them was resolved.
pub open spec fn resolve_competition_effect(
    accounts: ResolveCompetitionView,
    winner: Pubkey,
    payout: u64,
) -> ResolveCompetitionView
    recommends
        accounts.competition.record is Some,
{
    ResolveCompetitionView {
        competition: CompetitionAccountView {
            key: accounts.competition.key,
            record: Some(accounts.competition.record->0.resolved(winner)),
        },
        vault: accounts.vault.debited(winner, payout),
        creator: accounts.creator,
    }
}

/// The accounts after an attempt to resolve the competition on them: changed
/// where the attempt succeeds, untouched where it fails.
pub open spec fn resolve_competition_step(
    program_id: Pubkey,
    accounts: ResolveCompetitionView,
    winner: Pubkey,
    payout: u64,
) -> ResolveCompetitionView {
    if resolve_competition_check(program_id, accounts, winner, payout) is Ok {
        resolve_competition_effect(accounts, winner, payout)
    } else {
        accounts
    }
}

/// Decides on a resolution and carries it out, given the authority that was
/// established for the vault.
///
/// On success the record names `winner` and is resolved, the vault holds
/// `payout` less than before, and the transfer of the payout from the vault
/// to the winner, signed with the vault's seeds, is returned. On failure the
/// accounts are as they were.
pub fn apply_resolution(
    ctx: &mut ResolveCompetition,
    vault_authority: Option<u8>,
    winner: Pubkey,
    payout: u64,
) -> (done: Result<Transfer, InstructionError>)
    ensures
        match judge_resolution(old(ctx)@, vault_authority, winner, payout) {
            Ok(()) => {
                &&& done matches Ok(transfer)
                &&& transfer@ == outbound_transfer(
                    old(ctx).vault.key,
                    winner,
                    payout,
                    old(ctx)@.competition.record->0.id,
                    vault_authority->0,
                )
                &&& final(ctx)@ == resolve_competition_effect(old(ctx)@, winner, payout)
            },
            Err(reason) => {
                &&& done matches Err(error)
                &&& error == reason
                &&& *final(ctx) == *old(ctx)
            },
        },
{
    let creator = ctx.creator;
    let transfer = match &ctx.competition.record {
        None => { return Err(InstructionError::AccountNotInitialized); },
        Some(competition) => {
            if !competition.is_active() {
                return Err(InstructionError::Program(ErrorCode::AlreadyResolved));
            }
            if !(creator == competition.creator) {
                return Err(InstructionError::Program(ErrorCode::UnauthorizedAccess));
            }
            match validate_resolve_params(winner, payout, ctx.vault.lamports) {
                Err(reason) => { return Err(InstructionError::Program(reason)); },
                Ok(()) => {},
            }
            match pay_out_authorized(
                &mut ctx.vault,
                vault_authority,
                competition.id.as_str(),
                &winner,
                payout,
            ) {
                Ok(transfer) => transfer,
                Err(reason) => { return Err(reason); },
            }
        },
    };
    match &mut ctx.competition.record {
        Some(competition) => {
            competition.winner = winner;
            competition.state = CompetitionState::Resolved;
        },
        None => {},
    }
    Ok(transfer)
}

/// Resolves a competition: records the winner, closes the competition for
/// good and pays the winner out of the vault.
///
/// The vault's authority is recomputed from the recorded identifier; what
/// follows is `apply_resolution`. On success the record names `winner` and is
/// resolved, the vault holds `payout` less than before, and the transfer of
/// the payout from the vault to the winner, signed with the vault's seeds, is
/// returned. On failure the accounts are as they were.
pub fn resolve_competition(
    program_id: &Pubkey,
    ctx: &mut ResolveCompetition,
    winner: Pubkey,
    payout: u64,
) -> (done: Result<Transfer, InstructionError>)
    ensures
        match resolve_competition_check(*program_id, old(ctx)@, winner, payout) {
            Ok(()) => {
                &&& done matches Ok(transfer)
                &&& transfer@ == outbound_transfer(
                    old(ctx).vault.key,
                    winner,
                    payout,
                    old(ctx)@.competition.record->0.id,
                    resolution_authority(*program_id, old(ctx)@)->0,
                )
            },
            Err(reason) => {
                &&& done matches Err(error)
                &&& error == reason
                &&& *final(ctx) == *old(ctx)
            },
        },
        final(ctx)@ == resolve_competition_step(*program_id, old(ctx)@, winner, payout),
{
    let authority = match &ctx.competition.record {
        None => None,
        Some(competition) => vault_authority(program_id, &ctx.vault.key, competition.id.as_str()),
    };
    apply_resolution(ctx, authority, winner, payout)
}

} // verus!
