//! What holds of the instructions whatever accounts and arguments they are
//! given. Each law is stated over the same descriptions that the contracts of
//! the instructions use.

use vstd::prelude::*;
use crate::address::{competition_seeds, is_derived, prediction_seeds, vault_seeds};
use crate::error::{ErrorCode, InstructionError};
use crate::instructions::{
    initialize_competition_check,
    initialize_competition_step,
    resolve_competition_check,
    resolve_competition_step,
    submit_prediction_check,
    submit_prediction_step,
    InitializeCompetitionView,
    ResolveCompetitionView,
    SubmitPredictionView,
};
use crate::pubkey::Pubkey;
use crate::state::CompetitionState;
use crate::validation::{
    competition_id_check,
    competition_params_check,
    end_time_check,
    prediction_guess_check,
    prize_pool_check,
    token_name_check,
    MAX_DURATION,
    MAX_ENTRY_FEE,
};

verus! {

/// After a competition was created, its vault holds exactly the prize pool
/// more than before, and the record is active, without a winner, and names
/// the signer as creator.
pub proof fn creation_funds_the_vault(
    program_id: Pubkey,
    accounts: InitializeCompetitionView,
    id: Seq<char>,
    token: Seq<char>,
    end_time: i64,
    entry_fee: u64,
    prize_pool: u64,
    bump: u8,
    now: i64,
)
    requires
        initialize_competition_check(
            program_id,
            accounts,
            id,
            token,
            end_time,
            entry_fee,
            prize_pool,
            now,
        ) is Ok,
    ensures
        ({
            let after = initialize_competition_step(
                program_id,
                accounts,
                id,
                token,
                end_time,
                entry_fee,
                prize_pool,
                bump,
                now,
            );
            &&& after.vault.key == accounts.vault.key
            &&& after.vault.lamports == accounts.vault.lamports + prize_pool
            &&& after.competition.record matches Some(record)
            &&& record.state == CompetitionState::Active
            &&& record.winner == Pubkey::empty()
            &&& record.creator == accounts.creator
            &&& record.well_formed()
        }),
{
}

/// Creation succeeds on every valid set of parameters, provided that the
/// accounts are the ones derived from the identifier, that nothing is recorded
/// yet, that the creator is not the vault and that the vault's balance stays
/// representable.
pub proof fn creation_succeeds_on_valid_parameters(
    program_id: Pubkey,
    accounts: InitializeCompetitionView,
    id: Seq<char>,
    token: Seq<char>,
    end_time: i64,
    entry_fee: u64,
    prize_pool: u64,
    now: i64,
)
    requires
        competition_params_check(id, token, end_time, entry_fee, prize_pool, now) is Ok,
        is_derived(competition_seeds(id), program_id, accounts.competition.key),
        is_derived(vault_seeds(id), program_id, accounts.vault.key),
        accounts.competition.record is None,
        accounts.creator != accounts.vault.key,
        accounts.vault.lamports + prize_pool <= u64::MAX,
    ensures
        initialize_competition_check(
            program_id,
            accounts,
            id,
            token,
            end_time,
            entry_fee,
            prize_pool,
            now,
        ) is Ok,
{
}

/// A record is written once: on an account that already holds a competition,
/// active or resolved, no creation succeeds, whatever its parameters, and the
/// accounts stay as they were.
pub proof fn creation_never_overwrites(
    program_id: Pubkey,
    accounts: InitializeCompetitionView,
    id: Seq<char>,
    token: Seq<char>,
    end_time: i64,
    entry_fee: u64,
    prize_pool: u64,
    bump: u8,
    now: i64,
)
    requires
        accounts.competition.record is Some,
    ensures
        initialize_competition_check(
            program_id,
            accounts,
            id,
            token,
            end_time,
            entry_fee,
            prize_pool,
            now,
        ) is Err,
        initialize_competition_step(
            program_id,
            accounts,
            id,
            token,
            end_time,
            entry_fee,
            prize_pool,
            bump,
            now,
        ) == accounts,
{
}

/// An accepted prediction is recorded for its participant and competition
/// with the time of its submission, and the vault holds exactly the entry fee
/// more than before. A prediction is accepted only while the competition is
/// active and its deadline has not passed, and only with a guess in range.
pub proof fn submission_collects_the_entry_fee(
    program_id: Pubkey,
    accounts: SubmitPredictionView,
    guess: u64,
    bump: u8,
    now: i64,
)
    requires
        submit_prediction_check(program_id, accounts, guess, now) is Ok,
    ensures
        ({
            let after = submit_prediction_step(program_id, accounts, guess, bump, now);
            &&& accounts.competition.record matches Some(competition)
            &&& competition.state == CompetitionState::Active
            &&& now <= competition.end_time
            &&& prediction_guess_check(guess) is Ok
            &&& after.vault.key == accounts.vault.key
            &&& after.vault.lamports == accounts.vault.lamports + competition.entry_fee
            &&& after.prediction.record matches Some(prediction)
            &&& prediction.competition == accounts.competition.key
            &&& prediction.user == accounts.user
            &&& prediction.guess == guess
            &&& prediction.timestamp == now
        }),
{
}

/// Nobody predicts twice in one competition. Once a participant's prediction
/// was accepted, and as long as the record it left stays where it is, every
/// further submission of that participant in that competition fails, whatever
/// the guess, the time and the other accounts.
pub proof fn second_submission_fails(
    program_id: Pubkey,
    accounts: SubmitPredictionView,
    guess: u64,
    bump: u8,
    now: i64,
    later: SubmitPredictionView,
    later_guess: u64,
    later_now: i64,
)
    requires
        submit_prediction_check(program_id, accounts, guess, now) is Ok,
        later.competition.key == accounts.competition.key,
        later.user == accounts.user,
        later.prediction.key == accounts.prediction.key ==> later.prediction.record is Some,
    ensures
        submit_prediction_step(program_id, accounts, guess, bump, now).prediction.record is Some,
        submit_prediction_check(program_id, later, later_guess, later_now) is Err,
{
    let seeds = prediction_seeds(accounts.competition.key, accounts.user);
    if is_derived(seeds, program_id, later.prediction.key) {
        Pubkey::lemma_view_injective(later.prediction.key, accounts.prediction.key);
    }
}

/// A submission after the deadline and a submission after resolution are
/// refused with one and the same error.
pub proof fn expired_and_resolved_fail_alike(
    program_id: Pubkey,
    expired: SubmitPredictionView,
    expired_guess: u64,
    expired_now: i64,
    resolved: SubmitPredictionView,
    resolved_guess: u64,
    resolved_now: i64,
)
    requires
        expired.competition.record matches Some(record) && expired_now > record.end_time,
        resolved.competition.record matches Some(record) && record.state
            == CompetitionState::Resolved,
    ensures
        submit_prediction_check(program_id, expired, expired_guess, expired_now)
            == submit_prediction_check(program_id, resolved, resolved_guess, resolved_now),
        submit_prediction_check(program_id, expired, expired_guess, expired_now) == Err::<
            (),
            InstructionError,
        >(InstructionError::Program(ErrorCode::CompetitionClosed)),
{
}

/// A competition is resolved once. After a resolution, every further attempt
/// on the record it left fails as already resolved, whoever signs and whatever
/// winner, payout and vault are named, and leaves the accounts, winner and
/// state included, as they were.
pub proof fn resolution_happens_once(
    program_id: Pubkey,
    accounts: ResolveCompetitionView,
    winner: Pubkey,
    payout: u64,
    later: ResolveCompetitionView,
    later_winner: Pubkey,
    later_payout: u64,
)
    requires
        resolve_competition_check(program_id, accounts, winner, payout) is Ok,
        later.competition.record == resolve_competition_step(
            program_id,
            accounts,
            winner,
            payout,
        ).competition.record,
    ensures
        resolve_competition_check(program_id, later, later_winner, later_payout) == Err::<
            (),
            InstructionError,
        >(InstructionError::Program(ErrorCode::AlreadyResolved)),
        resolve_competition_step(program_id, later, later_winner, later_payout) == later,
{
}

/// A payout never exceeds what the vault holds: an attempt to pay out more
/// fails and leaves the accounts, the balance included, as they were.
pub proof fn payout_never_exceeds_balance(
    program_id: Pubkey,
    accounts: ResolveCompetitionView,
    winner: Pubkey,
    payout: u64,
)
    requires
        payout > accounts.vault.lamports,
    ensures
        resolve_competition_check(program_id, accounts, winner, payout) is Err,
        resolve_competition_step(program_id, accounts, winner, payout) == accounts,
{
}

/// A resolution pays the winner exactly the payout out of the vault, records
/// the winner and closes the competition; the record stays well formed.
pub proof fn resolution_pays_the_winner(
    program_id: Pubkey,
    accounts: ResolveCompetitionView,
    winner: Pubkey,
    payout: u64,
)
    requires
        resolve_competition_check(program_id, accounts, winner, payout) is Ok,
    ensures
        ({
            let after = resolve_competition_step(program_id, accounts, winner, payout);
            &&& 0 < payout <= accounts.vault.lamports
            &&& winner != accounts.vault.key ==> after.vault.lamports == accounts.vault.lamports
                - payout
            &&& winner == accounts.vault.key ==> after.vault.lamports == accounts.vault.lamports
            &&& after.competition.record matches Some(record)
            &&& record.state == CompetitionState::Resolved
            &&& record.winner == winner
            &&& accounts.competition.record->0.well_formed() ==> record.well_formed()
        }),
{
}

/// `Resolved` is terminal, and the creator is fixed at creation: no
/// submission and no resolution changes the creator of a record, and none
/// makes a resolved record active again or changes its winner.
pub proof fn resolved_is_terminal(
    program_id: Pubkey,
    submission: SubmitPredictionView,
    guess: u64,
    bump: u8,
    now: i64,
    resolution: ResolveCompetitionView,
    winner: Pubkey,
    payout: u64,
)
    ensures
        submit_prediction_step(program_id, submission, guess, bump, now).competition
            == submission.competition,
        ({
            let after = resolve_competition_step(program_id, resolution, winner, payout);
            &&& after.competition.key == resolution.competition.key
            &&& after.competition.record is Some == resolution.competition.record is Some
            &&& resolution.competition.record matches Some(before) ==> {
                &&& after.competition.record->0.creator == before.creator
                &&& before.state == CompetitionState::Resolved ==> after.competition.record
                    == resolution.competition.record
            }
        }),
{
}

/// An entry fee equal to the prize pool is accepted, as long as it is within
/// the cap on entry fees; one minor unit more than the prize pool is refused.
pub proof fn entry_fee_boundary(
    id: Seq<char>,
    token: Seq<char>,
    end_time: i64,
    prize_pool: u64,
    now: i64,
)
    requires
        competition_id_check(id) is Ok,
        token_name_check(token) is Ok,
        end_time_check(end_time, now) is Ok,
        prize_pool_check(prize_pool) is Ok,
    ensures
        prize_pool <= MAX_ENTRY_FEE ==> competition_params_check(
            id,
            token,
            end_time,
            prize_pool,
            prize_pool,
            now,
        ) is Ok,
        competition_params_check(id, token, end_time, (prize_pool + 1) as u64, prize_pool, now)
            == Err::<(), ErrorCode>(ErrorCode::InvalidEntryFee),
{
}

/// A deadline has to lie strictly after the present and at most thirty days
/// ahead: the present itself is refused, thirty days ahead is accepted, one
/// second more is refused.
pub proof fn end_time_boundary(now: i64)
    ensures
        end_time_check(now, now) == Err::<(), ErrorCode>(ErrorCode::EndTimeInPast),
        now + MAX_DURATION <= i64::MAX ==> end_time_check((now + MAX_DURATION) as i64, now) is Ok,
        now + MAX_DURATION + 1 <= i64::MAX ==> end_time_check(
            (now + MAX_DURATION + 1) as i64,
            now,
        ) == Err::<(), ErrorCode>(ErrorCode::EndTimeTooFar),
{
}

} // verus!
