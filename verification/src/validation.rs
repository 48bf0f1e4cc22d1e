//! Checks on proposed parameters. They read nothing but their arguments and
//! change nothing; where several rules are broken, the first one in the stated
//! order is reported.

use vstd::prelude::*;
use vstd::string::StrSliceExecFns;
use crate::error::ErrorCode;
use crate::pubkey::Pubkey;

verus! {

/// Longest accepted competition identifier, in characters.
pub const MAX_COMPETITION_ID_LEN: usize = 50;

/// Longest accepted token name, in characters.
pub const MAX_TOKEN_NAME_LEN: usize = 20;

/// Longest accepted time between creation and deadline: thirty days, in seconds.
pub const MAX_DURATION: i64 = 2_592_000;

/// Largest accepted prize pool: a thousand units, in minor units.
pub const MAX_PRIZE_POOL: u64 = 1_000_000_000_000;

/// Largest accepted entry fee: ten units, in minor units.
pub const MAX_ENTRY_FEE: u64 = 10_000_000_000;

/// Smallest accepted guess: one unit, in minor units.
pub const MIN_GUESS: u64 = 1_000_000_000;

/// Largest accepted guess: ten thousand units, in minor units.
pub const MAX_GUESS: u64 = 10_000_000_000_000;

/// Largest accepted payout: a thousand units, in minor units.
pub const MAX_PAYOUT: u64 = 1_000_000_000_000;

/// Whether `c` is a letter or a digit, as `char::is_alphanumeric` decides it.
pub uninterp spec fn is_alphanumeric(c: char) -> bool;

/// Calls `char::is_alphanumeric`. The answer depends on the character alone
/// and is taken on trust under the name `is_alphanumeric`.
#[verifier::external_body]
fn char_is_alphanumeric(c: char) -> (yes: bool)
    ensures
        yes == is_alphanumeric(c),
{
    c.is_alphanumeric()
}

/// Characters of a competition identifier: letters, digits, `_` and `-`.
pub open spec fn is_id_char(c: char) -> bool {
    is_alphanumeric(c) || c == '_' || c == '-'
}

/// Characters of a token name: letters, digits and the space.
pub open spec fn is_token_char(c: char) -> bool {
    is_alphanumeric(c) || c == ' '
}

/// Whether every character of `s` may stand in a competition identifier.
pub open spec fn all_id_chars(s: Seq<char>) -> bool {
    forall|i: int| 0 <= i < s.len() ==> is_id_char(#[trigger] s[i])
}

/// Whether every character of `s` may stand in a token name.
pub open spec fn all_token_chars(s: Seq<char>) -> bool {
    forall|i: int| 0 <= i < s.len() ==> is_token_char(#[trigger] s[i])
}

/// The verdict on a competition identifier of `length` characters, all of
/// them of the identifier's kind or not.
pub open spec fn judge_competition_id(length: nat, well_formed: bool) -> Result<(), ErrorCode> {
    if length == 0 {
        Err(ErrorCode::EmptyCompetitionId)
    } else if length > MAX_COMPETITION_ID_LEN {
        Err(ErrorCode::CompetitionIdTooLong)
    } else if !well_formed {
        Err(ErrorCode::InvalidCompetitionIdFormat)
    } else {
        Ok(())
    }
}

/// The verdict on a token name of `length` characters, all of them of the
/// name's kind or not.
pub open spec fn judge_token_name(length: nat, well_formed: bool) -> Result<(), ErrorCode> {
    if length == 0 {
        Err(ErrorCode::EmptyTokenName)
    } else if length > MAX_TOKEN_NAME_LEN {
        Err(ErrorCode::TokenNameTooLong)
    } else if !well_formed {
        Err(ErrorCode::InvalidTokenNameFormat)
    } else {
        Ok(())
    }
}

/// The verdict on a competition identifier.
pub open spec fn competition_id_check(id: Seq<char>) -> Result<(), ErrorCode> {
    judge_competition_id(id.len(), all_id_chars(id))
}

/// The verdict on a token name.
pub open spec fn token_name_check(token: Seq<char>) -> Result<(), ErrorCode> {
    judge_token_name(token.len(), all_token_chars(token))
}

/// The verdict on a deadline proposed at time `now`.
pub open spec fn end_time_check(end_time: i64, now: i64) -> Result<(), ErrorCode> {
    if end_time <= now {
        Err(ErrorCode::EndTimeInPast)
    } else if end_time > now + MAX_DURATION {
        Err(ErrorCode::EndTimeTooFar)
    } else {
        Ok(())
    }
}

/// The verdict on a prize pool.
pub open spec fn prize_pool_check(prize_pool: u64) -> Result<(), ErrorCode> {
    if prize_pool == 0 {
        Err(ErrorCode::InvalidPrizePool)
    } else if prize_pool > MAX_PRIZE_POOL {
        Err(ErrorCode::PrizePoolTooHigh)
    } else {
        Ok(())
    }
}

/// The verdict on an entry fee, given the prize pool it goes with.
pub open spec fn entry_fee_check(entry_fee: u64, prize_pool: u64) -> Result<(), ErrorCode> {
    if entry_fee > prize_pool {
        Err(ErrorCode::InvalidEntryFee)
    } else if entry_fee > MAX_ENTRY_FEE {
        Err(ErrorCode::EntryFeeTooHigh)
    } else {
        Ok(())
    }
}

/// The verdict on the parameters of a new competition, given the verdicts on
/// its identifier and on its token name: that of the first failing check among
/// identifier, token name, deadline, prize pool and entry fee, in this order.
pub open spec fn judge_competition_params(
    id: Result<(), ErrorCode>,
    token: Result<(), ErrorCode>,
    end_time: i64,
    entry_fee: u64,
    prize_pool: u64,
    now: i64,
) -> Result<(), ErrorCode> {
    if id is Err {
        id
    } else if token is Err {
        token
    } else if end_time_check(end_time, now) is Err {
        end_time_check(end_time, now)
    } else if prize_pool_check(prize_pool) is Err {
        prize_pool_check(prize_pool)
    } else {
        entry_fee_check(entry_fee, prize_pool)
    }
}

/// The verdict on the parameters of a new competition.
pub open spec fn competition_params_check(
    id: Seq<char>,
    token: Seq<char>,
    end_time: i64,
    entry_fee: u64,
    prize_pool: u64,
    now: i64,
) -> Result<(), ErrorCode> {
    judge_competition_params(
        competition_id_check(id),
        token_name_check(token),
        end_time,
        entry_fee,
        prize_pool,
        now,
    )
}

/// The verdict on a guess.
pub open spec fn prediction_guess_check(guess: u64) -> Result<(), ErrorCode> {
    if guess < MIN_GUESS {
        Err(ErrorCode::PredictionTooLow)
    } else if guess > MAX_GUESS {
        Err(ErrorCode::PredictionTooHigh)
    } else {
        Ok(())
    }
}

/// The verdict on a resolution that pays `payout` to `winner` out of a vault
/// holding `vault_balance`.
pub open spec fn resolve_params_check(winner: Pubkey, payout: u64, vault_balance: u64) -> Result<
    (),
    ErrorCode,
> {
    if winner == Pubkey::empty() {
        Err(ErrorCode::InvalidWinner)
    } else if payout == 0 {
        Err(ErrorCode::InvalidPayout)
    } else if payout > vault_balance {
        Err(ErrorCode::InsufficientFunds)
    } else if payout > MAX_PAYOUT {
        Err(ErrorCode::PayoutTooHigh)
    } else {
        Ok(())
    }
}

/// Whether `c` may stand in a competition identifier, given whether it is a
/// letter or a digit.
pub fn allowed_in_competition_id(c: char, alphanumeric: bool) -> (allowed: bool)
    ensures
        allowed == (alphanumeric || c == '_' || c == '-'),
{
    alphanumeric || c == '_' || c == '-'
}

/// Whether `c` may stand in a token name, given whether it is a letter or a
/// digit.
pub fn allowed_in_token_name(c: char, alphanumeric: bool) -> (allowed: bool)
    ensures
        allowed == (alphanumeric || c == ' '),
{
    alphanumeric || c == ' '
}

/// Judges a competition identifier by its length in characters and by
/// whether all its characters are allowed: empty, too long and ill-formed are
/// reported in this order.
pub fn competition_id_verdict(length: usize, well_formed: bool) -> (verdict: Result<(), ErrorCode>)
    ensures
        verdict == judge_competition_id(length as nat, well_formed),
{
    if length == 0 {
        Err(ErrorCode::EmptyCompetitionId)
    } else if length > MAX_COMPETITION_ID_LEN {
        Err(ErrorCode::CompetitionIdTooLong)
    } else if !well_formed {
        Err(ErrorCode::InvalidCompetitionIdFormat)
    } else {
        Ok(())
    }
}

/// Judges a token name by its length in characters and by whether all its
/// characters are allowed: empty, too long and ill-formed are reported in
/// this order.
pub fn token_name_verdict(length: usize, well_formed: bool) -> (verdict: Result<(), ErrorCode>)
    ensures
        verdict == judge_token_name(length as nat, well_formed),
{
    if length == 0 {
        Err(ErrorCode::EmptyTokenName)
    } else if length > MAX_TOKEN_NAME_LEN {
        Err(ErrorCode::TokenNameTooLong)
    } else if !well_formed {
        Err(ErrorCode::InvalidTokenNameFormat)
    } else {
        Ok(())
    }
}

/// Checks a competition identifier: not empty, at most fifty characters, each
/// a letter, a digit, `_` or `-`.
pub fn validate_competition_id(competition_id: &str) -> (verdict: Result<(), ErrorCode>)
    ensures
        verdict == competition_id_check(competition_id@),
{
    let mut well_formed: bool = true;
    for c in it: competition_id.chars()
        invariant
            it.seq() == competition_id@,
            well_formed == all_id_chars(competition_id@.take(it.index())),
    {
        proof {
            let before = competition_id@.take(it.index());
            let after = competition_id@.take(it.index() + 1);
            assert(forall|i: int| 0 <= i < before.len() ==> before[i] == after[i]);
            assert(after[it.index()] == c);
        }
        if !allowed_in_competition_id(c, char_is_alphanumeric(c)) {
            well_formed = false;
        }
    }
    assert(competition_id@.take(competition_id@.len() as int) =~= competition_id@);
    competition_id_verdict(competition_id.unicode_len(), well_formed)
}

/// Checks a token name: not empty, at most twenty characters, each a letter,
/// a digit or a space.
pub fn validate_token_name(token: &str) -> (verdict: Result<(), ErrorCode>)
    ensures
        verdict == token_name_check(token@),
{
    let mut well_formed: bool = true;
    for c in it: token.chars()
        invariant
            it.seq() == token@,
            well_formed == all_token_chars(token@.take(it.index())),
    {
        proof {
            let before = token@.take(it.index());
            let after = token@.take(it.index() + 1);
            assert(forall|i: int| 0 <= i < before.len() ==> before[i] == after[i]);
            assert(after[it.index()] == c);
        }
        if !allowed_in_token_name(c, char_is_alphanumeric(c)) {
            well_formed = false;
        }
    }
    assert(token@.take(token@.len() as int) =~= token@);
    token_name_verdict(token.unicode_len(), well_formed)
}

/// Checks a deadline against the current time: strictly later, and by no more
/// than thirty days.
pub fn validate_end_time(end_time: i64, now: i64) -> (verdict: Result<(), ErrorCode>)
    ensures
        verdict == end_time_check(end_time, now),
{
    if end_time <= now {
        Err(ErrorCode::EndTimeInPast)
    } else if end_time as i128 > now as i128 + MAX_DURATION as i128 {
        Err(ErrorCode::EndTimeTooFar)
    } else {
        Ok(())
    }
}

/// Checks a prize pool: positive and at most a thousand units.
pub fn validate_prize_pool(prize_pool: u64) -> (verdict: Result<(), ErrorCode>)
    ensures
        verdict == prize_pool_check(prize_pool),
{
    if prize_pool == 0 {
        Err(ErrorCode::InvalidPrizePool)
    } else if prize_pool > MAX_PRIZE_POOL {
        Err(ErrorCode::PrizePoolTooHigh)
    } else {
        Ok(())
    }
}

/// Checks an entry fee: at most the prize pool and at most ten units.
pub fn validate_entry_fee(entry_fee: u64, prize_pool: u64) -> (verdict: Result<(), ErrorCode>)
    ensures
        verdict == entry_fee_check(entry_fee, prize_pool),
{
    if entry_fee > prize_pool {
        Err(ErrorCode::InvalidEntryFee)
    } else if entry_fee > MAX_ENTRY_FEE {
        Err(ErrorCode::EntryFeeTooHigh)
    } else {
        Ok(())
    }
}

/// Judges the parameters of a new competition, proposed at time `now`, given
/// the verdicts on its identifier and on its token name. Of several failures
/// the first one is reported, in the order identifier, token name, deadline,
/// prize pool, entry fee.
pub fn competition_params_verdict(
    id: Result<(), ErrorCode>,
    token: Result<(), ErrorCode>,
    end_time: i64,
    entry_fee: u64,
    prize_pool: u64,
    now: i64,
) -> (verdict: Result<(), ErrorCode>)
    ensures
        verdict == judge_competition_params(id, token, end_time, entry_fee, prize_pool, now),
{
    id?;
    token?;
    validate_end_time(end_time, now)?;
    validate_prize_pool(prize_pool)?;
    validate_entry_fee(entry_fee, prize_pool)
}

/// Checks the parameters of a new competition, proposed at time `now`. The
/// checks run in a fixed order and the first failure is the one reported:
/// identifier, token name, deadline, prize pool, entry fee.
pub fn validate_competition_params(
    competition_id: &str,
    token: &str,
    end_time: i64,
    entry_fee: u64,
    prize_pool: u64,
    now: i64,
) -> (verdict: Result<(), ErrorCode>)
    ensures
        verdict == competition_params_check(
            competition_id@,
            token@,
            end_time,
            entry_fee,
            prize_pool,
            now,
        ),
{
    competition_params_verdict(
        validate_competition_id(competition_id),
        validate_token_name(token),
        end_time,
        entry_fee,
        prize_pool,
        now,
    )
}

/// Checks a guess: between one and ten thousand units.
pub fn validate_prediction_guess(guess: u64) -> (verdict: Result<(), ErrorCode>)
    ensures
        verdict == prediction_guess_check(guess),
{
    if guess < MIN_GUESS {
        Err(ErrorCode::PredictionTooLow)
    } else if guess > MAX_GUESS {
        Err(ErrorCode::PredictionTooHigh)
    } else {
        Ok(())
    }
}

/// Checks a resolution: a winner who is somebody, and a payout that is
/// positive, covered by the vault and at most a thousand units.
pub fn validate_resolve_params(winner: Pubkey, payout: u64, vault_balance: u64) -> (verdict:
    Result<(), ErrorCode>)
    ensures
        verdict == resolve_params_check(winner, payout, vault_balance),
{
    if winner == Pubkey::default() {
        Err(ErrorCode::InvalidWinner)
    } else if payout == 0 {
        Err(ErrorCode::InvalidPayout)
    } else if payout > vault_balance {
        Err(ErrorCode::InsufficientFunds)
    } else if payout > MAX_PAYOUT {
        Err(ErrorCode::PayoutTooHigh)
    } else {
        Ok(())
    }
}

} // verus!
