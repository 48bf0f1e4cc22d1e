//! The records of the competition and the accounts that hold them.

use vstd::prelude::*;
use crate::pubkey::Pubkey;
use crate::validation::{competition_id_check, entry_fee_check, prize_pool_check, token_name_check};

verus! {

/// Where a competition stands in its life: it starts `Active`, and once
/// `Resolved` it never changes again.
#[derive(Clone, Copy, Debug, PartialEq, Eq, Structural)]
pub enum CompetitionState {
    Active,
    Resolved,
}

/// A competition, as recorded at its storage address.
#[derive(Clone, Debug, PartialEq, Eq)]
pub struct Competition {
    /// Unique identifier.
    pub id: String,
    /// The party that funded the prize pool and may resolve the competition.
    pub creator: Pubkey,
    /// Label of the asset whose price is guessed.
    pub token: String,
    /// Time after which no prediction is accepted.
    pub end_time: i64,
    /// What each participant pays into the vault.
    pub entry_fee: u64,
    /// What the creator paid into the vault.
    pub prize_pool: u64,
    pub state: CompetitionState,
    /// The winner; the empty identity while the competition is active.
    pub winner: Pubkey,
    /// Bump given by the creator.
    pub bump: u8,
}

/// What a competition record says.
pub ghost struct CompetitionView {
    pub id: Seq<char>,
    pub creator: Pubkey,
    pub token: Seq<char>,
    pub end_time: i64,
    pub entry_fee: u64,
    pub prize_pool: u64,
    pub state: CompetitionState,
    pub winner: Pubkey,
    pub bump: u8,
}

impl View for Competition {
    type V = CompetitionView;

    open spec fn view(&self) -> CompetitionView {
        CompetitionView {
            id: self.id@,
            creator: self.creator,
            token: self.token@,
            end_time: self.end_time,
            entry_fee: self.entry_fee,
            prize_pool: self.prize_pool,
            state: self.state,
            winner: self.winner,
            bump: self.bump,
        }
    }
}

impl CompetitionView {
    /// What every record written by the instructions satisfies: identifier,
    /// token name, prize pool and entry fee are within their bounds, and a
    /// winner is recorded exactly when the competition is resolved.
    pub open spec fn well_formed(self) -> bool {
        &&& competition_id_check(self.id) is Ok
        &&& token_name_check(self.token) is Ok
        &&& prize_pool_check(self.prize_pool) is Ok
        &&& entry_fee_check(self.entry_fee, self.prize_pool) is Ok
        &&& (self.state == CompetitionState::Active <==> self.winner == Pubkey::empty())
    }

    /// Whether a prediction made at time `now` is still accepted.
    pub open spec fn accepts_predictions(self, now: i64) -> bool {
        self.state == CompetitionState::Active && now <= self.end_time
    }

    /// The record after resolution in favour of `winner`.
    pub open spec fn resolved(self, winner: Pubkey) -> CompetitionView {
        CompetitionView { state: CompetitionState::Resolved, winner, ..self }
    }
}

impl Competition {
    /// Whether a prediction made at time `now` is still accepted: the
    /// competition is active and its deadline has not passed.
    pub fn accepts_predictions(&self, now: i64) -> (accepted: bool)
        ensures
            accepted == self@.accepts_predictions(now),
    {
        match self.state {
            CompetitionState::Active => now <= self.end_time,
            CompetitionState::Resolved => false,
        }
    }

    /// Whether the competition is still active.
    pub fn is_active(&self) -> (active: bool)
        ensures
            active == (self.state == CompetitionState::Active),
    {
        match self.state {
            CompetitionState::Active => true,
            CompetitionState::Resolved => false,
        }
    }
}

/// A participant's guess, as recorded at its storage address.
#[derive(Clone, Copy, Debug, PartialEq, Eq)]
pub struct Prediction {
    /// Storage address of the competition.
    pub competition: Pubkey,
    /// The participant.
    pub user: Pubkey,
    /// The guessed price, in minor units.
    pub guess: u64,
    /// When the prediction was recorded.
    pub timestamp: i64,
    /// Bump given by the participant.
    pub bump: u8,
}

/// The storage address of a competition and what is recorded there, if
/// anything.
#[derive(Clone, Debug, PartialEq, Eq)]
pub struct CompetitionAccount {
    pub key: Pubkey,
    pub record: Option<Competition>,
}

/// What a competition account holds.
pub ghost struct CompetitionAccountView {
    pub key: Pubkey,
    pub record: Option<CompetitionView>,
}

impl View for CompetitionAccount {
    type V = CompetitionAccountView;

    open spec fn view(&self) -> CompetitionAccountView {
        CompetitionAccountView {
            key: self.key,
            record: match self.record {
                Some(competition) => Some(competition@),
                None => None,
            },
        }
    }
}

/// The storage address of a prediction and what is recorded there, if
/// anything.
#[derive(Clone, Copy, Debug, PartialEq, Eq)]
pub struct PredictionAccount {
    pub key: Pubkey,
    pub record: Option<Prediction>,
}

/// An account that holds nothing but a balance, such as a vault.
#[derive(Clone, Copy, Debug, PartialEq, Eq)]
pub struct SystemAccount {
    pub key: Pubkey,
    /// The balance, in minor units.
    pub lamports: u64,
}

} // verus!
