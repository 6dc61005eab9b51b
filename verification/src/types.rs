//! Plain data of a match: errors, phases, identities and shots.

use vstd::prelude::*;

verus! {

/// Why an operation on a match was refused.
#[derive(Copy, Clone, Debug, PartialEq, Eq, PartialOrd, Ord, Hash, Structural)]
pub enum GameError {
    /// No match exists, or the record asked for is absent.
    NotInitialized,
    /// The operation is not allowed in the current phase.
    InvalidPhase,
    /// The caller takes no part in this match.
    NotAPlayer,
    /// It is not the caller's turn.
    NotYourTurn,
    /// The player has already committed a fleet.
    AlreadyCommitted,
    /// The coordinates lie outside the board.
    OutOfBounds,
    /// The cell has already been targeted.
    AlreadyShot,
    /// The proof was not accepted.
    ProofInvalid,
    /// The match is already finished.
    GameOver,
    /// The response is neither 0 nor 1.
    InvalidResponse,
}

impl GameError {
    /// The number under which the error is reported to callers.
    pub open spec fn spec_code(self) -> u32 {
        match self {
            GameError::NotInitialized => 1,
            GameError::InvalidPhase => 2,
            GameError::NotAPlayer => 3,
            GameError::NotYourTurn => 4,
            GameError::AlreadyCommitted => 5,
            GameError::OutOfBounds => 6,
            GameError::AlreadyShot => 7,
            GameError::ProofInvalid => 8,
            GameError::GameOver => 9,
            GameError::InvalidResponse => 10,
        }
    }

    /// The number under which the error is reported to callers.
    pub fn code(self) -> (c: u32)
        ensures
            c == self.spec_code(),
            1 <= c <= 10,
    {
        match self {
            GameError::NotInitialized => 1,
            GameError::InvalidPhase => 2,
            GameError::NotAPlayer => 3,
            GameError::NotYourTurn => 4,
            GameError::AlreadyCommitted => 5,
            GameError::OutOfBounds => 6,
            GameError::AlreadyShot => 7,
            GameError::ProofInvalid => 8,
            GameError::GameOver => 9,
            GameError::InvalidResponse => 10,
        }
    }
}

/// Where a match stands.
#[derive(Copy, Clone, Debug, PartialEq, Eq, Structural)]
pub enum GamePhase {
    /// At least one player has yet to commit a fleet.
    WaitingForCommits,
    /// The first player may fire.
    Player1Turn,
    /// The second player may fire.
    Player2Turn,
    /// A shot has been fired and awaits the defender's proven answer.
    WaitingForProof,
    /// A winner has been declared.
    Finished,
}

/// The outcome of one resolved shot.
#[derive(Copy, Clone, Debug, PartialEq, Eq, Structural)]
pub struct ShotRecord {
    pub x: u32,
    pub y: u32,
    pub is_hit: bool,
}

/// Who an actor is: the textual key of an account or contract. Two
/// identities are the same actor exactly when their keys are equal.
#[derive(Debug, PartialEq, Eq)]
pub struct Identity {
    pub strkey: String,
}

impl View for Identity {
    type V = Seq<char>;

    open spec fn view(&self) -> Seq<char> {
        self.strkey@
    }
}

impl Clone for Identity {
    fn clone(&self) -> (r: Self)
        ensures
            r@ == self@,
    {
        Identity { strkey: self.strkey.clone() }
    }
}

impl Identity {
    /// The identity with the given key.
    pub fn new(strkey: String) -> (r: Identity)
        ensures
            r@ == strkey@,
    {
        Identity { strkey }
    }

    /// Decides whether two identities are the same actor.
    pub fn same(&self, other: &Identity) -> (r: bool)
        ensures
            r == (self@ == other@),
    {
        self.strkey == other.strkey
    }
}

/// The shot in flight: fired, but not yet answered with an accepted proof.
#[derive(Clone, Debug, PartialEq, Eq)]
pub struct PendingShot {
    pub attacker: Identity,
    pub defender: Identity,
    pub x: u32,
    pub y: u32,
}

/// What a pending shot is, as mathematical values.
pub struct PendingShotView {
    pub attacker: Seq<char>,
    pub defender: Seq<char>,
    pub x: u32,
    pub y: u32,
}

impl View for PendingShot {
    type V = PendingShotView;

    open spec fn view(&self) -> PendingShotView {
        PendingShotView {
            attacker: self.attacker@,
            defender: self.defender@,
            x: self.x,
            y: self.y,
        }
    }
}

impl PendingShot {
    /// A copy of this shot.
    pub fn duplicate(&self) -> (r: PendingShot)
        ensures
            r@ == self@,
    {
        PendingShot {
            attacker: self.attacker.clone(),
            defender: self.defender.clone(),
            x: self.x,
            y: self.y,
        }
    }
}

/// A call that the caller owes to the session registry once the operation
/// that returned it has succeeded. If the call cannot be delivered, the
/// operation must be treated as not having happened.
#[derive(Clone, Debug, PartialEq, Eq)]
pub enum HubCall {
    /// Register the session with its two participants and their stakes.
    StartGame {
        session_id: u32,
        player1: Identity,
        player2: Identity,
        player1_points: i128,
        player2_points: i128,
    },
    /// Close the session, reporting whether the first player won.
    EndGame { session_id: u32, player1_won: bool },
}

/// What a registry call is, as mathematical values.
pub enum HubCallView {
    StartGame {
        session_id: u32,
        player1: Seq<char>,
        player2: Seq<char>,
        player1_points: i128,
        player2_points: i128,
    },
    EndGame { session_id: u32, player1_won: bool },
}

impl View for HubCall {
    type V = HubCallView;

    open spec fn view(&self) -> HubCallView {
        match self {
            HubCall::StartGame { session_id, player1, player2, player1_points, player2_points } => {
                HubCallView::StartGame {
                    session_id: *session_id,
                    player1: player1@,
                    player2: player2@,
                    player1_points: *player1_points,
                    player2_points: *player2_points,
                }
            },
            HubCall::EndGame { session_id, player1_won } => HubCallView::EndGame {
                session_id: *session_id,
                player1_won: *player1_won,
            },
        }
    }
}

/// What an accepted response did: whether the shot hit, and the registry call
/// owed if it ended the match.
#[derive(Clone, Debug, PartialEq, Eq)]
pub struct Resolution {
    pub is_hit: bool,
    pub closing: Option<HubCall>,
}

/// What a resolution is, as mathematical values.
pub struct ResolutionView {
    pub is_hit: bool,
    pub closing: Option<HubCallView>,
}

impl View for Resolution {
    type V = ResolutionView;

    open spec fn view(&self) -> ResolutionView {
        ResolutionView {
            is_hit: self.is_hit,
            closing: match self.closing {
                Some(call) => Some(call@),
                None => None,
            },
        }
    }
}

} // verus!
