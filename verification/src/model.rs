//! The match as a mathematical state machine: what a match is, which
//! matches are well formed, and what each operation makes of a match.

use crate::board::valid_coordinate;
use crate::player::PlayerModel;
use crate::types::{GameError, GamePhase, HubCallView, PendingShotView, ResolutionView};
use vstd::prelude::*;

verus! {

/// A match as mathematical values.
pub struct GameModel {
    /// Where the session registry is found.
    pub hub_address: Seq<char>,
    /// The registry's number for this match.
    pub session_id: u32,
    /// Where the match stands.
    pub phase: GamePhase,
    /// The player who fires first.
    pub player1: Seq<char>,
    /// The other player.
    pub player2: Seq<char>,
    /// The record kept under the first player's identity.
    pub state1: PlayerModel,
    /// The record kept under the second player's identity.
    pub state2: PlayerModel,
    /// The shot in flight, if any.
    pub pending_shot: Option<PendingShotView>,
    /// The winner, once declared.
    pub winner: Option<Seq<char>>,
}

/// The phase in which `who` may fire: the first player's turn when `who` is
/// the first player, the second player's turn otherwise.
pub open spec fn turn_of(game: GameModel, who: Seq<char>) -> GamePhase {
    if who == game.player1 {
        GamePhase::Player1Turn
    } else {
        GamePhase::Player2Turn
    }
}

impl GameModel {
    /// The match right after its creation: nothing committed, nothing fired.
    pub open spec fn new_match(
        hub_address: Seq<char>,
        session_id: u32,
        player1: Seq<char>,
        player2: Seq<char>,
    ) -> GameModel {
        GameModel {
            hub_address,
            session_id,
            phase: GamePhase::WaitingForCommits,
            player1,
            player2,
            state1: PlayerModel::empty(),
            state2: PlayerModel::empty(),
            pending_shot: None,
            winner: None,
        }
    }

    /// The registry call that announces the match: both players, no stakes.
    pub open spec fn registration(self) -> HubCallView {
        HubCallView::StartGame {
            session_id: self.session_id,
            player1: self.player1,
            player2: self.player2,
            player1_points: 0,
            player2_points: 0,
        }
    }

    /// Whether `who` is one of the two players.
    pub open spec fn is_player(self, who: Seq<char>) -> bool {
        who == self.player1 || who == self.player2
    }

    /// The record kept under the identity `who`, which is one of the players.
    /// Records are kept by identity: where both players are the same actor,
    /// they share the second record.
    pub open spec fn record_of(self, who: Seq<char>) -> PlayerModel {
        if who == self.player2 {
            self.state2
        } else {
            self.state1
        }
    }

    /// The match with `rec` kept under the identity `who`.
    pub open spec fn with_record(self, who: Seq<char>, rec: PlayerModel) -> GameModel {
        if who == self.player2 {
            GameModel { state2: rec, ..self }
        } else {
            GameModel { state1: rec, ..self }
        }
    }

    /// The player that `who` plays against.
    pub open spec fn opponent(self, who: Seq<char>) -> Seq<char> {
        if who == self.player1 {
            self.player2
        } else {
            self.player1
        }
    }

    /// Whether both players have committed a fleet.
    pub open spec fn both_committed(self) -> bool {
        self.record_of(self.player1).committed && self.record_of(self.player2).committed
    }

    /// Whether `shot` can be the shot in flight of this match: it targets a
    /// cell of the board that has not been targeted before, and one player
    /// fired it at the other.
    pub open spec fn admits_pending(self, shot: PendingShotView) -> bool {
        &&& valid_coordinate(shot.x, shot.y)
        &&& (shot.attacker == self.player1 && shot.defender == self.player2) || (shot.attacker
            == self.player2 && shot.defender == self.player1)
        &&& !self.record_of(shot.defender).is_shot(shot.x, shot.y)
    }

    /// The invariant of a match. Both records are well formed; while the
    /// match waits for commitments one is missing, and shots are fired and
    /// answered only after both; a shot is in
    /// flight exactly while the match waits for a proof; a winner is recorded
    /// exactly when the match is finished, and is one of the players.
    pub open spec fn wf(self) -> bool {
        &&& self.state1.wf()
        &&& self.state2.wf()
        &&& (self.phase == GamePhase::WaitingForCommits ==> !self.both_committed())
        &&& (self.phase == GamePhase::Player1Turn || self.phase == GamePhase::Player2Turn
            || self.phase == GamePhase::WaitingForProof ==> self.both_committed())
        &&& (self.pending_shot is Some <==> self.phase == GamePhase::WaitingForProof)
        &&& (self.pending_shot matches Some(shot) ==> self.admits_pending(shot))
        &&& (self.winner is Some <==> self.phase == GamePhase::Finished)
        &&& (self.winner matches Some(w) ==> self.is_player(w))
    }

    /// Whether nobody has lost a whole fleet while the match is not finished.
    /// Turns that begin with a match in this state leave it so: the hit that
    /// sinks a fleet finishes the match.
    pub open spec fn fleets_afloat(self) -> bool {
        self.phase != GamePhase::Finished ==> self.state1.hits_received < 17
            && self.state2.hits_received < 17
    }

    /// Whether the match is well formed and can be played on by firing and
    /// answering shots.
    pub open spec fn playable(self) -> bool {
        self.wf() && self.fleets_afloat()
    }

    /// What creating a match makes of a match that exists: nothing, and the
    /// refusal `InvalidPhase`, since a match is created once.
    pub open spec fn initialize_again(self) -> (GameModel, Result<HubCallView, GameError>) {
        (self, Err(GameError::InvalidPhase))
    }

    /// What committing a fleet makes of the match, and what it answers.
    pub open spec fn commit_fleet(self, player: Seq<char>, digest: Seq<u8>) -> (
        GameModel,
        Result<(), GameError>,
    ) {
        if self.phase != GamePhase::WaitingForCommits {
            (self, Err(GameError::InvalidPhase))
        } else if !self.is_player(player) {
            (self, Err(GameError::NotAPlayer))
        } else {
            match self.record_of(player).commit(digest) {
                Err(e) => (self, Err(e)),
                Ok(rec) => {
                    let kept = self.with_record(player, rec);
                    let both = kept.record_of(kept.player1).committed && kept.record_of(
                        kept.player2,
                    ).committed;
                    (
                        GameModel {
                            phase: if both {
                                GamePhase::Player1Turn
                            } else {
                                GamePhase::WaitingForCommits
                            },
                            ..kept
                        },
                        Ok(()),
                    )
                },
            }
        }
    }

    /// What firing a shot makes of the match, and what it answers.
    pub open spec fn fire_shot(self, attacker: Seq<char>, x: u32, y: u32) -> (
        GameModel,
        Result<(), GameError>,
    ) {
        if self.phase != GamePhase::Player1Turn && self.phase != GamePhase::Player2Turn {
            (self, Err(GameError::InvalidPhase))
        } else if self.phase == GamePhase::Player1Turn && attacker != self.player1 {
            (self, Err(GameError::NotYourTurn))
        } else if self.phase == GamePhase::Player2Turn && attacker != self.player2 {
            (self, Err(GameError::NotYourTurn))
        } else if !valid_coordinate(x, y) {
            (self, Err(GameError::OutOfBounds))
        } else if self.record_of(self.opponent(attacker)).is_shot(x, y) {
            (self, Err(GameError::AlreadyShot))
        } else {
            (
                GameModel {
                    phase: GamePhase::WaitingForProof,
                    pending_shot: Some(
                        PendingShotView { attacker, defender: self.opponent(attacker), x, y },
                    ),
                    ..self
                },
                Ok(()),
            )
        }
    }

    /// What declaring `winner` makes of the match, and the registry call
    /// that closes the session. A shot still in flight is dropped: the match
    /// no longer waits for its proof.
    pub open spec fn declare_winner(self, winner: Seq<char>) -> (GameModel, HubCallView) {
        (
            GameModel {
                phase: GamePhase::Finished,
                winner: Some(winner),
                pending_shot: None,
                ..self
            },
            HubCallView::EndGame {
                session_id: self.session_id,
                player1_won: winner == self.player1,
            },
        )
    }

    /// Why a response by `defender` is refused before its proof is looked
    /// at, if it is.
    pub open spec fn response_refusal(self, defender: Seq<char>, response: u32) -> Option<
        GameError,
    > {
        if self.phase != GamePhase::WaitingForProof {
            Some(GameError::InvalidPhase)
        } else if self.pending_shot is None {
            Some(GameError::NotInitialized)
        } else if defender != self.pending_shot->Some_0.defender {
            Some(GameError::NotYourTurn)
        } else if response > 1 {
            Some(GameError::InvalidResponse)
        } else {
            None
        }
    }

    /// Whether a response can be recorded without taking the defender's hits
    /// beyond a fleet: where it is not refused and says "hit", the defender
    /// has lost fewer than seventeen cells.
    pub open spec fn response_fits(self, defender: Seq<char>, response: u32) -> bool {
        self.response_refusal(defender, response) is None && response == 1 ==> self.record_of(
            defender,
        ).hits_received < 17
    }

    /// What a response to the shot in flight makes of the match, and what it
    /// answers, given whether its proof was accepted.
    pub open spec fn submit_response(self, defender: Seq<char>, response: u32, proof_ok: bool) -> (
        GameModel,
        Result<ResolutionView, GameError>,
    ) {
        if self.response_refusal(defender, response) is Some {
            (self, Err(self.response_refusal(defender, response)->Some_0))
        } else if !proof_ok {
            (self, Err(GameError::ProofInvalid))
        } else {
            let shot = self.pending_shot->Some_0;
            let is_hit = response == 1;
            match self.record_of(defender).record_shot(shot.x, shot.y, is_hit) {
                Err(e) => (self, Err(e)),
                Ok(rec) => {
                    let resolved = GameModel {
                        pending_shot: None,
                        ..self.with_record(defender, rec)
                    };
                    if rec.hits_received >= 17 {
                        let (over, call) = resolved.declare_winner(shot.attacker);
                        (over, Ok(ResolutionView { is_hit, closing: Some(call) }))
                    } else {
                        (
                            GameModel { phase: turn_of(self, defender), ..resolved },
                            Ok(ResolutionView { is_hit, closing: None }),
                        )
                    }
                },
            }
        }
    }

    /// What a claim of victory makes of the match, and what it answers.
    pub open spec fn claim_victory(self, player: Seq<char>) -> (
        GameModel,
        Result<HubCallView, GameError>,
    ) {
        if !self.is_player(player) {
            (self, Err(GameError::NotAPlayer))
        } else if self.phase == GamePhase::Finished {
            (self, Err(GameError::GameOver))
        } else if self.record_of(self.opponent(player)).hits_received < 17 {
            (self, Err(GameError::InvalidPhase))
        } else {
            let (over, call) = self.declare_winner(player);
            (over, Ok(call))
        }
    }
}

/// A new match is well formed and playable.
pub proof fn new_match_wf(
    hub_address: Seq<char>,
    session_id: u32,
    player1: Seq<char>,
    player2: Seq<char>,
)
    ensures
        GameModel::new_match(hub_address, session_id, player1, player2).playable(),
{
    let h = PlayerModel::empty().shot_history;
    assert(PlayerModel::empty().wf()) by {
        assert(crate::player::hit_count(h) == 0);
    }
}

/// What creating a match makes of what was there before: a new match where
/// there was none, a refusal where there was one.
pub open spec fn initialize(
    before: Option<GameModel>,
    hub_address: Seq<char>,
    session_id: u32,
    player1: Seq<char>,
    player2: Seq<char>,
) -> (Option<GameModel>, Result<HubCallView, GameError>) {
    match before {
        None => {
            let game = GameModel::new_match(hub_address, session_id, player1, player2);
            (Some(game), Ok(game.registration()))
        },
        Some(game) => (Some(game.initialize_again().0), game.initialize_again().1),
    }
}

/// Committing a fleet keeps a match well formed, and playable if it was.
pub proof fn commit_fleet_wf(game: GameModel, player: Seq<char>, digest: Seq<u8>)
    requires
        game.wf(),
    ensures
        game.commit_fleet(player, digest).0.wf(),
        game.fleets_afloat() ==> game.commit_fleet(player, digest).0.fleets_afloat(),
{
}

/// Firing a shot keeps a match well formed, and playable if it was.
pub proof fn fire_shot_wf(game: GameModel, attacker: Seq<char>, x: u32, y: u32)
    requires
        game.wf(),
    ensures
        game.fire_shot(attacker, x, y).0.wf(),
        game.fire_shot(attacker, x, y).0.fleets_afloat() == game.fleets_afloat(),
{
}

/// Answering the shot in flight keeps a match well formed, and playable if
/// it was, as long as a hit does not take the defender beyond a fleet; and an
/// answer with an accepted proof that is not refused beforehand is accepted.
pub proof fn submit_response_wf(game: GameModel, defender: Seq<char>, response: u32, proof_ok: bool)
    requires
        game.wf(),
        game.response_fits(defender, response),
    ensures
        game.submit_response(defender, response, proof_ok).0.wf(),
        game.fleets_afloat() ==> game.submit_response(defender, response, proof_ok).0.fleets_afloat(),
        game.response_refusal(defender, response) is None && proof_ok ==> game.submit_response(
            defender,
            response,
            proof_ok,
        ).1 is Ok,
{
    if game.response_refusal(defender, response) is None && proof_ok {
        let shot = game.pending_shot->Some_0;
        crate::player::record_shot_preserves_wf(
            game.record_of(defender),
            shot.x,
            shot.y,
            response == 1,
        );
    }
}

/// Claiming victory keeps a match well formed, and playable if it was.
pub proof fn claim_victory_wf(game: GameModel, player: Seq<char>)
    requires
        game.wf(),
    ensures
        game.claim_victory(player).0.wf(),
        game.fleets_afloat() ==> game.claim_victory(player).0.fleets_afloat(),
{
}

} // verus!
