//! A match in play: its state and the operations that advance it.

use crate::board::{in_bounds, FLEET_CELLS};
use crate::host::{digest_bytes, proof_bytes};
use crate::model::{
    claim_victory_wf, commit_fleet_wf, fire_shot_wf, new_match_wf, submit_response_wf, GameModel,
};
use crate::oracle::{proof_accepted, verify_zk_proof};
use crate::player::PlayerState;
use crate::types::{
    GameError, GamePhase, HubCall, HubCallView, Identity, PendingShot, Resolution, ResolutionView,
};
use vstd::prelude::*;

verus! {

/// A match between two players.
#[derive(Debug, PartialEq, Eq)]
pub struct Game {
    /// Where the session registry is found.
    pub hub_address: Identity,
    /// The registry's number for this match.
    pub session_id: u32,
    /// Where the match stands.
    pub phase: GamePhase,
    /// The player who fires first.
    pub player1: Identity,
    /// The other player.
    pub player2: Identity,
    /// The record kept under the first player's identity.
    pub state1: PlayerState,
    /// The record kept under the second player's identity.
    pub state2: PlayerState,
    /// The shot in flight, if any.
    pub pending_shot: Option<PendingShot>,
    /// The winner, once declared.
    pub winner: Option<Identity>,
}

impl View for Game {
    type V = GameModel;

    open spec fn view(&self) -> GameModel {
        GameModel {
            hub_address: self.hub_address@,
            session_id: self.session_id,
            phase: self.phase,
            player1: self.player1@,
            player2: self.player2@,
            state1: self.state1@,
            state2: self.state2@,
            pending_shot: match self.pending_shot {
                Some(shot) => Some(shot@),
                None => None,
            },
            winner: match self.winner {
                Some(w) => Some(w@),
                None => None,
            },
        }
    }
}

/// The answer of an operation that may owe a registry call, as mathematical
/// values.
pub open spec fn hub_call_answer(r: Result<HubCall, GameError>) -> Result<HubCallView, GameError> {
    match r {
        Ok(call) => Ok(call@),
        Err(e) => Err(e),
    }
}

/// The answer to a response, as mathematical values.
pub open spec fn resolution_answer(r: Result<Resolution, GameError>) -> Result<
    ResolutionView,
    GameError,
> {
    match r {
        Ok(res) => Ok(res@),
        Err(e) => Err(e),
    }
}

impl Clone for Game {
    fn clone(&self) -> (r: Self)
        ensures
            r@ == self@,
    {
        Game {
            hub_address: self.hub_address.clone(),
            session_id: self.session_id,
            phase: self.phase,
            player1: self.player1.clone(),
            player2: self.player2.clone(),
            state1: self.state1.clone(),
            state2: self.state2.clone(),
            pending_shot: match &self.pending_shot {
                Some(shot) => Some(shot.duplicate()),
                None => None,
            },
            winner: match &self.winner {
                Some(w) => Some(w.clone()),
                None => None,
            },
        }
    }
}

impl Game {
    /// Whether both records can be read.
    pub open spec fn typed(&self) -> bool {
        self.state1.typed() && self.state2.typed()
    }

    /// The invariant of a match: both records can be read, and what the
    /// match holds is well formed.
    pub open spec fn wf(&self) -> bool {
        self.typed() && self@.wf()
    }

    /// Whether the match is well formed and nobody has lost a whole fleet
    /// while it is not finished, so that it can be played on by firing and
    /// answering shots.
    pub open spec fn playable(&self) -> bool {
        self.wf() && self@.fleets_afloat()
    }

    /// A new match between `player1`, who will fire first, and `player2`:
    /// it waits for both commitments, with two empty records.
    pub fn new(
        env: &soroban_sdk::Env,
        hub_address: Identity,
        session_id: u32,
        player1: Identity,
        player2: Identity,
    ) -> (game: Game)
        ensures
            game@ == GameModel::new_match(hub_address@, session_id, player1@, player2@),
            game.playable(),
    {
        proof {
            new_match_wf(hub_address@, session_id, player1@, player2@);
        }
        Game {
            hub_address,
            session_id,
            phase: GamePhase::WaitingForCommits,
            player1,
            player2,
            state1: PlayerState::create_empty(env),
            state2: PlayerState::create_empty(env),
            pending_shot: None,
            winner: None,
        }
    }

    /// The registry call that announces the match: both players, no stakes.
    pub fn registration(&self) -> (call: HubCall)
        ensures
            call@ == self@.registration(),
    {
        HubCall::StartGame {
            session_id: self.session_id,
            player1: self.player1.clone(),
            player2: self.player2.clone(),
            player1_points: 0,
            player2_points: 0,
        }
    }

    /// Answers `NotAPlayer` unless `who` is one of the two players.
    pub fn require_player(&self, who: &Identity) -> (r: Result<(), GameError>)
        ensures
            r == if self@.is_player(who@) {
                Ok::<(), GameError>(())
            } else {
                Err::<(), GameError>(GameError::NotAPlayer)
            },
    {
        if !who.same(&self.player1) && !who.same(&self.player2) {
            return Err(GameError::NotAPlayer);
        }
        Ok(())
    }

    /// The record kept under the identity `who`.
    pub fn record(&self, who: &Identity) -> (rec: &PlayerState)
        ensures
            rec@ == self@.record_of(who@),
            *rec == self.state1 || *rec == self.state2,
    {
        if who.same(&self.player2) {
            &self.state2
        } else {
            &self.state1
        }
    }

    /// The player that `who` plays against.
    pub fn opponent(&self, who: &Identity) -> (other: &Identity)
        ensures
            other@ == self@.opponent(who@),
    {
        if who.same(&self.player1) {
            &self.player2
        } else {
            &self.player1
        }
    }

    /// Decides whether both records can be read.
    pub fn is_typed(&self) -> (ok: bool)
        ensures
            ok == self.typed(),
    {
        self.state1.is_typed() && self.state2.is_typed()
    }

    /// Decides whether the match is well formed.
    pub fn is_valid(&self) -> (ok: bool)
        ensures
            ok == self.wf(),
    {
        if !self.state1.is_valid() || !self.state2.is_valid() {
            return false;
        }
        let both = self.record(&self.player1).committed && self.record(&self.player2).committed;
        let commits_ok = match self.phase {
            GamePhase::WaitingForCommits => !both,
            GamePhase::Finished => true,
            _ => both,
        };
        if !commits_ok {
            return false;
        }
        let shot_ok = match &self.pending_shot {
            None => self.phase != GamePhase::WaitingForProof,
            Some(shot) => {
                let roles = (shot.attacker.same(&self.player1) && shot.defender.same(
                    &self.player2,
                )) || (shot.attacker.same(&self.player2) && shot.defender.same(&self.player1));
                self.phase == GamePhase::WaitingForProof && in_bounds(shot.x, shot.y) && roles
                    && !self.record(&shot.defender).is_shot(shot.x, shot.y)
            },
        };
        let winner_ok = match &self.winner {
            None => self.phase != GamePhase::Finished,
            Some(w) => self.phase == GamePhase::Finished && self.require_player(w).is_ok(),
        };
        shot_ok && winner_ok
    }

    /// Decides whether the match is well formed and can be played on by
    /// firing and answering shots.
    pub fn is_playable(&self) -> (ok: bool)
        ensures
            ok == self.playable(),
    {
        self.is_valid() && (self.phase == GamePhase::Finished || (self.state1.hits_received
            < FLEET_CELLS && self.state2.hits_received < FLEET_CELLS))
    }

    /// Commits `player`'s fleet. Refused with `InvalidPhase` unless the match
    /// waits for commitments, with `NotAPlayer` unless `player` takes part,
    /// with `AlreadyCommitted` if they committed before. With the second
    /// commitment the first player's turn begins.
    pub fn commit_fleet(&mut self, player: &Identity, commitment_hash: soroban_sdk::BytesN<32>) -> (r:
        Result<(), GameError>)
        requires
            old(self).wf(),
        ensures
            final(self)@ == old(self)@.commit_fleet(player@, digest_bytes(commitment_hash)).0,
            r == old(self)@.commit_fleet(player@, digest_bytes(commitment_hash)).1,
            r is Err ==> *final(self) == *old(self),
            final(self).wf(),
            old(self).playable() ==> final(self).playable(),
    {
        proof {
            commit_fleet_wf(self@, player@, digest_bytes(commitment_hash));
        }
        if self.phase != GamePhase::WaitingForCommits {
            return Err(GameError::InvalidPhase);
        }
        if let Err(e) = self.require_player(player) {
            return Err(e);
        }
        let committed = if player.same(&self.player2) {
            self.state2.commit(commitment_hash)
        } else {
            self.state1.commit(commitment_hash)
        };
        if let Err(e) = committed {
            return Err(e);
        }
        if self.record(&self.player1).committed && self.record(&self.player2).committed {
            self.phase = GamePhase::Player1Turn;
        }
        Ok(())
    }

    /// Fires a shot at the cell `(x, y)` of the opponent's board. Refused
    /// with `InvalidPhase` unless it is a player's turn, with `NotYourTurn`
    /// unless it is `attacker`'s, with `OutOfBounds` unless the cell is on
    /// the board, with `AlreadyShot` if the cell was targeted before. The
    /// shot is then in flight; nothing is recorded until it is answered.
    pub fn fire_shot(&mut self, attacker: &Identity, x: u32, y: u32) -> (r: Result<(), GameError>)
        requires
            old(self).wf(),
        ensures
            final(self)@ == old(self)@.fire_shot(attacker@, x, y).0,
            r == old(self)@.fire_shot(attacker@, x, y).1,
            r is Err ==> *final(self) == *old(self),
            final(self).wf(),
            old(self).playable() ==> final(self).playable(),
    {
        proof {
            fire_shot_wf(self@, attacker@, x, y);
        }
        match self.phase {
            GamePhase::Player1Turn => {
                if !attacker.same(&self.player1) {
                    return Err(GameError::NotYourTurn);
                }
            },
            GamePhase::Player2Turn => {
                if !attacker.same(&self.player2) {
                    return Err(GameError::NotYourTurn);
                }
            },
            _ => {
                return Err(GameError::InvalidPhase);
            },
        }
        if !in_bounds(x, y) {
            return Err(GameError::OutOfBounds);
        }
        let defender = self.opponent(attacker).clone();
        if self.record(&defender).is_shot(x, y) {
            return Err(GameError::AlreadyShot);
        }
        self.pending_shot = Some(PendingShot { attacker: attacker.clone(), defender, x, y });
        self.phase = GamePhase::WaitingForProof;
        Ok(())
    }

    /// Declares `winner`: the match is finished, a shot still in flight is
    /// dropped, and the registry is owed the call that closes the session.
    /// The records stay as they are.
    pub fn declare_winner(&mut self, winner: &Identity) -> (call: HubCall)
        ensures
            final(self)@ == old(self)@.declare_winner(winner@).0,
            call@ == old(self)@.declare_winner(winner@).1,
            final(self).state1 == old(self).state1,
            final(self).state2 == old(self).state2,
    {
        self.phase = GamePhase::Finished;
        self.winner = Some(winner.clone());
        self.pending_shot = None;
        HubCall::EndGame { session_id: self.session_id, player1_won: winner.same(&self.player1) }
    }

    /// Decides whether a response by `defender` can go on to have its proof
    /// looked at. Refused with `InvalidPhase` unless the match waits for a
    /// proof, with `NotInitialized` if no shot is in flight, with
    /// `NotYourTurn` unless `defender` is the one shot at, with
    /// `InvalidResponse` unless `response` is 0 or 1.
    pub fn check_response(&self, defender: &Identity, response: u32) -> (r: Result<(), GameError>)
        ensures
            r == match self@.response_refusal(defender@, response) {
                Some(e) => Err::<(), GameError>(e),
                None => Ok::<(), GameError>(()),
            },
    {
        if self.phase != GamePhase::WaitingForProof {
            return Err(GameError::InvalidPhase);
        }
        match &self.pending_shot {
            None => Err(GameError::NotInitialized),
            Some(shot) => {
                if !defender.same(&shot.defender) {
                    Err(GameError::NotYourTurn)
                } else if response > 1 {
                    Err(GameError::InvalidResponse)
                } else {
                    Ok(())
                }
            },
        }
    }

    /// Decides whether a response can be recorded without taking the
    /// defender's hits beyond a fleet.
    pub fn admits_response(&self, defender: &Identity, response: u32) -> (ok: bool)
        ensures
            ok == self@.response_fits(defender@, response),
    {
        self.check_response(defender, response).is_err() || response != 1 || self.record(
            defender,
        ).hits_received < FLEET_CELLS
    }

    /// Resolves the shot in flight with `defender`'s response, 1 for a hit
    /// and 0 for a miss, given whether the proof that came with it was
    /// accepted. Refused as `check_response` says, and with `ProofInvalid`
    /// if the proof was not accepted; a refusal changes nothing, so the
    /// defender may answer again. Otherwise the outcome is recorded against
    /// the defender and the shot is no longer in flight. If the defender has
    /// then lost a whole fleet the attacker is declared the winner; if not,
    /// it is the defender's turn to fire. A hit must not take the defender
    /// beyond a fleet.
    pub fn resolve_response(&mut self, defender: &Identity, response: u32, proof_ok: bool) -> (r:
        Result<Resolution, GameError>)
        requires
            old(self).wf(),
            old(self)@.response_fits(defender@, response),
        ensures
            final(self)@ == old(self)@.submit_response(defender@, response, proof_ok).0,
            resolution_answer(r) == old(self)@.submit_response(defender@, response, proof_ok).1,
            r is Err ==> *final(self) == *old(self),
            final(self).wf(),
            old(self).playable() ==> final(self).playable(),
    {
        proof {
            submit_response_wf(self@, defender@, response, proof_ok);
        }
        if let Err(e) = self.check_response(defender, response) {
            return Err(e);
        }
        if !proof_ok {
            return Err(GameError::ProofInvalid);
        }
        let shot = match &self.pending_shot {
            Some(shot) => shot.duplicate(),
            None => {
                return Err(GameError::NotInitialized);
            },
        };
        let is_hit = response == 1;
        let recorded = if defender.same(&self.player2) {
            self.state2.record_shot(shot.x, shot.y, is_hit)
        } else {
            self.state1.record_shot(shot.x, shot.y, is_hit)
        };
        if let Err(e) = recorded {
            return Err(e);
        }
        self.pending_shot = None;
        if self.record(defender).hits_received >= FLEET_CELLS {
            let call = self.declare_winner(&shot.attacker);
            Ok(Resolution { is_hit, closing: Some(call) })
        } else {
            self.phase = if defender.same(&self.player1) {
                GamePhase::Player1Turn
            } else {
                GamePhase::Player2Turn
            };
            Ok(Resolution { is_hit, closing: None })
        }
    }

    /// Answers the shot in flight: checks the response, has the proof
    /// verified, and resolves the shot as `resolve_response` says.
    pub fn submit_response(
        &mut self,
        env: &soroban_sdk::Env,
        defender: &Identity,
        response: u32,
        proof: &soroban_sdk::BytesN<256>,
    ) -> (r: Result<Resolution, GameError>)
        requires
            old(self).wf(),
            old(self)@.response_fits(defender@, response),
        ensures
            final(self)@ == old(self)@.submit_response(
                defender@,
                response,
                proof_accepted(proof_bytes(*proof)),
            ).0,
            resolution_answer(r) == old(self)@.submit_response(
                defender@,
                response,
                proof_accepted(proof_bytes(*proof)),
            ).1,
            r is Err ==> *final(self) == *old(self),
            final(self).wf(),
            old(self).playable() ==> final(self).playable(),
    {
        if let Err(e) = self.check_response(defender, response) {
            return Err(e);
        }
        let proof_ok = match &self.pending_shot {
            Some(shot) => verify_zk_proof(env, proof, shot, response),
            None => false,
        };
        self.resolve_response(defender, response, proof_ok)
    }

    /// Claims victory for `player`. Refused with `NotAPlayer` unless
    /// `player` takes part, with `GameOver` if the match is finished, with
    /// `InvalidPhase` while the opponent has not lost a whole fleet.
    /// Otherwise `player` is declared the winner, whatever the phase was.
    pub fn claim_victory(&mut self, player: &Identity) -> (r: Result<HubCall, GameError>)
        requires
            old(self).wf(),
        ensures
            final(self)@ == old(self)@.claim_victory(player@).0,
            hub_call_answer(r) == old(self)@.claim_victory(player@).1,
            r is Err ==> *final(self) == *old(self),
            final(self).state1 == old(self).state1,
            final(self).state2 == old(self).state2,
            final(self).wf(),
            old(self).playable() ==> final(self).playable(),
    {
        proof {
            claim_victory_wf(self@, player@);
        }
        if let Err(e) = self.require_player(player) {
            return Err(e);
        }
        if self.phase == GamePhase::Finished {
            return Err(GameError::GameOver);
        }
        if self.record(self.opponent(player)).hits_received < FLEET_CELLS {
            return Err(GameError::InvalidPhase);
        }
        Ok(self.declare_winner(player))
    }
}

} // verus!
