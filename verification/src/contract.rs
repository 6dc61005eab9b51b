//! The coordinator that external actors call: it holds at most one match
//! and answers `NotInitialized` while it holds none.

use crate::game::{hub_call_answer, resolution_answer, Game};
use crate::host::{digest_bytes, proof_bytes};
use crate::model::{initialize, GameModel};
use crate::oracle::proof_accepted;
use crate::types::{
    GameError, GamePhase, HubCall, Identity, PendingShot, Resolution, ShotRecord,
};
use vstd::prelude::*;

verus! {

/// The coordinator of one match.
#[derive(Debug, PartialEq, Eq)]
pub struct BattleshipContract {
    /// The match, once initialised.
    pub game: Option<Game>,
}

impl View for BattleshipContract {
    type V = Option<GameModel>;

    open spec fn view(&self) -> Option<GameModel> {
        match self.game {
            Some(game) => Some(game@),
            None => None,
        }
    }
}

impl BattleshipContract {
    /// Whether the records of the match it holds, if any, can be read.
    pub open spec fn typed(&self) -> bool {
        self.game matches Some(game) ==> game.typed()
    }

    /// The coordinator's invariant: the match it holds, if any, is well
    /// formed.
    pub open spec fn wf(&self) -> bool {
        self.game matches Some(game) ==> game.wf()
    }

    /// Whether the match it holds, if any, is well formed and can be played
    /// on by firing and answering shots.
    pub open spec fn playable(&self) -> bool {
        self.game matches Some(game) ==> game.playable()
    }

    /// A coordinator that holds no match yet.
    pub fn new() -> (contract: BattleshipContract)
        ensures
            contract@ is None,
            contract.playable(),
    {
        BattleshipContract { game: None }
    }

    /// Decides whether the records of the match can be read.
    pub fn is_typed(&self) -> (ok: bool)
        ensures
            ok == self.typed(),
    {
        match &self.game {
            Some(game) => game.is_typed(),
            None => true,
        }
    }

    /// Decides whether the coordinator is well formed.
    pub fn is_valid(&self) -> (ok: bool)
        ensures
            ok == self.wf(),
    {
        match &self.game {
            Some(game) => game.is_valid(),
            None => true,
        }
    }

    /// Decides whether the coordinator is well formed and its match can be
    /// played on.
    pub fn is_playable(&self) -> (ok: bool)
        ensures
            ok == self.playable(),
    {
        match &self.game {
            Some(game) => game.is_playable(),
            None => true,
        }
    }

    /// Decides whether a match has been initialised.
    pub fn is_initialized(&self) -> (r: bool)
        ensures
            r == (self@ is Some),
    {
        self.game.is_some()
    }

    /// Creates the match between `player1`, who will fire first, and
    /// `player2`, and answers the registry call that announces it. A match is
    /// created once: where one exists the call is refused with
    /// `InvalidPhase` and nothing changes.
    pub fn initialize(
        &mut self,
        env: &soroban_sdk::Env,
        hub_address: Identity,
        session_id: u32,
        player1: Identity,
        player2: Identity,
    ) -> (r: Result<HubCall, GameError>)
        ensures
            final(self)@ == initialize(
                old(self)@,
                hub_address@,
                session_id,
                player1@,
                player2@,
            ).0,
            hub_call_answer(r) == initialize(
                old(self)@,
                hub_address@,
                session_id,
                player1@,
                player2@,
            ).1,
            r is Err ==> *final(self) == *old(self),
            old(self)@ is None ==> final(self).playable(),
    {
        if self.game.is_some() {
            return Err(GameError::InvalidPhase);
        }
        let game = Game::new(env, hub_address, session_id, player1, player2);
        let call = game.registration();
        self.game = Some(game);
        Ok(call)
    }

    /// Commits `player`'s fleet; see `Game::commit_fleet`. Refused with
    /// `NotInitialized` while there is no match.
    pub fn commit_fleet(&mut self, player: &Identity, commitment_hash: soroban_sdk::BytesN<32>) -> (r:
        Result<(), GameError>)
        requires
            old(self).wf(),
        ensures
            match old(self)@ {
                None => r == Err::<(), GameError>(GameError::NotInitialized),
                Some(game) => {
                    &&& final(self)@ == Some(
                        game.commit_fleet(player@, digest_bytes(commitment_hash)).0,
                    )
                    &&& r == game.commit_fleet(player@, digest_bytes(commitment_hash)).1
                },
            },
            r is Err ==> *final(self) == *old(self),
            final(self).wf(),
            old(self).playable() ==> final(self).playable(),
    {
        match &mut self.game {
            None => Err(GameError::NotInitialized),
            Some(game) => game.commit_fleet(player, commitment_hash),
        }
    }

    /// Fires a shot; see `Game::fire_shot`. Refused with `NotInitialized`
    /// while there is no match.
    pub fn fire_shot(&mut self, attacker: &Identity, x: u32, y: u32) -> (r: Result<(), GameError>)
        requires
            old(self).wf(),
        ensures
            match old(self)@ {
                None => r == Err::<(), GameError>(GameError::NotInitialized),
                Some(game) => {
                    &&& final(self)@ == Some(game.fire_shot(attacker@, x, y).0)
                    &&& r == game.fire_shot(attacker@, x, y).1
                },
            },
            r is Err ==> *final(self) == *old(self),
            final(self).wf(),
            old(self).playable() ==> final(self).playable(),
    {
        match &mut self.game {
            None => Err(GameError::NotInitialized),
            Some(game) => game.fire_shot(attacker, x, y),
        }
    }

    /// Answers the shot in flight, having the proof verified; see
    /// `Game::submit_response`. Refused with `NotInitialized` while there is
    /// no match.
    pub fn submit_response(
        &mut self,
        env: &soroban_sdk::Env,
        defender: &Identity,
        response: u32,
        proof: &soroban_sdk::BytesN<256>,
    ) -> (r: Result<Resolution, GameError>)
        requires
            old(self).wf(),
            old(self)@ matches Some(game) ==> game.response_fits(defender@, response),
        ensures
            match old(self)@ {
                None => r == Err::<Resolution, GameError>(GameError::NotInitialized),
                Some(game) => {
                    &&& final(self)@ == Some(
                        game.submit_response(
                            defender@,
                            response,
                            proof_accepted(proof_bytes(*proof)),
                        ).0,
                    )
                    &&& resolution_answer(r) == game.submit_response(
                        defender@,
                        response,
                        proof_accepted(proof_bytes(*proof)),
                    ).1
                },
            },
            r is Err ==> *final(self) == *old(self),
            final(self).wf(),
            old(self).playable() ==> final(self).playable(),
    {
        match &mut self.game {
            None => Err(GameError::NotInitialized),
            Some(game) => game.submit_response(env, defender, response, proof),
        }
    }

    /// Decides whether a response can be recorded without taking the
    /// defender's hits beyond a fleet; see `Game::admits_response`.
    pub fn admits_response(&self, defender: &Identity, response: u32) -> (ok: bool)
        ensures
            ok == (self@ matches Some(game) ==> game.response_fits(defender@, response)),
    {
        match &self.game {
            Some(game) => game.admits_response(defender, response),
            None => true,
        }
    }

    /// Answers the shot in flight, given whether the proof was accepted; see
    /// `Game::resolve_response`. Refused with `NotInitialized` while there
    /// is no match.
    pub fn resolve_response(&mut self, defender: &Identity, response: u32, proof_ok: bool) -> (r:
        Result<Resolution, GameError>)
        requires
            old(self).wf(),
            old(self)@ matches Some(game) ==> game.response_fits(defender@, response),
        ensures
            match old(self)@ {
                None => r == Err::<Resolution, GameError>(GameError::NotInitialized),
                Some(game) => {
                    &&& final(self)@ == Some(
                        game.submit_response(defender@, response, proof_ok).0,
                    )
                    &&& resolution_answer(r) == game.submit_response(
                        defender@,
                        response,
                        proof_ok,
                    ).1
                },
            },
            r is Err ==> *final(self) == *old(self),
            final(self).wf(),
            old(self).playable() ==> final(self).playable(),
    {
        match &mut self.game {
            None => Err(GameError::NotInitialized),
            Some(game) => game.resolve_response(defender, response, proof_ok),
        }
    }

    /// Claims victory for `player`; see `Game::claim_victory`. Refused with
    /// `NotInitialized` while there is no match.
    pub fn claim_victory(&mut self, player: &Identity) -> (r: Result<HubCall, GameError>)
        requires
            old(self).wf(),
        ensures
            match old(self)@ {
                None => r == Err::<HubCall, GameError>(GameError::NotInitialized),
                Some(game) => {
                    &&& final(self)@ == Some(game.claim_victory(player@).0)
                    &&& hub_call_answer(r) == game.claim_victory(player@).1
                },
            },
            r is Err ==> *final(self) == *old(self),
            final(self).wf(),
            old(self).playable() ==> final(self).playable(),
    {
        match &mut self.game {
            None => Err(GameError::NotInitialized),
            Some(game) => game.claim_victory(player),
        }
    }

    /// The phase of the match.
    pub fn get_phase(&self) -> (r: Result<GamePhase, GameError>)
        ensures
            r == match self@ {
                Some(game) => Ok::<GamePhase, GameError>(game.phase),
                None => Err::<GamePhase, GameError>(GameError::NotInitialized),
            },
    {
        match &self.game {
            Some(game) => Ok(game.phase),
            None => Err(GameError::NotInitialized),
        }
    }

    /// The two players, the one who fires first in front.
    pub fn get_players(&self) -> (r: Result<(Identity, Identity), GameError>)
        ensures
            match self@ {
                Some(game) => r matches Ok(players) && players.0@ == game.player1 && players.1@
                    == game.player2,
                None => r == Err::<(Identity, Identity), GameError>(GameError::NotInitialized),
            },
    {
        match &self.game {
            Some(game) => Ok((game.player1.clone(), game.player2.clone())),
            None => Err(GameError::NotInitialized),
        }
    }

    /// Whether `player` has committed a fleet. Answers `NotInitialized`
    /// where no record is kept under `player`.
    pub fn get_commitment_status(&self, player: &Identity) -> (r: Result<bool, GameError>)
        ensures
            r == match self@ {
                Some(game) if game.is_player(player@) => Ok::<bool, GameError>(
                    game.record_of(player@).committed,
                ),
                _ => Err::<bool, GameError>(GameError::NotInitialized),
            },
    {
        match &self.game {
            Some(game) => {
                if game.require_player(player).is_ok() {
                    Ok(game.record(player).committed)
                } else {
                    Err(GameError::NotInitialized)
                }
            },
            None => Err(GameError::NotInitialized),
        }
    }

    /// How many of `player`'s ship cells have been hit. Answers
    /// `NotInitialized` where no record is kept under `player`.
    pub fn get_hits_received(&self, player: &Identity) -> (r: Result<u32, GameError>)
        ensures
            match self@ {
                Some(game) if game.is_player(player@) => r matches Ok(hits) && hits
                    == game.record_of(player@).hits_received,
                _ => r == Err::<u32, GameError>(GameError::NotInitialized),
            },
    {
        match &self.game {
            Some(game) => {
                if game.require_player(player).is_ok() {
                    Ok(game.record(player).hits_received)
                } else {
                    Err(GameError::NotInitialized)
                }
            },
            None => Err(GameError::NotInitialized),
        }
    }

    /// The shots resolved against `player`, oldest first. Answers
    /// `NotInitialized` where no record is kept under `player`.
    pub fn get_shot_history(&self, player: &Identity) -> (r: Result<Vec<ShotRecord>, GameError>)
        requires
            self.typed(),
        ensures
            match self@ {
                Some(game) if game.is_player(player@) => {
                    &&& r matches Ok(records)
                    &&& records@.len() == game.record_of(player@).shot_history.len()
                    &&& forall|j: int|
                        0 <= j < records@.len() ==> #[trigger] records@[j] == (ShotRecord {
                            x: game.record_of(player@).shot_history[j].0,
                            y: game.record_of(player@).shot_history[j].1,
                            is_hit: game.record_of(player@).shot_history[j].2,
                        })
                },
                _ => r == Err::<Vec<ShotRecord>, GameError>(GameError::NotInitialized),
            },
    {
        match &self.game {
            Some(game) => {
                if game.require_player(player).is_ok() {
                    match game.record(player).history() {
                        Some(records) => Ok(records),
                        None => Err(GameError::NotInitialized),
                    }
                } else {
                    Err(GameError::NotInitialized)
                }
            },
            None => Err(GameError::NotInitialized),
        }
    }

    /// The shot in flight, if any.
    pub fn get_pending_shot(&self) -> (r: Option<PendingShot>)
        ensures
            match r {
                Some(shot) => self@ matches Some(game) && game.pending_shot == Some(shot@),
                None => self@ matches Some(game) ==> game.pending_shot is None,
            },
    {
        match &self.game {
            Some(game) => match &game.pending_shot {
                Some(shot) => Some(shot.duplicate()),
                None => None,
            },
            None => None,
        }
    }

    /// The winner, once declared.
    pub fn get_winner(&self) -> (r: Option<Identity>)
        ensures
            match r {
                Some(w) => self@ matches Some(game) && game.winner == Some(w@),
                None => self@ matches Some(game) ==> game.winner is None,
            },
    {
        match &self.game {
            Some(game) => match &game.winner {
                Some(w) => Some(w.clone()),
                None => None,
            },
            None => None,
        }
    }
}

} // verus!
