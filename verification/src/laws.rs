//! What holds of every match, however it is played.

use crate::model::{
    claim_victory_wf, commit_fleet_wf, fire_shot_wf, initialize, new_match_wf, submit_response_wf,
    turn_of, GameModel,
};
use crate::board::valid_coordinate;
use crate::types::{GameError, GamePhase, HubCallView};
use vstd::prelude::*;

verus! {

/// One call of an operation that can change a match.
pub enum Action {
    Initialize { hub_address: Seq<char>, session_id: u32, player1: Seq<char>, player2: Seq<char> },
    CommitFleet { player: Seq<char>, digest: Seq<u8> },
    FireShot { attacker: Seq<char>, x: u32, y: u32 },
    SubmitResponse { defender: Seq<char>, response: u32, proof_ok: bool },
    ClaimVictory { player: Seq<char> },
}

/// The match after one call.
pub open spec fn step(game: GameModel, action: Action) -> GameModel {
    match action {
        Action::Initialize { hub_address, session_id, player1, player2 } => game.initialize_again().0,
        Action::CommitFleet { player, digest } => game.commit_fleet(player, digest).0,
        Action::FireShot { attacker, x, y } => game.fire_shot(attacker, x, y).0,
        Action::SubmitResponse { defender, response, proof_ok } => game.submit_response(
            defender,
            response,
            proof_ok,
        ).0,
        Action::ClaimVictory { player } => game.claim_victory(player).0,
    }
}

/// Whether the call is accepted.
pub open spec fn accepted(game: GameModel, action: Action) -> bool {
    match action {
        Action::Initialize { hub_address, session_id, player1, player2 } => game.initialize_again().1
            is Ok,
        Action::CommitFleet { player, digest } => game.commit_fleet(player, digest).1 is Ok,
        Action::FireShot { attacker, x, y } => game.fire_shot(attacker, x, y).1 is Ok,
        Action::SubmitResponse { defender, response, proof_ok } => game.submit_response(
            defender,
            response,
            proof_ok,
        ).1 is Ok,
        Action::ClaimVictory { player } => game.claim_victory(player).1 is Ok,
    }
}

/// The match after a sequence of calls, made one after the other.
pub open spec fn run(game: GameModel, actions: Seq<Action>) -> GameModel
    decreases actions.len(),
{
    if actions.len() == 0 {
        game
    } else {
        step(run(game, actions.drop_last()), actions.last())
    }
}

/// Whether the shot at `(x, y)` against `defender` is settled or in flight:
/// the cell is marked in the defender's mask, or it is the pending shot.
pub open spec fn targets(game: GameModel, defender: Seq<char>, x: u32, y: u32) -> bool {
    ||| game.record_of(defender).is_shot(x, y)
    ||| game.pending_shot matches Some(shot) && shot.defender == defender && shot.x == x && shot.y
        == y
}

/// Every call keeps a playable match playable, keeps its players, its
/// registry and its session, and refuses without changing anything.
pub proof fn step_keeps_playable(game: GameModel, action: Action)
    requires
        game.playable(),
    ensures
        step(game, action).playable(),
        step(game, action).player1 == game.player1,
        step(game, action).player2 == game.player2,
        step(game, action).hub_address == game.hub_address,
        step(game, action).session_id == game.session_id,
        !accepted(game, action) ==> step(game, action) == game,
{
    match action {
        Action::Initialize { hub_address, session_id, player1, player2 } => {},
        Action::CommitFleet { player, digest } => commit_fleet_wf(game, player, digest),
        Action::FireShot { attacker, x, y } => fire_shot_wf(game, attacker, x, y),
        Action::SubmitResponse { defender, response, proof_ok } => submit_response_wf(
            game,
            defender,
            response,
            proof_ok,
        ),
        Action::ClaimVictory { player } => claim_victory_wf(game, player),
    }
}

/// In a playable match no response takes the defender's hits beyond a
/// fleet, whoever answers and whatever the answer.
pub proof fn playable_response_fits(game: GameModel, defender: Seq<char>, response: u32)
    requires
        game.playable(),
    ensures
        game.response_fits(defender, response),
{
}

/// In a match with a sunk fleet that is not finished, a miss answered to a
/// shot at the sunk player still finishes the match in the attacker's
/// favour.
pub proof fn response_against_a_sunk_fleet_finishes(
    game: GameModel,
    defender: Seq<char>,
    proof_ok: bool,
)
    requires
        game.wf(),
        game.record_of(defender).hits_received == 17,
        game.submit_response(defender, 0, proof_ok).1 is Ok,
    ensures
        game.submit_response(defender, 0, proof_ok).0.phase == GamePhase::Finished,
        game.submit_response(defender, 0, proof_ok).0.winner == Some(
            game.pending_shot->Some_0.attacker,
        ),
        game.submit_response(defender, 0, proof_ok).0.wf(),
{
    submit_response_wf(game, defender, 0, proof_ok);
}

/// Every sequence of calls keeps a playable match playable and keeps its
/// players.
pub proof fn run_keeps_playable(game: GameModel, actions: Seq<Action>)
    requires
        game.playable(),
    ensures
        run(game, actions).playable(),
        run(game, actions).player1 == game.player1,
        run(game, actions).player2 == game.player2,
    decreases actions.len(),
{
    if actions.len() > 0 {
        run_keeps_playable(game, actions.drop_last());
        step_keeps_playable(run(game, actions.drop_last()), actions.last());
    }
}

/// However a new match is played, a shot is in flight exactly while the
/// match waits for a proof.
pub proof fn pending_shot_iff_waiting_for_proof(
    hub_address: Seq<char>,
    session_id: u32,
    player1: Seq<char>,
    player2: Seq<char>,
    actions: Seq<Action>,
)
    ensures
        run(GameModel::new_match(hub_address, session_id, player1, player2), actions).pending_shot
            is Some <==> run(
            GameModel::new_match(hub_address, session_id, player1, player2),
            actions,
        ).phase == GamePhase::WaitingForProof,
{
    new_match_wf(hub_address, session_id, player1, player2);
    run_keeps_playable(GameModel::new_match(hub_address, session_id, player1, player2), actions);
}

/// One call never lowers a player's hits, never takes them beyond a fleet,
/// and never clears a mark of a player's mask.
pub proof fn step_keeps_hits_and_marks(game: GameModel, action: Action, who: Seq<char>)
    requires
        game.playable(),
    ensures
        game.record_of(who).hits_received <= step(game, action).record_of(who).hits_received <= 17,
        forall|i: int|
            0 <= i < 100 && game.record_of(who).shot_mask[i] ==> #[trigger] step(
                game,
                action,
            ).record_of(who).shot_mask[i],
{
    step_keeps_playable(game, action);
}

/// However a match is played on, a player's hits never go down and never
/// exceed a fleet.
pub proof fn hits_never_decrease(game: GameModel, actions: Seq<Action>, who: Seq<char>)
    requires
        game.playable(),
    ensures
        game.record_of(who).hits_received <= run(game, actions).record_of(who).hits_received <= 17,
    decreases actions.len(),
{
    if actions.len() > 0 {
        hits_never_decrease(game, actions.drop_last(), who);
        run_keeps_playable(game, actions.drop_last());
        step_keeps_hits_and_marks(run(game, actions.drop_last()), actions.last(), who);
    }
}

/// However a match is played on, a cell that is marked in a player's mask
/// stays marked.
pub proof fn mask_bits_stay_set(game: GameModel, actions: Seq<Action>, who: Seq<char>, i: int)
    requires
        game.playable(),
        0 <= i < 100,
        game.record_of(who).shot_mask[i],
    ensures
        run(game, actions).record_of(who).shot_mask[i],
    decreases actions.len(),
{
    if actions.len() > 0 {
        mask_bits_stay_set(game, actions.drop_last(), who, i);
        run_keeps_playable(game, actions.drop_last());
        step_keeps_hits_and_marks(run(game, actions.drop_last()), actions.last(), who);
    }
}

/// One call leaves the shots recorded against a player where they are and
/// at most appends to them.
pub proof fn step_appends_to_history(game: GameModel, action: Action, who: Seq<char>)
    requires
        game.playable(),
    ensures
        game.record_of(who).shot_history.is_prefix_of(
            step(game, action).record_of(who).shot_history,
        ),
{
    step_keeps_playable(game, action);
}

/// However a match is played on, the shots recorded against a player stay
/// where they are: the history only grows at its end.
pub proof fn history_is_append_only(game: GameModel, actions: Seq<Action>, who: Seq<char>)
    requires
        game.playable(),
    ensures
        game.record_of(who).shot_history.is_prefix_of(
            run(game, actions).record_of(who).shot_history,
        ),
    decreases actions.len(),
{
    if actions.len() > 0 {
        history_is_append_only(game, actions.drop_last(), who);
        run_keeps_playable(game, actions.drop_last());
        step_appends_to_history(run(game, actions.drop_last()), actions.last(), who);
    }
}

/// A shot that is settled or in flight stays so after one more call.
pub proof fn step_keeps_target(game: GameModel, action: Action, defender: Seq<char>, x: u32, y: u32)
    requires
        game.playable(),
        game.is_player(defender),
        valid_coordinate(x, y),
        targets(game, defender, x, y),
    ensures
        targets(step(game, action), defender, x, y),
{
    step_keeps_playable(game, action);
}

/// A shot that is settled or in flight stays so however the match is played
/// on.
pub proof fn run_keeps_target(
    game: GameModel,
    actions: Seq<Action>,
    defender: Seq<char>,
    x: u32,
    y: u32,
)
    requires
        game.playable(),
        game.is_player(defender),
        valid_coordinate(x, y),
        targets(game, defender, x, y),
    ensures
        targets(run(game, actions), defender, x, y),
    decreases actions.len(),
{
    if actions.len() > 0 {
        run_keeps_target(game, actions.drop_last(), defender, x, y);
        run_keeps_playable(game, actions.drop_last());
        step_keeps_target(run(game, actions.drop_last()), actions.last(), defender, x, y);
    }
}

/// Once a shot at `(x, y)` has been fired, no later shot at the same cell of
/// the same defender is accepted, whoever fires it and however the match
/// was played in between; where it is the later attacker's turn, the
/// refusal is `AlreadyShot`.
pub proof fn cell_is_fired_at_once(
    game: GameModel,
    attacker: Seq<char>,
    x: u32,
    y: u32,
    actions: Seq<Action>,
    later_attacker: Seq<char>,
)
    requires
        game.playable(),
        game.fire_shot(attacker, x, y).1 is Ok,
        game.opponent(later_attacker) == game.opponent(attacker),
    ensures
        run(game.fire_shot(attacker, x, y).0, actions).fire_shot(later_attacker, x, y).1 is Err,
        ({
            let later = run(game.fire_shot(attacker, x, y).0, actions);
            later.phase == turn_of(later, later_attacker) && later.is_player(later_attacker)
                ==> later.fire_shot(later_attacker, x, y).1 == Err::<(), GameError>(
                GameError::AlreadyShot,
            )
        }),
{
    let fired = game.fire_shot(attacker, x, y).0;
    let defender = game.opponent(attacker);
    fire_shot_wf(game, attacker, x, y);
    run_keeps_playable(fired, actions);
    run_keeps_target(fired, actions, defender, x, y);
}

/// After an accepted response that does not end the match it is the turn of
/// the defender who was just shot at: the defender may fire, and anyone
/// else, the attacker of the resolved shot included, is told `NotYourTurn`.
pub proof fn turn_passes_to_defender(
    game: GameModel,
    defender: Seq<char>,
    response: u32,
    proof_ok: bool,
    other: Seq<char>,
    x: u32,
    y: u32,
)
    requires
        game.playable(),
        game.submit_response(defender, response, proof_ok).1 matches Ok(res) && res.closing is None,
    ensures
        game.submit_response(defender, response, proof_ok).0.phase == turn_of(game, defender),
        game.submit_response(defender, response, proof_ok).0.fire_shot(defender, x, y).1 != Err::<
            (),
            GameError,
        >(GameError::NotYourTurn),
        game.submit_response(defender, response, proof_ok).0.fire_shot(defender, x, y).1 != Err::<
            (),
            GameError,
        >(GameError::InvalidPhase),
        other != defender ==> game.submit_response(defender, response, proof_ok).0.fire_shot(
            other,
            x,
            y,
        ).1 == Err::<(), GameError>(GameError::NotYourTurn),
{
    submit_response_wf(game, defender, response, proof_ok);
}

/// While a player's opponent has lost fewer than seventeen cells, the
/// player's claim of victory is refused with `InvalidPhase` and changes
/// nothing.
pub proof fn early_claim_is_refused(game: GameModel, player: Seq<char>)
    requires
        game.is_player(player),
        game.phase != GamePhase::Finished,
        game.record_of(game.opponent(player)).hits_received < 17,
    ensures
        game.claim_victory(player) == (game, Err::<HubCallView, GameError>(GameError::InvalidPhase)),
{
}

/// The response that takes a defender's hits to seventeen finishes the
/// match with the attacker of that shot as the winner.
pub proof fn last_hit_finishes(game: GameModel, defender: Seq<char>, response: u32, proof_ok: bool)
    requires
        game.playable(),
        game.submit_response(defender, response, proof_ok).1 is Ok,
        game.submit_response(defender, response, proof_ok).0.record_of(defender).hits_received
            == 17,
    ensures
        game.submit_response(defender, response, proof_ok).0.phase == GamePhase::Finished,
        game.submit_response(defender, response, proof_ok).0.winner == Some(
            game.pending_shot->Some_0.attacker,
        ),
        game.submit_response(defender, response, proof_ok).1->Ok_0.closing is Some,
{
    submit_response_wf(game, defender, response, proof_ok);
}

/// In every well-formed match, a shot is in flight exactly while the match
/// waits for a proof, and a claim of victory keeps it so.
pub proof fn claim_keeps_pending_with_phase(game: GameModel, player: Seq<char>)
    requires
        game.wf(),
    ensures
        game.pending_shot is Some <==> game.phase == GamePhase::WaitingForProof,
        game.claim_victory(player).0.pending_shot is Some <==> game.claim_victory(player).0.phase
            == GamePhase::WaitingForProof,
{
    claim_victory_wf(game, player);
}

/// Where a player's opponent has lost a whole fleet and the match is not
/// finished, the player's claim of victory wins whatever the phase: the
/// match is finished with the player as winner and no shot in flight, the
/// records stay as they are, and the registry is owed the closing call.
pub proof fn claim_wins_over_a_sunk_fleet(game: GameModel, player: Seq<char>)
    requires
        game.wf(),
        game.is_player(player),
        game.phase != GamePhase::Finished,
        game.record_of(game.opponent(player)).hits_received >= 17,
    ensures
        game.claim_victory(player).1 == Ok::<HubCallView, GameError>(
            HubCallView::EndGame { session_id: game.session_id, player1_won: player == game.player1 },
        ),
        game.claim_victory(player).0 == (GameModel {
            phase: GamePhase::Finished,
            winner: Some(player),
            pending_shot: None,
            ..game
        }),
        game.claim_victory(player).0.wf(),
{
    claim_victory_wf(game, player);
}

/// In a playable match nobody has lost a whole fleet unless the match is
/// finished, so no claim of victory is accepted.
pub proof fn playable_claim_is_refused(game: GameModel, player: Seq<char>)
    requires
        game.playable(),
    ensures
        game.claim_victory(player).1 is Err,
        game.claim_victory(player).0 == game,
{
}

/// A match is created once: creating it again is refused and changes
/// nothing.
pub proof fn second_initialize_is_refused(
    game: GameModel,
    hub_address: Seq<char>,
    session_id: u32,
    player1: Seq<char>,
    player2: Seq<char>,
)
    ensures
        initialize(Some(game), hub_address, session_id, player1, player2) == (
            Some(game),
            Err::<HubCallView, GameError>(GameError::InvalidPhase),
        ),
{
}

/// A finished match refuses every call and stays as it is.
pub proof fn finished_is_final(game: GameModel, action: Action)
    requires
        game.playable(),
        game.phase == GamePhase::Finished,
    ensures
        !accepted(game, action),
        step(game, action) == game,
{
}

} // verus!
