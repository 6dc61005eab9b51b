use battleship::board::{in_bounds, mask_index, BOARD_SIZE, CELL_COUNT, FLEET_CELLS};
use battleship::oracle::verify_zk_proof;
use battleship::{
    BattleshipContract, Game, GameError, GamePhase, HubCall, Identity, PendingShot, PlayerState,
    ShotRecord,
};
use soroban_sdk::{BytesN, Env, TryFromVal};

fn actor(key: &str) -> Identity {
    Identity::new(key.to_string())
}

fn game_between(env: &Env, first: &str, second: &str) -> Game {
    Game::new(env, actor("hub"), 11, actor(first), actor(second))
}

#[test]
fn board_constants() {
    assert_eq!(BOARD_SIZE, 10);
    assert_eq!(CELL_COUNT, 100);
    assert_eq!(FLEET_CELLS, 17);
}

#[test]
fn in_bounds_accepts_zero_to_nine() {
    assert!(in_bounds(0, 0));
    assert!(in_bounds(9, 9));
    assert!(in_bounds(3, 4));
    assert!(!in_bounds(10, 0));
    assert!(!in_bounds(0, 10));
    assert!(!in_bounds(10, 10));
    assert!(!in_bounds(u32::MAX, 0));
}

#[test]
fn mask_index_is_ten_x_plus_y() {
    assert_eq!(mask_index(0, 0), 0);
    assert_eq!(mask_index(3, 4), 34);
    assert_eq!(mask_index(4, 3), 43);
    assert_eq!(mask_index(9, 9), 99);
    let mut seen = [false; 100];
    for x in 0..10 {
        for y in 0..10 {
            let i = mask_index(x, y) as usize;
            assert!(!seen[i]);
            seen[i] = true;
        }
    }
    assert!(seen.iter().all(|s| *s));
}

#[test]
fn identities_are_compared_by_key() {
    let a = actor("alice");
    assert!(a.same(&actor("alice")));
    assert!(!a.same(&actor("bob")));
    assert!(!a.same(&actor("alic")));
    assert_eq!(a.clone(), a);
    assert_eq!(a.strkey, "alice");
}

#[test]
fn empty_record_is_all_zero() {
    let env = Env::default();
    let rec = PlayerState::create_empty(&env);
    assert_eq!(rec.commitment, BytesN::from_array(&env, &[0u8; 32]));
    assert_eq!(rec.commitment.to_array(), [0u8; 32]);
    assert!(!rec.committed);
    assert_eq!(rec.hits_received, 0);
    assert_eq!(rec.shot_mask.len(), 100);
    for i in 0..100 {
        assert_eq!(rec.shot_mask.get(i), Some(false));
    }
    assert_eq!(rec.shot_history.len(), 0);
    assert_eq!(rec.history(), Some(vec![]));
    assert!(rec.is_typed());
    assert!(rec.is_valid());
    assert_eq!(rec.clone(), rec);
}

#[test]
fn commit_sets_the_digest_once() {
    let env = Env::default();
    let mut rec = PlayerState::create_empty(&env);
    assert_eq!(rec.commit(BytesN::from_array(&env, &[4u8; 32])), Ok(()));
    assert!(rec.committed);
    assert_eq!(rec.commitment.to_array(), [4u8; 32]);
    assert_eq!(
        rec.commit(BytesN::from_array(&env, &[5u8; 32])),
        Err(GameError::AlreadyCommitted)
    );
    assert_eq!(rec.commitment.to_array(), [4u8; 32]);
    assert!(rec.is_valid());
}

#[test]
fn record_shot_marks_appends_and_counts() {
    let env = Env::default();
    let mut rec = PlayerState::create_empty(&env);
    assert!(!rec.is_shot(3, 4));
    assert_eq!(rec.record_shot(3, 4, true), Ok(()));
    assert!(rec.is_shot(3, 4));
    assert!(!rec.is_shot(4, 3));
    assert_eq!(rec.hits_received, 1);
    assert_eq!(rec.record_shot(0, 0, false), Ok(()));
    assert_eq!(rec.hits_received, 1);
    assert_eq!(rec.record_shot(3, 4, false), Err(GameError::AlreadyShot));
    assert_eq!(rec.record_shot(3, 4, true), Err(GameError::AlreadyShot));
    assert_eq!(rec.hits_received, 1);
    assert_eq!(rec.shot_mask.len(), 100);
    for i in 0..100 {
        assert_eq!(rec.shot_mask.get(i), Some(i == 34 || i == 0));
    }
    assert_eq!(
        rec.history(),
        Some(vec![
            ShotRecord { x: 3, y: 4, is_hit: true },
            ShotRecord { x: 0, y: 0, is_hit: false },
        ])
    );
    assert!(rec.is_valid());
}

#[test]
fn records_that_disagree_with_themselves_are_not_valid() {
    let env = Env::default();
    let mut played = PlayerState::create_empty(&env);
    played.record_shot(1, 2, true).unwrap();
    played.record_shot(2, 1, false).unwrap();
    assert!(played.is_valid());

    let mut wrong_hits = played.clone();
    wrong_hits.hits_received = 2;
    assert!(!wrong_hits.is_valid());

    let mut too_many = played.clone();
    too_many.hits_received = 18;
    assert!(!too_many.is_valid());

    let mut short_mask = played.clone();
    short_mask.shot_mask = soroban_sdk::Vec::from_array(&env, [false; 99]);
    assert!(!short_mask.is_valid());

    let mut unmarked = played.clone();
    unmarked.shot_mask.set(12, false);
    assert!(!unmarked.is_valid());

    let mut stray_mark = played.clone();
    stray_mark.shot_mask.set(50, true);
    assert!(!stray_mark.is_valid());

    let mut repeated = played.clone();
    repeated.shot_history.push_back((1, 2, false));
    assert!(!repeated.is_valid());

    let mut off_board = played.clone();
    off_board.shot_history.push_back((10, 0, false));
    assert!(!off_board.is_valid());
    assert!(off_board.is_typed());
}

#[test]
fn records_with_items_of_another_type_are_told_apart() {
    let env = Env::default();
    let played = PlayerState::create_empty(&env);
    assert!(played.is_typed());

    let numbers: soroban_sdk::Vec<u32> = soroban_sdk::Vec::from_array(&env, [0u32; 100]);
    let mut strange_mask = played.clone();
    strange_mask.shot_mask =
        soroban_sdk::Vec::<bool>::try_from_val(&env, &numbers.to_val()).unwrap();
    assert_eq!(strange_mask.shot_mask.len(), 100);
    assert!(!strange_mask.is_typed());
    assert!(!strange_mask.is_valid());
    assert_eq!(strange_mask.history(), Some(vec![]));

    let one_number: soroban_sdk::Vec<u32> = soroban_sdk::Vec::from_array(&env, [5u32; 1]);
    let mut strange_history = played.clone();
    strange_history.shot_history =
        soroban_sdk::Vec::<(u32, u32, bool)>::try_from_val(&env, &one_number.to_val()).unwrap();
    assert!(!strange_history.is_typed());
    assert!(!strange_history.is_valid());
    assert_eq!(strange_history.history(), None);

    let pair: soroban_sdk::Vec<u32> = soroban_sdk::Vec::from_array(&env, [1u32, 2u32]);
    let pairs: soroban_sdk::Vec<soroban_sdk::Vec<u32>> =
        soroban_sdk::Vec::from_array(&env, [pair]);
    let mut short_item = played.clone();
    short_item.shot_history =
        soroban_sdk::Vec::<(u32, u32, bool)>::try_from_val(&env, &pairs.to_val()).unwrap();
    assert_eq!(short_item.shot_history.len(), 1);
    assert!(!short_item.is_typed());
    assert!(!short_item.is_valid());
    assert_eq!(short_item.history(), None);

    let four: soroban_sdk::Vec<u32> = soroban_sdk::Vec::from_array(&env, [1u32, 2, 3, 4]);
    let fours: soroban_sdk::Vec<soroban_sdk::Vec<u32>> =
        soroban_sdk::Vec::from_array(&env, [four]);
    let mut long_item = played.clone();
    long_item.shot_history =
        soroban_sdk::Vec::<(u32, u32, bool)>::try_from_val(&env, &fours.to_val()).unwrap();
    assert!(!long_item.is_typed());
    assert!(!long_item.is_valid());
    assert_eq!(long_item.history(), None);

    let numbers_only: soroban_sdk::Vec<(u32, u32, u32)> =
        soroban_sdk::Vec::from_array(&env, [(1u32, 2u32, 1u32)]);
    let mut wrong_part = played.clone();
    wrong_part.shot_history =
        soroban_sdk::Vec::<(u32, u32, bool)>::try_from_val(&env, &numbers_only.to_val()).unwrap();
    assert!(!wrong_part.is_typed());
    assert_eq!(wrong_part.history(), None);

    let flags_first: soroban_sdk::Vec<(bool, u32, bool)> =
        soroban_sdk::Vec::from_array(&env, [(true, 2u32, true)]);
    let mut wrong_first = played.clone();
    wrong_first.shot_history =
        soroban_sdk::Vec::<(u32, u32, bool)>::try_from_val(&env, &flags_first.to_val()).unwrap();
    assert!(!wrong_first.is_typed());
    assert_eq!(wrong_first.history(), None);

    let same_items: soroban_sdk::Vec<(u32, u32, bool)> =
        soroban_sdk::Vec::from_array(&env, [(1u32, 2u32, true), (0u32, 0u32, false)]);
    let mut from_elsewhere = played.clone();
    from_elsewhere.shot_history = same_items;
    assert!(from_elsewhere.is_typed());
    assert_eq!(
        from_elsewhere.history(),
        Some(vec![
            ShotRecord { x: 1, y: 2, is_hit: true },
            ShotRecord { x: 0, y: 0, is_hit: false },
        ])
    );

    let mut game = game_between(&env, "alice", "bob");
    assert!(game.is_typed());
    game.state1 = strange_history;
    assert!(!game.is_typed());
    assert!(!game.is_valid());
    assert!(!game.is_playable());
    let contract = BattleshipContract { game: Some(game) };
    assert!(!contract.is_typed());
    assert!(!contract.is_valid());
    assert!(!contract.is_playable());
}

#[test]
fn matches_that_disagree_with_themselves_are_not_valid() {
    let env = Env::default();
    let fresh = game_between(&env, "alice", "bob");
    assert!(fresh.is_valid());
    assert!(fresh.is_playable());

    let mut early_turn = fresh.clone();
    early_turn.phase = GamePhase::Player1Turn;
    assert!(!early_turn.is_valid());

    let mut waiting_without_shot = fresh.clone();
    waiting_without_shot.state1.committed = true;
    waiting_without_shot.state2.committed = true;
    waiting_without_shot.phase = GamePhase::WaitingForProof;
    assert!(!waiting_without_shot.is_valid());

    let mut in_play = fresh.clone();
    in_play.state1.committed = true;
    in_play.state2.committed = true;
    in_play.phase = GamePhase::Player2Turn;
    assert!(in_play.is_valid());

    let mut stray_shot = in_play.clone();
    stray_shot.pending_shot =
        Some(PendingShot { attacker: actor("bob"), defender: actor("alice"), x: 1, y: 1 });
    assert!(!stray_shot.is_valid());
    stray_shot.phase = GamePhase::WaitingForProof;
    assert!(stray_shot.is_valid());

    let mut shot_off_board = stray_shot.clone();
    shot_off_board.pending_shot =
        Some(PendingShot { attacker: actor("bob"), defender: actor("alice"), x: 1, y: 10 });
    assert!(!shot_off_board.is_valid());

    let mut shot_by_stranger = stray_shot.clone();
    shot_by_stranger.pending_shot =
        Some(PendingShot { attacker: actor("carol"), defender: actor("alice"), x: 1, y: 1 });
    assert!(!shot_by_stranger.is_valid());

    let mut shot_at_oneself = stray_shot.clone();
    shot_at_oneself.pending_shot =
        Some(PendingShot { attacker: actor("alice"), defender: actor("alice"), x: 1, y: 1 });
    assert!(!shot_at_oneself.is_valid());

    let mut shot_at_marked_cell = stray_shot.clone();
    shot_at_marked_cell.state1.record_shot(1, 1, false).unwrap();
    assert!(!shot_at_marked_cell.is_valid());

    let mut early_winner = in_play.clone();
    early_winner.winner = Some(actor("alice"));
    assert!(!early_winner.is_valid());
    early_winner.phase = GamePhase::Finished;
    assert!(early_winner.is_valid());

    let mut strange_winner = early_winner.clone();
    strange_winner.winner = Some(actor("carol"));
    assert!(!strange_winner.is_valid());

    let mut no_winner = early_winner.clone();
    no_winner.winner = None;
    assert!(!no_winner.is_valid());

    let mut sunk_but_playing = in_play.clone();
    for n in 0..17u32 {
        sunk_but_playing.state1.shot_mask.set(n, true);
        sunk_but_playing.state1.shot_history.push_back((n / 10, n % 10, true));
    }
    sunk_but_playing.state1.hits_received = 17;
    assert!(sunk_but_playing.state1.is_valid());
    assert!(sunk_but_playing.is_valid());
    assert!(!sunk_but_playing.is_playable());
    sunk_but_playing.phase = GamePhase::Finished;
    sunk_but_playing.winner = Some(actor("bob"));
    assert!(sunk_but_playing.is_valid());
    assert!(sunk_but_playing.is_playable());

    let mut finished_before_commits = fresh.clone();
    finished_before_commits.phase = GamePhase::Finished;
    finished_before_commits.winner = Some(actor("alice"));
    assert!(finished_before_commits.is_valid());

    let broken = BattleshipContract { game: Some(early_turn) };
    assert!(!broken.is_valid());
}

#[test]
fn game_helpers() {
    let env = Env::default();
    let mut game = game_between(&env, "alice", "bob");
    assert_eq!(game.require_player(&actor("alice")), Ok(()));
    assert_eq!(game.require_player(&actor("bob")), Ok(()));
    assert_eq!(game.require_player(&actor("carol")), Err(GameError::NotAPlayer));
    assert_eq!(game.opponent(&actor("alice")), &actor("bob"));
    assert_eq!(game.opponent(&actor("bob")), &actor("alice"));
    assert_eq!(
        game.registration(),
        HubCall::StartGame {
            session_id: 11,
            player1: actor("alice"),
            player2: actor("bob"),
            player1_points: 0,
            player2_points: 0,
        }
    );
    game.commit_fleet(&actor("bob"), BytesN::from_array(&env, &[8u8; 32])).unwrap();
    assert!(game.record(&actor("bob")).committed);
    assert!(!game.record(&actor("alice")).committed);
    assert_eq!(game.record(&actor("bob")).commitment.to_array(), [8u8; 32]);
    assert_eq!(game.check_response(&actor("bob"), 1), Err(GameError::InvalidPhase));
    game.commit_fleet(&actor("alice"), BytesN::from_array(&env, &[8u8; 32])).unwrap();
    game.fire_shot(&actor("alice"), 5, 6).unwrap();
    assert_eq!(game.check_response(&actor("bob"), 1), Ok(()));
    assert_eq!(game.check_response(&actor("bob"), 0), Ok(()));
    assert_eq!(game.check_response(&actor("bob"), 2), Err(GameError::InvalidResponse));
    assert_eq!(game.check_response(&actor("alice"), 1), Err(GameError::NotYourTurn));
}

#[test]
fn declare_winner_reports_who_won() {
    let env = Env::default();
    let mut game = game_between(&env, "alice", "bob");
    game.pending_shot =
        Some(PendingShot { attacker: actor("bob"), defender: actor("alice"), x: 1, y: 1 });
    let records = (game.state1.clone(), game.state2.clone());
    let call = game.declare_winner(&actor("bob"));
    assert_eq!(call, HubCall::EndGame { session_id: 11, player1_won: false });
    assert_eq!(game.phase, GamePhase::Finished);
    assert_eq!(game.winner, Some(actor("bob")));
    assert_eq!(game.pending_shot, None);
    assert_eq!((game.state1.clone(), game.state2.clone()), records);
    let mut game = game_between(&env, "alice", "bob");
    let call = game.declare_winner(&actor("alice"));
    assert_eq!(call, HubCall::EndGame { session_id: 11, player1_won: true });
    assert_eq!(game.winner, Some(actor("alice")));
}

#[test]
fn only_the_all_zero_proof_is_rejected() {
    let env = Env::default();
    let shot = PendingShot { attacker: actor("alice"), defender: actor("bob"), x: 0, y: 0 };
    let zero = BytesN::from_array(&env, &[0u8; 256]);
    assert!(!verify_zk_proof(&env, &zero, &shot, 1));
    assert!(!verify_zk_proof(&env, &zero, &shot, 0));
    let mut bytes = [0u8; 256];
    bytes[0] = 1;
    assert!(verify_zk_proof(&env, &BytesN::from_array(&env, &bytes), &shot, 1));
    let mut bytes = [0u8; 256];
    bytes[255] = 128;
    assert!(verify_zk_proof(&env, &BytesN::from_array(&env, &bytes), &shot, 0));
    assert!(verify_zk_proof(&env, &BytesN::from_array(&env, &[255u8; 256]), &shot, 7));
}
