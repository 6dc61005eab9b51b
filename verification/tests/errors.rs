use battleship::{BattleshipContract, GameError, GamePhase, Identity};
use soroban_sdk::{BytesN, Env};

const HUB: &str = "CB4VZAT2U3UC6XFK3N23SKRF2NDCMP3QHJYMCHHFMZO7MRQO6DQ2EMYG";
const ALICE: &str = "GA7QYNF7SOWQ3GLR2BGMZEHXAVIRZA4KVWLTJJFC7MGXUA74P7UJVSGZ";
const BOB: &str = "GCEZWKCA5VLDNRLN3RPRJMRZOX3Z6G5CHCGSNFHEYVXM3XOJMDS674JZ";
const STRANGER: &str = "GDQP2KPQGKIHYJGXNUIYOMHARUARCA7DJT5FO2FFOOKY3B2WSQHG4W37";

fn who(key: &str) -> Identity {
    Identity::new(key.to_string())
}

fn fresh(env: &Env) -> BattleshipContract {
    let mut contract = BattleshipContract::new();
    contract.initialize(env, who(HUB), 7, who(ALICE), who(BOB)).unwrap();
    contract
}

fn in_play(env: &Env) -> BattleshipContract {
    let mut contract = fresh(env);
    contract.commit_fleet(&who(ALICE), BytesN::from_array(env, &[1u8; 32])).unwrap();
    contract.commit_fleet(&who(BOB), BytesN::from_array(env, &[2u8; 32])).unwrap();
    contract
}

fn nonzero_proof(env: &Env) -> BytesN<256> {
    BytesN::from_array(env, &[7u8; 256])
}

#[test]
fn error_codes_are_one_to_ten() {
    assert_eq!(GameError::NotInitialized.code(), 1);
    assert_eq!(GameError::InvalidPhase.code(), 2);
    assert_eq!(GameError::NotAPlayer.code(), 3);
    assert_eq!(GameError::NotYourTurn.code(), 4);
    assert_eq!(GameError::AlreadyCommitted.code(), 5);
    assert_eq!(GameError::OutOfBounds.code(), 6);
    assert_eq!(GameError::AlreadyShot.code(), 7);
    assert_eq!(GameError::ProofInvalid.code(), 8);
    assert_eq!(GameError::GameOver.code(), 9);
    assert_eq!(GameError::InvalidResponse.code(), 10);
}

#[test]
fn nothing_works_before_initialize() {
    let env = Env::default();
    let mut contract = BattleshipContract::new();
    assert!(contract.is_valid());
    assert_eq!(
        contract.commit_fleet(&who(ALICE), BytesN::from_array(&env, &[1u8; 32])),
        Err(GameError::NotInitialized)
    );
    assert_eq!(contract.fire_shot(&who(ALICE), 0, 0), Err(GameError::NotInitialized));
    assert_eq!(
        contract.submit_response(&env, &who(BOB), 1, &nonzero_proof(&env)),
        Err(GameError::NotInitialized)
    );
    assert_eq!(contract.resolve_response(&who(BOB), 1, true), Err(GameError::NotInitialized));
    assert_eq!(contract.claim_victory(&who(ALICE)), Err(GameError::NotInitialized));
    assert_eq!(contract.get_phase(), Err(GameError::NotInitialized));
    assert_eq!(contract.get_players(), Err(GameError::NotInitialized));
    assert_eq!(contract.get_commitment_status(&who(ALICE)), Err(GameError::NotInitialized));
    assert_eq!(contract.get_hits_received(&who(ALICE)), Err(GameError::NotInitialized));
    assert_eq!(contract.get_shot_history(&who(ALICE)), Err(GameError::NotInitialized));
    assert_eq!(contract.get_pending_shot(), None);
    assert_eq!(contract.get_winner(), None);
    assert!(!contract.is_initialized());
}

#[test]
fn records_are_kept_for_players_only() {
    let env = Env::default();
    let contract = fresh(&env);
    assert_eq!(contract.get_commitment_status(&who(STRANGER)), Err(GameError::NotInitialized));
    assert_eq!(contract.get_hits_received(&who(STRANGER)), Err(GameError::NotInitialized));
    assert_eq!(contract.get_shot_history(&who(STRANGER)), Err(GameError::NotInitialized));
}

#[test]
fn commit_fleet_refusals() {
    let env = Env::default();
    let mut contract = fresh(&env);
    let digest = BytesN::from_array(&env, &[1u8; 32]);
    assert_eq!(contract.commit_fleet(&who(STRANGER), digest.clone()), Err(GameError::NotAPlayer));
    assert_eq!(contract.commit_fleet(&who(ALICE), digest.clone()), Ok(()));
    let before = contract.game.clone();
    assert_eq!(
        contract.commit_fleet(&who(ALICE), BytesN::from_array(&env, &[5u8; 32])),
        Err(GameError::AlreadyCommitted)
    );
    assert_eq!(contract.game, before);
    assert_eq!(contract.commit_fleet(&who(BOB), digest.clone()), Ok(()));
    assert_eq!(contract.commit_fleet(&who(BOB), digest.clone()), Err(GameError::InvalidPhase));
    assert_eq!(contract.commit_fleet(&who(STRANGER), digest), Err(GameError::InvalidPhase));
}

#[test]
fn fire_shot_refusals() {
    let env = Env::default();
    let mut contract = fresh(&env);
    assert_eq!(contract.fire_shot(&who(ALICE), 0, 0), Err(GameError::InvalidPhase));
    let mut contract = in_play(&env);
    assert_eq!(contract.fire_shot(&who(BOB), 0, 0), Err(GameError::NotYourTurn));
    assert_eq!(contract.fire_shot(&who(STRANGER), 0, 0), Err(GameError::NotYourTurn));
    assert_eq!(contract.fire_shot(&who(BOB), 10, 10), Err(GameError::NotYourTurn));
    assert_eq!(contract.fire_shot(&who(ALICE), 10, 0), Err(GameError::OutOfBounds));
    assert_eq!(contract.fire_shot(&who(ALICE), 0, 10), Err(GameError::OutOfBounds));
    assert_eq!(contract.fire_shot(&who(ALICE), u32::MAX, u32::MAX), Err(GameError::OutOfBounds));
    assert_eq!(contract.get_phase(), Ok(GamePhase::Player1Turn));
    assert_eq!(contract.get_pending_shot(), None);
    assert_eq!(contract.fire_shot(&who(ALICE), 9, 9), Ok(()));
    assert_eq!(contract.fire_shot(&who(ALICE), 0, 0), Err(GameError::InvalidPhase));
    assert_eq!(contract.fire_shot(&who(BOB), 0, 0), Err(GameError::InvalidPhase));
}

#[test]
fn submit_response_refusals() {
    let env = Env::default();
    let mut contract = in_play(&env);
    let proof = nonzero_proof(&env);
    assert_eq!(contract.submit_response(&env, &who(BOB), 1, &proof), Err(GameError::InvalidPhase));
    contract.fire_shot(&who(ALICE), 3, 4).unwrap();
    let before = contract.game.clone();
    assert_eq!(contract.submit_response(&env, &who(ALICE), 1, &proof), Err(GameError::NotYourTurn));
    assert_eq!(
        contract.submit_response(&env, &who(STRANGER), 1, &proof),
        Err(GameError::NotYourTurn)
    );
    assert_eq!(contract.submit_response(&env, &who(ALICE), 2, &proof), Err(GameError::NotYourTurn));
    assert_eq!(
        contract.submit_response(&env, &who(BOB), 2, &proof),
        Err(GameError::InvalidResponse)
    );
    assert_eq!(
        contract.submit_response(&env, &who(BOB), u32::MAX, &proof),
        Err(GameError::InvalidResponse)
    );
    let zero = BytesN::from_array(&env, &[0u8; 256]);
    assert_eq!(contract.submit_response(&env, &who(BOB), 2, &zero), Err(GameError::InvalidResponse));
    assert_eq!(contract.submit_response(&env, &who(BOB), 0, &zero), Err(GameError::ProofInvalid));
    assert_eq!(contract.game, before);
    assert!(contract.submit_response(&env, &who(BOB), 0, &proof).is_ok());
}

#[test]
fn claim_victory_refusals() {
    let env = Env::default();
    let mut contract = fresh(&env);
    assert_eq!(contract.claim_victory(&who(STRANGER)), Err(GameError::NotAPlayer));
    assert_eq!(contract.claim_victory(&who(ALICE)), Err(GameError::InvalidPhase));
    assert_eq!(contract.claim_victory(&who(BOB)), Err(GameError::InvalidPhase));
    let mut contract = in_play(&env);
    let before = contract.game.clone();
    assert_eq!(contract.claim_victory(&who(ALICE)), Err(GameError::InvalidPhase));
    assert_eq!(contract.game, before);
}
