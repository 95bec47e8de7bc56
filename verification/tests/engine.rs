use ed25519_dalek::Signer;
use ed25519_dalek::SigningKey;
use tictactoe::auth::AuthorizationProof;
use tictactoe::auth::HostEnv;
use tictactoe::auth::KeyedEd25519Signature;
use tictactoe::identity::Ed25519Sig;
use tictactoe::identity::Identity;
use tictactoe::messages::PlayMessage;
use tictactoe::messages::SetupMessage;
use tictactoe::messages::TicTacToeMessage;
use tictactoe::messages::serialize_message;
use tictactoe::store::GameStore;
use tictactoe::Error;
use tictactoe::Game;
use tictactoe::GameError;
use tictactoe::Sign;
use tictactoe::Status;
use tictactoe::TicTacToeContract;
use tictactoe::Winner;
use tictactoe::get_game;
use tictactoe::has_won;

fn generate_keypair(seed: u8) -> SigningKey {
    SigningKey::from_bytes(&[seed; 32])
}

fn identity_of(keypair: &SigningKey) -> Identity {
    Identity { bytes: keypair.verifying_key().to_bytes() }
}

fn host_env() -> HostEnv {
    HostEnv { invoker: Identity { bytes: [0; 32] }, accounts: vec![] }
}

fn signed_proof(keypair: &SigningKey, msg: &TicTacToeMessage) -> AuthorizationProof {
    let bytes = serialize_message(msg);
    let signature = keypair.sign(&bytes);
    AuthorizationProof::SingleKey(KeyedEd25519Signature {
        public_key: identity_of(keypair),
        signature: Ed25519Sig { bytes: signature.to_bytes() },
    })
}

fn create_test_game(
    env: &HostEnv,
    store: &mut GameStore,
    player1: &SigningKey,
    player2: &SigningKey,
    game_id: u32,
) -> Result<Game, Error> {
    let msg = TicTacToeMessage::Setup(SetupMessage { game_id });
    let proof_one = signed_proof(player1, &msg);
    let proof_two = signed_proof(player2, &msg);
    TicTacToeContract::setup_game(env, store, &proof_one, &proof_two, &msg)
}

fn create_test_play(
    env: &HostEnv,
    store: &mut GameStore,
    player: &SigningKey,
    game_id: u32,
    tile: u32,
) -> Result<Game, Error> {
    let msg = TicTacToeMessage::Play(PlayMessage { game_id, tile });
    let proof = signed_proof(player, &msg);
    TicTacToeContract::play_game(env, store, &proof, &msg)
}

#[test]
fn test_setup_duplicate_game_fails() {
    let env = host_env();
    let mut store = GameStore::new();
    let player1 = generate_keypair(1);
    let player2 = generate_keypair(2);

    let game = create_test_game(&env, &mut store, &player1, &player2, 1).unwrap();
    assert_eq!(game.id, 1);

    let second = create_test_game(&env, &mut store, &player1, &player2, 1);
    assert_eq!(second.unwrap_err(), Error::Game(GameError::GameAlreadyExists));
}

#[test]
fn test_setup_game_same_player_fails() {
    let env = host_env();
    let mut store = GameStore::new();
    let player1 = generate_keypair(1);

    let result = create_test_game(&env, &mut store, &player1, &player1, 1);
    assert_eq!(result.unwrap_err(), Error::Game(GameError::DuplicatePlayers));
}

#[test]
fn test_get_game() {
    let store = GameStore::new();
    let result = get_game(&store, 2);
    assert_eq!(result.unwrap_err(), Error::Game(GameError::GameNotFound));
}

#[test]
fn test_play_invalid_turn_fails() {
    let env = host_env();
    let mut store = GameStore::new();
    let player1 = generate_keypair(1);
    let player2 = generate_keypair(2);

    create_test_game(&env, &mut store, &player1, &player2, 1).unwrap();
    create_test_play(&env, &mut store, &player1, 1, 0).unwrap();
    // Player 1 cannot play twice
    let result = create_test_play(&env, &mut store, &player1, 1, 1);
    assert_eq!(result.unwrap_err(), Error::Game(GameError::InvalidPlayerOrTurn));
}

#[test]
fn test_play_repeated_tile_fails() {
    let env = host_env();
    let mut store = GameStore::new();
    let player1 = generate_keypair(1);
    let player2 = generate_keypair(2);

    create_test_game(&env, &mut store, &player1, &player2, 1).unwrap();
    create_test_play(&env, &mut store, &player1, 1, 0).unwrap();
    // Cannot play on the same tile again
    let result = create_test_play(&env, &mut store, &player2, 1, 0);
    assert_eq!(result.unwrap_err(), Error::Game(GameError::TileOccupied));
}

#[test]
fn test_play_invalid_tile_fails() {
    let env = host_env();
    let mut store = GameStore::new();
    let player1 = generate_keypair(1);
    let player2 = generate_keypair(2);

    create_test_game(&env, &mut store, &player1, &player2, 1).unwrap();
    create_test_play(&env, &mut store, &player1, 1, 0).unwrap();
    // Cannot play on a tile that is out of bounds
    let result = create_test_play(&env, &mut store, &player2, 1, 9);
    assert_eq!(result.unwrap_err(), Error::Game(GameError::InvalidTileIndex));
}

#[test]
fn test_play_game() {
    let env = host_env();
    let mut store = GameStore::new();
    let player1 = generate_keypair(1);
    let player2 = generate_keypair(2);
    let mut game_id: u32 = 1;

    let winning_plays: Vec<(Winner, Vec<u32>)> = vec![
        // [X][O][O]
        // [ ][X][ ]
        // [ ][ ][X]
        (Winner::Player1, vec![0, 1, 4, 2, 8]),
        // [O][O][X]
        // [ ][X][ ]
        // [X][ ][ ]
        (Winner::Player1, vec![2, 1, 4, 0, 6]),
        // [O][O][ ]
        // [ ][ ][ ]
        // [X][X][X]
        (Winner::Player1, vec![6, 0, 7, 1, 8]),
        // [O][O][X]
        // [ ][ ][X]
        // [ ][ ][X]
        (Winner::Player1, vec![2, 0, 5, 1, 8]),
        // [X][O][O]
        // [O][X][X]
        // [X][X][O]
        (Winner::Neither, vec![0, 1, 4, 8, 5, 3, 6, 2, 7]),
        // [ ][ ][O]
        // [ ][X][O]
        // [X][X][O]
        (Winner::Player2, vec![4, 2, 6, 5, 7, 8]),
    ];

    for (winner, tiles) in winning_plays {
        let mut game = create_test_game(&env, &mut store, &player1, &player2, game_id).unwrap();
        let mut current_is_one = true;
        for tile in tiles {
            let current = if current_is_one { &player1 } else { &player2 };
            game = create_test_play(&env, &mut store, current, game_id, tile).unwrap();
            current_is_one = !current_is_one;
        }

        assert_eq!(game.status, Status::Finished);
        assert_eq!(game.winner, winner);
        game_id += 1;
    }
}

fn game_with_board(cells: [Sign; 9]) -> Game {
    Game {
        id: 0,
        player_one: Identity { bytes: [1; 32] },
        player_two: Identity { bytes: [2; 32] },
        turn: false,
        tile_0: cells[0],
        tile_1: cells[1],
        tile_2: cells[2],
        tile_3: cells[3],
        tile_4: cells[4],
        tile_5: cells[5],
        tile_6: cells[6],
        tile_7: cells[7],
        tile_8: cells[8],
        status: Status::Started,
        winner: Winner::Neither,
    }
}

#[test]
fn test_has_won_every_line() {
    let lines: [[usize; 3]; 8] = [
        [0, 1, 2],
        [3, 4, 5],
        [6, 7, 8],
        [0, 3, 6],
        [1, 4, 7],
        [2, 5, 8],
        [0, 4, 8],
        [2, 4, 6],
    ];
    for line in lines {
        let mut cells = [Sign::Empty; 9];
        for i in line {
            cells[i] = Sign::X;
        }
        let game = game_with_board(cells);
        assert!(has_won(&game, &Sign::X));
        assert!(!has_won(&game, &Sign::O));
    }
}

#[test]
fn test_has_won_no_line() {
    // [X][O][X]
    // [O][O][X]
    // [X][X][O]
    let cells = [
        Sign::X,
        Sign::O,
        Sign::X,
        Sign::O,
        Sign::O,
        Sign::X,
        Sign::X,
        Sign::X,
        Sign::O,
    ];
    let game = game_with_board(cells);
    assert!(!has_won(&game, &Sign::X));
    assert!(!has_won(&game, &Sign::O));
}

#[test]
fn test_top_row_win_scenario() {
    let env = host_env();
    let mut store = GameStore::new();
    let player_a = generate_keypair(3);
    let player_b = generate_keypair(4);

    create_test_game(&env, &mut store, &player_a, &player_b, 7).unwrap();
    create_test_play(&env, &mut store, &player_a, 7, 0).unwrap();
    create_test_play(&env, &mut store, &player_b, 7, 4).unwrap();
    create_test_play(&env, &mut store, &player_a, 7, 1).unwrap();
    create_test_play(&env, &mut store, &player_b, 7, 5).unwrap();
    let game = create_test_play(&env, &mut store, &player_a, 7, 2).unwrap();

    assert_eq!(game.status, Status::Finished);
    assert_eq!(game.winner, Winner::Player1);
    assert_eq!(game.tile_0, Sign::X);
    assert_eq!(game.tile_1, Sign::X);
    assert_eq!(game.tile_2, Sign::X);
    assert_eq!(game.tile_4, Sign::O);
    assert_eq!(game.tile_5, Sign::O);
}

#[test]
fn test_nine_moves_draw_scenario() {
    let env = host_env();
    let mut store = GameStore::new();
    let player1 = generate_keypair(1);
    let player2 = generate_keypair(2);

    create_test_game(&env, &mut store, &player1, &player2, 1).unwrap();
    let tiles: [u32; 9] = [0, 1, 4, 8, 5, 3, 6, 2, 7];
    let mut game = get_game(&store, 1).unwrap();
    let mut current_is_one = true;
    for tile in tiles {
        let current = if current_is_one { &player1 } else { &player2 };
        game = create_test_play(&env, &mut store, current, 1, tile).unwrap();
        current_is_one = !current_is_one;
    }

    assert_eq!(game.status, Status::Finished);
    assert_eq!(game.winner, Winner::Neither);
}

#[test]
fn test_replay_signature_after_finish_fails() {
    let env = host_env();
    let mut store = GameStore::new();
    let player_a = generate_keypair(3);
    let player_b = generate_keypair(4);

    create_test_game(&env, &mut store, &player_a, &player_b, 7).unwrap();

    // Player B's second move: keep the exact signed message and proof around.
    let replay_msg = TicTacToeMessage::Play(PlayMessage { game_id: 7, tile: 5 });
    let replay_proof = signed_proof(&player_b, &replay_msg);

    create_test_play(&env, &mut store, &player_a, 7, 0).unwrap();
    create_test_play(&env, &mut store, &player_b, 7, 4).unwrap();
    create_test_play(&env, &mut store, &player_a, 7, 1).unwrap();
    let accepted =
        TicTacToeContract::play_game(&env, &mut store, &replay_proof, &replay_msg).unwrap();
    assert_eq!(accepted.tile_5, Sign::O);
    let finished = create_test_play(&env, &mut store, &player_a, 7, 2).unwrap();
    assert_eq!(finished.status, Status::Finished);

    // The signature is still valid, but the finished game rejects the move.
    let replayed = TicTacToeContract::play_game(&env, &mut store, &replay_proof, &replay_msg);
    assert_eq!(replayed.unwrap_err(), Error::Game(GameError::GameFinished));
    let unchanged = get_game(&store, 7).unwrap();
    assert_eq!(unchanged.status, Status::Finished);
    assert_eq!(unchanged.winner, Winner::Player1);
}

#[test]
fn test_failed_play_leaves_store_unchanged() {
    let env = host_env();
    let mut store = GameStore::new();
    let player1 = generate_keypair(1);
    let player2 = generate_keypair(2);

    create_test_game(&env, &mut store, &player1, &player2, 1).unwrap();
    create_test_play(&env, &mut store, &player1, 1, 0).unwrap();
    let before = get_game(&store, 1).unwrap();

    // Out of turn, occupied tile, bad index: none of these may mutate.
    create_test_play(&env, &mut store, &player1, 1, 1).unwrap_err();
    create_test_play(&env, &mut store, &player2, 1, 0).unwrap_err();
    create_test_play(&env, &mut store, &player2, 1, 9).unwrap_err();

    let after = get_game(&store, 1).unwrap();
    assert_eq!(after.turn, before.turn);
    assert_eq!(after.tile_0, before.tile_0);
    assert_eq!(after.tile_1, before.tile_1);
    assert_eq!(after.status, before.status);
}

#[test]
fn test_invoker_proof_identifies_caller() {
    let invoker_key = generate_keypair(9);
    let env = HostEnv { invoker: identity_of(&invoker_key), accounts: vec![] };
    let mut store = GameStore::new();
    let player2 = generate_keypair(2);

    let msg = TicTacToeMessage::Setup(SetupMessage { game_id: 5 });
    let proof_one = AuthorizationProof::Invoker;
    let proof_two = signed_proof(&player2, &msg);
    let game = TicTacToeContract::setup_game(&env, &mut store, &proof_one, &proof_two, &msg)
        .unwrap();
    assert_eq!(game.player_one.bytes, identity_of(&invoker_key).bytes);
}
