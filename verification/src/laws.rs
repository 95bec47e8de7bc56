use vstd::prelude::*;
use crate::Error;
use crate::Game;
use crate::GameError;
use crate::Sign;
use crate::Status;
use crate::Winner;
use crate::apply_move;
use crate::board;
use crate::board_full;
use crate::cell;
use crate::spec_has_won;
use crate::spec_play;
use crate::spec_setup;
use crate::auth::AuthorizationProof;
use crate::auth::HostEnv;
use crate::auth::spec_check_auth;
use crate::auth::spec_identity_of;
use crate::messages::PlayMessage;
use crate::messages::TicTacToeMessage;
use crate::store::GameStore;
use crate::store::spec_get;

verus! {

/// A game a setup creates always binds two distinct players, and an
/// authorized setup whose two proofs speak for one and the same identity is
/// rejected with `DuplicatePlayers`.
pub proof fn lemma_setup_distinct_players(
    env: HostEnv,
    store: GameStore,
    auth_one: AuthorizationProof,
    auth_two: AuthorizationProof,
    msg: TicTacToeMessage,
)
    requires
        msg is Setup,
    ensures
        spec_setup(env, store, auth_one, auth_two, msg) matches Result::Ok(g) ==> g.player_one@
            != g.player_two@,
        (spec_check_auth(env, auth_one, msg) is Ok && spec_check_auth(env, auth_two, msg) is Ok
            && spec_identity_of(env, auth_one)@ == spec_identity_of(env, auth_two)@) ==> spec_setup(
            env,
            store,
            auth_one,
            auth_two,
            msg,
        ) == Result::<Game, Error>::Err(Error::Game(GameError::DuplicatePlayers)),
{
}

/// Setting up a game id that is already stored fails with
/// `GameAlreadyExists`, whichever distinct authorized players ask for it.
pub proof fn lemma_setup_rejects_existing_id(
    env: HostEnv,
    store: GameStore,
    auth_one: AuthorizationProof,
    auth_two: AuthorizationProof,
    msg: TicTacToeMessage,
)
    requires
        spec_check_auth(env, auth_one, msg) is Ok,
        spec_check_auth(env, auth_two, msg) is Ok,
        spec_identity_of(env, auth_one)@ != spec_identity_of(env, auth_two)@,
        (msg matches TicTacToeMessage::Setup(sm) && spec_get(store, sm.game_id) is Some),
    ensures
        spec_setup(env, store, auth_one, auth_two, msg) == Result::<Game, Error>::Err(
            Error::Game(GameError::GameAlreadyExists),
        ),
{
}

/// Each accepted move flips whose turn it is, so turns strictly alternate
/// over any run of accepted moves.
pub proof fn lemma_play_alternates_turn(
    env: HostEnv,
    store: GameStore,
    auth: AuthorizationProof,
    pm: PlayMessage,
    g: Game,
)
    requires
        spec_get(store, pm.game_id) == Option::Some(g),
    ensures
        spec_play(env, store, auth, TicTacToeMessage::Play(pm)) matches Result::Ok(g2) ==> g2.turn
            == !g.turn,
{
}

/// An authorized move on an open game by anyone but the player whose turn it
/// is — the other player, or a stranger to the game — is rejected with
/// `InvalidPlayerOrTurn`.
pub proof fn lemma_play_rejects_wrong_turn(
    env: HostEnv,
    store: GameStore,
    auth: AuthorizationProof,
    pm: PlayMessage,
    g: Game,
)
    requires
        spec_get(store, pm.game_id) == Option::Some(g),
        spec_check_auth(env, auth, TicTacToeMessage::Play(pm)) is Ok,
        g.status == Status::Started,
        !(spec_identity_of(env, auth)@ == g.player_one@ && !g.turn),
        !(spec_identity_of(env, auth)@ == g.player_two@ && g.turn),
    ensures
        spec_play(env, store, auth, TicTacToeMessage::Play(pm)) == Result::<Game, Error>::Err(
            Error::Game(GameError::InvalidPlayerOrTurn),
        ),
{
}

/// An authorized move by the right player on the right turn still fails on a
/// bad tile: an index off the board with `InvalidTileIndex`, an occupied cell
/// with `TileOccupied`.
pub proof fn lemma_play_rejects_bad_tile(
    env: HostEnv,
    store: GameStore,
    auth: AuthorizationProof,
    pm: PlayMessage,
    g: Game,
)
    requires
        spec_get(store, pm.game_id) == Option::Some(g),
        spec_check_auth(env, auth, TicTacToeMessage::Play(pm)) is Ok,
        g.status == Status::Started,
        (spec_identity_of(env, auth)@ == g.player_one@ && !g.turn) || (spec_identity_of(env, auth)@
            == g.player_two@ && g.turn),
    ensures
        pm.tile >= 9 ==> spec_play(env, store, auth, TicTacToeMessage::Play(pm)) == Result::<
            Game,
            Error,
        >::Err(Error::Game(GameError::InvalidTileIndex)),
        (pm.tile < 9 && cell(g, pm.tile as int) != Sign::Empty) ==> spec_play(
            env,
            store,
            auth,
            TicTacToeMessage::Play(pm),
        ) == Result::<Game, Error>::Err(Error::Game(GameError::TileOccupied)),
{
}

/// A move that fills the last cell without completing a line for the mover
/// ends the game as a draw: `Finished` with no winner.
pub proof fn lemma_full_board_is_draw(g: Game, tile: int, s: Sign)
    requires
        0 <= tile < 9,
        board_full(board(apply_move(g, tile, s))),
        !spec_has_won(board(apply_move(g, tile, s)), s),
    ensures
        apply_move(g, tile, s).status == Status::Finished,
        apply_move(g, tile, s).winner == Winner::Neither,
{
}

/// A winning move ends the game in the mover's favour: `Finished`, with the
/// winner slot of whoever placed the completing sign.
pub proof fn lemma_winning_move_finishes(g: Game, tile: int, s: Sign)
    requires
        0 <= tile < 9,
        spec_has_won(board(apply_move(g, tile, s)), s),
    ensures
        apply_move(g, tile, s).status == Status::Finished,
        apply_move(g, tile, s).winner == (if s == Sign::X {
            Winner::Player1
        } else {
            Winner::Player2
        }),
{
}

/// Replaying any proof — an already-used valid signature included — against
/// a game that has reached `Finished` fails with `GameFinished` and cannot
/// re-apply the move.
pub proof fn lemma_finished_game_rejects_replay(
    env: HostEnv,
    store: GameStore,
    auth: AuthorizationProof,
    pm: PlayMessage,
    g: Game,
)
    requires
        spec_get(store, pm.game_id) == Option::Some(g),
        g.status == Status::Finished,
        spec_check_auth(env, auth, TicTacToeMessage::Play(pm)) is Ok,
    ensures
        spec_play(env, store, auth, TicTacToeMessage::Play(pm)) == Result::<Game, Error>::Err(
            Error::Game(GameError::GameFinished),
        ),
{
}

/// Once finished, a game can never return to `Started`: every accepted move
/// leaves an open game, and a finished game accepts no move at all.
pub proof fn lemma_finished_is_terminal(
    env: HostEnv,
    store: GameStore,
    auth: AuthorizationProof,
    pm: PlayMessage,
    g: Game,
)
    requires
        spec_get(store, pm.game_id) == Option::Some(g),
        g.status == Status::Finished,
    ensures
        spec_play(env, store, auth, TicTacToeMessage::Play(pm)) is Err,
{
}

} // verus!
