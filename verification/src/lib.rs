use vstd::prelude::*;

pub mod auth;
pub mod identity;
pub mod laws;
pub mod messages;
pub mod store;

verus! {

use crate::identity::Identity;
use crate::auth::AuthError;
use crate::auth::AuthorizationProof;
use crate::auth::HostEnv;
use crate::auth::PublicKeyTrait;
use crate::auth::account_resolvable;
use crate::auth::check_auth;
use crate::auth::spec_check_auth;
use crate::auth::spec_identity_of;
use crate::messages::TicTacToeMessage;
use crate::store::GameStore;
use crate::store::spec_get;

/// The occupant of one board cell.
#[derive(Clone, Copy, Debug, PartialEq, Eq, Structural)]
pub enum Sign {
    Empty,
    X,
    O,
}

/// Whether a game is still accepting moves.
#[derive(Clone, Copy, Debug, PartialEq, Eq, Structural)]
pub enum Status {
    Started,
    Finished,
}

/// Who won a finished game; `Neither` with `Finished` means a draw.
#[derive(Clone, Copy, Debug, PartialEq, Eq, Structural)]
pub enum Winner {
    Neither,
    Player1,
    Player2,
}

/// One tic-tac-toe game record: two bound players, a nine-cell board, whose
/// turn it is (`false` = player one), and the terminal state.
#[derive(Clone, Copy, Debug)]
pub struct Game {
    pub id: u32,
    pub player_one: Identity,
    pub player_two: Identity,
    pub turn: bool,
    pub tile_0: Sign,
    pub tile_1: Sign,
    pub tile_2: Sign,
    pub tile_3: Sign,
    pub tile_4: Sign,
    pub tile_5: Sign,
    pub tile_6: Sign,
    pub tile_7: Sign,
    pub tile_8: Sign,
    pub status: Status,
    pub winner: Winner,
}

/// The nine cells of the board, row by row.
pub open spec fn board(g: Game) -> Seq<Sign> {
    seq![g.tile_0, g.tile_1, g.tile_2, g.tile_3, g.tile_4, g.tile_5, g.tile_6, g.tile_7, g.tile_8]
}

/// The line through cells `i`, `j`, `k` is entirely occupied by `s`.
pub open spec fn line_won(b: Seq<Sign>, s: Sign, i: int, j: int, k: int) -> bool {
    b[i] == s && b[j] == s && b[k] == s
}

/// Some row, column or diagonal is entirely occupied by `s`.
pub open spec fn spec_has_won(b: Seq<Sign>, s: Sign) -> bool {
    ||| line_won(b, s, 0, 1, 2)
    ||| line_won(b, s, 3, 4, 5)
    ||| line_won(b, s, 6, 7, 8)
    ||| line_won(b, s, 0, 3, 6)
    ||| line_won(b, s, 1, 4, 7)
    ||| line_won(b, s, 2, 5, 8)
    ||| line_won(b, s, 0, 4, 8)
    ||| line_won(b, s, 2, 4, 6)
}

/// Every cell of the board is occupied.
pub open spec fn board_full(b: Seq<Sign>) -> bool {
    forall|i: int| 0 <= i < 9 ==> b[i] != Sign::Empty
}

/// Decides whether `sign` occupies one of the eight winning lines: the three
/// rows, the three columns, or the two diagonals.
pub fn has_won(game: &Game, sign: &Sign) -> (r: bool)
    ensures
        r == spec_has_won(board(*game), *sign),
{
    let s = *sign;
    let r = (game.tile_0 == s && game.tile_1 == s && game.tile_2 == s)
        || (game.tile_3 == s && game.tile_4 == s && game.tile_5 == s)
        || (game.tile_6 == s && game.tile_7 == s && game.tile_8 == s)
        || (game.tile_0 == s && game.tile_3 == s && game.tile_6 == s)
        || (game.tile_1 == s && game.tile_4 == s && game.tile_7 == s)
        || (game.tile_2 == s && game.tile_5 == s && game.tile_8 == s)
        || (game.tile_0 == s && game.tile_4 == s && game.tile_8 == s)
        || (game.tile_2 == s && game.tile_4 == s && game.tile_6 == s);
    r
}

/// Why a game operation was rejected.
#[derive(Clone, Copy, Debug, PartialEq, Eq, Structural)]
pub enum GameError {
    GameAlreadyExists,
    GameNotFound,
    DuplicatePlayers,
    GameFinished,
    InvalidPlayerOrTurn,
    InvalidTileIndex,
    TileOccupied,
}

/// Any failure of a game operation: the proof did not authorize the message,
/// or the request itself was illegal.
#[derive(Clone, Copy, Debug, PartialEq, Eq, Structural)]
pub enum Error {
    Auth(AuthError),
    Game(GameError),
}

/// The occupant of cell `tile`.
pub open spec fn cell(g: Game, tile: int) -> Sign {
    board(g)[tile]
}

/// The record a setup creates: both players bound, player one to move, the
/// board empty, the game open.
pub open spec fn initial_game(id: u32, p1: Identity, p2: Identity) -> Game {
    Game {
        id,
        player_one: p1,
        player_two: p2,
        turn: false,
        tile_0: Sign::Empty,
        tile_1: Sign::Empty,
        tile_2: Sign::Empty,
        tile_3: Sign::Empty,
        tile_4: Sign::Empty,
        tile_5: Sign::Empty,
        tile_6: Sign::Empty,
        tile_7: Sign::Empty,
        tile_8: Sign::Empty,
        status: Status::Started,
        winner: Winner::Neither,
    }
}

/// The game with cell `tile` set to `s` and all else unchanged.
pub open spec fn with_cell(g: Game, tile: int, s: Sign) -> Game {
    if tile == 0 {
        Game { tile_0: s, ..g }
    } else if tile == 1 {
        Game { tile_1: s, ..g }
    } else if tile == 2 {
        Game { tile_2: s, ..g }
    } else if tile == 3 {
        Game { tile_3: s, ..g }
    } else if tile == 4 {
        Game { tile_4: s, ..g }
    } else if tile == 5 {
        Game { tile_5: s, ..g }
    } else if tile == 6 {
        Game { tile_6: s, ..g }
    } else if tile == 7 {
        Game { tile_7: s, ..g }
    } else {
        Game { tile_8: s, ..g }
    }
}

/// One accepted move: `s` takes cell `tile`, the turn flips, and the game
/// ends if that completes a line for `s` (the mover's slot wins) or fills the
/// board (a draw, `winner` stays `Neither`).
pub open spec fn apply_move(g: Game, tile: int, s: Sign) -> Game {
    let moved = Game { turn: !g.turn, ..with_cell(g, tile, s) };
    if spec_has_won(board(moved), s) {
        Game {
            status: Status::Finished,
            winner: (if s == Sign::X {
                Winner::Player1
            } else {
                Winner::Player2
            }),
            ..moved
        }
    } else if board_full(board(moved)) {
        Game { status: Status::Finished, winner: Winner::Neither, ..moved }
    } else {
        moved
    }
}

/// The outcome of looking a game up: the stored record, or `GameNotFound`.
pub open spec fn spec_get_game(store: GameStore, game_id: u32) -> Result<Game, Error> {
    match spec_get(store, game_id) {
        Option::Some(g) => Result::Ok(g),
        Option::None => Result::Err(Error::Game(GameError::GameNotFound)),
    }
}

/// The outcome of a setup request, in the order the checks run: both proofs
/// must authorize the identical message, the two identities must differ, and
/// the game id must be fresh; then the new record is created.
pub open spec fn spec_setup(
    env: HostEnv,
    store: GameStore,
    auth_one: AuthorizationProof,
    auth_two: AuthorizationProof,
    msg: TicTacToeMessage,
) -> Result<Game, Error>
    recommends
        msg is Setup,
{
    match msg {
        TicTacToeMessage::Setup(sm) => match spec_check_auth(env, auth_one, msg) {
            Result::Err(e) => Result::Err(Error::Auth(e)),
            Result::Ok(_) => match spec_check_auth(env, auth_two, msg) {
                Result::Err(e) => Result::Err(Error::Auth(e)),
                Result::Ok(_) => {
                    let p1 = spec_identity_of(env, auth_one);
                    let p2 = spec_identity_of(env, auth_two);
                    if p1@ == p2@ {
                        Result::Err(Error::Game(GameError::DuplicatePlayers))
                    } else if spec_get(store, sm.game_id) is Some {
                        Result::Err(Error::Game(GameError::GameAlreadyExists))
                    } else {
                        Result::Ok(initial_game(sm.game_id, p1, p2))
                    }
                },
            },
        },
        TicTacToeMessage::Play(_) => vstd::pervasive::arbitrary(),
    }
}

/// The outcome of a play request, in the order the checks run: the proof must
/// authorize the message; the game must exist and still be open; the mover
/// must be the player whose turn it is (player one moves X when `turn` is
/// false, player two moves O when it is true); the tile must be on the board
/// and empty. Then the move is applied.
pub open spec fn spec_play(
    env: HostEnv,
    store: GameStore,
    auth: AuthorizationProof,
    msg: TicTacToeMessage,
) -> Result<Game, Error>
    recommends
        msg is Play,
{
    match msg {
        TicTacToeMessage::Play(pm) => match spec_check_auth(env, auth, msg) {
            Result::Err(e) => Result::Err(Error::Auth(e)),
            Result::Ok(_) => match spec_get(store, pm.game_id) {
                Option::None => Result::Err(Error::Game(GameError::GameNotFound)),
                Option::Some(g) => {
                    if g.status == Status::Finished {
                        Result::Err(Error::Game(GameError::GameFinished))
                    } else {
                        let mover = spec_identity_of(env, auth);
                        let moves_x = mover@ == g.player_one@ && !g.turn;
                        let moves_o = mover@ == g.player_two@ && g.turn;
                        if !moves_x && !moves_o {
                            Result::Err(Error::Game(GameError::InvalidPlayerOrTurn))
                        } else if pm.tile >= 9 {
                            Result::Err(Error::Game(GameError::InvalidTileIndex))
                        } else if cell(g, pm.tile as int) != Sign::Empty {
                            Result::Err(Error::Game(GameError::TileOccupied))
                        } else {
                            Result::Ok(
                                apply_move(g, pm.tile as int, (if moves_x {
                                    Sign::X
                                } else {
                                    Sign::O
                                })),
                            )
                        }
                    }
                },
            },
        },
        TicTacToeMessage::Setup(_) => vstd::pervasive::arbitrary(),
    }
}

/// Loads the game stored under `game_id`.
pub fn get_game(store: &GameStore, game_id: u32) -> (r: Result<Game, Error>)
    ensures
        r == spec_get_game(*store, game_id),
{
    match store.get(game_id) {
        Some(g) => Ok(g),
        None => Err(Error::Game(GameError::GameNotFound)),
    }
}

fn get_cell(game: &Game, tile: u32) -> (r: Sign)
    requires
        tile < 9,
    ensures
        r == cell(*game, tile as int),
{
    match tile {
        0 => game.tile_0,
        1 => game.tile_1,
        2 => game.tile_2,
        3 => game.tile_3,
        4 => game.tile_4,
        5 => game.tile_5,
        6 => game.tile_6,
        7 => game.tile_7,
        8 => game.tile_8,
        _ => vstd::pervasive::unreached(),
    }
}

fn set_cell(game: &mut Game, tile: u32, s: Sign)
    requires
        tile < 9,
    ensures
        *final(game) == with_cell(*old(game), tile as int, s),
{
    match tile {
        0 => game.tile_0 = s,
        1 => game.tile_1 = s,
        2 => game.tile_2 = s,
        3 => game.tile_3 = s,
        4 => game.tile_4 = s,
        5 => game.tile_5 = s,
        6 => game.tile_6 = s,
        7 => game.tile_7 = s,
        _ => game.tile_8 = s,
    }
}

fn board_is_full(game: &Game) -> (r: bool)
    ensures
        r == board_full(board(*game)),
{
    let r = game.tile_0 != Sign::Empty && game.tile_1 != Sign::Empty && game.tile_2 != Sign::Empty
        && game.tile_3 != Sign::Empty && game.tile_4 != Sign::Empty && game.tile_5 != Sign::Empty
        && game.tile_6 != Sign::Empty && game.tile_7 != Sign::Empty && game.tile_8 != Sign::Empty;
    proof {
        if r {
            assert forall|i: int| 0 <= i < 9 implies board(*game)[i] != Sign::Empty by {
                if i == 0 {
                    assert(board(*game)[0] == game.tile_0);
                } else if i == 1 {
                    assert(board(*game)[1] == game.tile_1);
                } else if i == 2 {
                    assert(board(*game)[2] == game.tile_2);
                } else if i == 3 {
                    assert(board(*game)[3] == game.tile_3);
                } else if i == 4 {
                    assert(board(*game)[4] == game.tile_4);
                } else if i == 5 {
                    assert(board(*game)[5] == game.tile_5);
                } else if i == 6 {
                    assert(board(*game)[6] == game.tile_6);
                } else if i == 7 {
                    assert(board(*game)[7] == game.tile_7);
                } else {
                    assert(board(*game)[8] == game.tile_8);
                }
            }
        } else {
            assert(board(*game)[0] == game.tile_0);
            assert(board(*game)[1] == game.tile_1);
            assert(board(*game)[2] == game.tile_2);
            assert(board(*game)[3] == game.tile_3);
            assert(board(*game)[4] == game.tile_4);
            assert(board(*game)[5] == game.tile_5);
            assert(board(*game)[6] == game.tile_6);
            assert(board(*game)[7] == game.tile_7);
            assert(board(*game)[8] == game.tile_8);
        }
    }
    r
}

/// The two exposed transitions of the state machine: creating a game and
/// advancing it by one authorized move.
pub struct TicTacToeContract;

impl TicTacToeContract {
    /// Creates the game `msg` names, after both proofs authorize that exact
    /// message: the two identities become the players, distinct and bound
    /// for good, and the id must not be in use. On any failure the store is
    /// untouched.
    pub fn setup_game(
        env: &HostEnv,
        store: &mut GameStore,
        player_one_auth: &AuthorizationProof,
        player_two_auth: &AuthorizationProof,
        msg: &TicTacToeMessage,
    ) -> (r: Result<Game, Error>)
        requires
            *msg is Setup,
            account_resolvable(*env, *player_one_auth),
            account_resolvable(*env, *player_two_auth),
        ensures
            r == spec_setup(*env, *old(store), *player_one_auth, *player_two_auth, *msg),
            (match r {
                Result::Ok(g) => forall|k: u32|
                    spec_get(*final(store), k) == (if k == g.id {
                        Option::Some(g)
                    } else {
                        spec_get(*old(store), k)
                    }),
                Result::Err(_) => *final(store) == *old(store),
            }),
    {
        let setup_msg = match msg {
            TicTacToeMessage::Setup(s) => *s,
            TicTacToeMessage::Play(_) => vstd::pervasive::unreached(),
        };

        if let Err(e) = check_auth(env, player_one_auth, msg) {
            return Err(Error::Auth(e));
        }
        if let Err(e) = check_auth(env, player_two_auth, msg) {
            return Err(Error::Auth(e));
        }

        let player_one_public_key = player_one_auth.get_public_key(env);
        let player_two_public_key = player_two_auth.get_public_key(env);
        if player_one_public_key == player_two_public_key {
            return Err(Error::Game(GameError::DuplicatePlayers));
        }

        if store.has(setup_msg.game_id) {
            return Err(Error::Game(GameError::GameAlreadyExists));
        }

        let game = Game {
            id: setup_msg.game_id,
            player_one: player_one_public_key,
            player_two: player_two_public_key,
            turn: false,
            tile_0: Sign::Empty,
            tile_1: Sign::Empty,
            tile_2: Sign::Empty,
            tile_3: Sign::Empty,
            tile_4: Sign::Empty,
            tile_5: Sign::Empty,
            tile_6: Sign::Empty,
            tile_7: Sign::Empty,
            tile_8: Sign::Empty,
            status: Status::Started,
            winner: Winner::Neither,
        };

        store.set(setup_msg.game_id, game);

        Ok(game)
    }

    /// Loads the game stored under `game_id`.
    pub fn get_game(store: &GameStore, game_id: u32) -> (r: Result<Game, Error>)
        ensures
            r == spec_get_game(*store, game_id),
    {
        get_game(store, game_id)
    }

    /// Applies the move `msg` names, after the proof authorizes that exact
    /// message and the move is legal: right game, still open, right player
    /// on the right turn, a free tile on the board. On any failure the store
    /// is untouched; on success exactly the moved game's record changes.
    pub fn play_game(
        env: &HostEnv,
        store: &mut GameStore,
        player: &AuthorizationProof,
        msg: &TicTacToeMessage,
    ) -> (r: Result<Game, Error>)
        requires
            *msg is Play,
            account_resolvable(*env, *player),
        ensures
            r == spec_play(*env, *old(store), *player, *msg),
            (match r {
                Result::Ok(g) => forall|k: u32|
                    spec_get(*final(store), k) == (if k == g.id {
                        Option::Some(g)
                    } else {
                        spec_get(*old(store), k)
                    }),
                Result::Err(_) => *final(store) == *old(store),
            }),
    {
        let play_msg = match msg {
            TicTacToeMessage::Play(p) => *p,
            TicTacToeMessage::Setup(_) => vstd::pervasive::unreached(),
        };

        if let Err(e) = check_auth(env, player, msg) {
            return Err(Error::Auth(e));
        }

        let mut game = match store.get(play_msg.game_id) {
            Some(g) => g,
            None => {
                return Err(Error::Game(GameError::GameNotFound));
            }
        };

        if game.status == Status::Finished {
            return Err(Error::Game(GameError::GameFinished));
        }

        let player_id = player.get_public_key(env);
        let sign: Sign;
        if player_id == game.player_one && !game.turn {
            sign = Sign::X;
        } else if player_id == game.player_two && game.turn {
            sign = Sign::O;
        } else {
            return Err(Error::Game(GameError::InvalidPlayerOrTurn));
        }

        if play_msg.tile >= 9 {
            return Err(Error::Game(GameError::InvalidTileIndex));
        }
        if get_cell(&game, play_msg.tile) != Sign::Empty {
            return Err(Error::Game(GameError::TileOccupied));
        }

        let ghost loaded = game;
        set_cell(&mut game, play_msg.tile, sign);
        game.turn = !game.turn;
        proof {
            assert(game == (Game {
                turn: !loaded.turn,
                ..with_cell(loaded, play_msg.tile as int, sign)
            }));
        }

        if has_won(&game, &sign) {
            game.winner = if sign == Sign::X {
                Winner::Player1
            } else {
                Winner::Player2
            };
            game.status = Status::Finished;
        } else if board_is_full(&game) {
            game.status = Status::Finished;
            game.winner = Winner::Neither;
        }

        store.set(game.id, game);

        Ok(game)
    }
}

} // verus!
