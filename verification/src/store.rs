use vstd::prelude::*;
use crate::Game;

verus! {

struct StoredGame {
    id: u32,
    game: Game,
}

/// The persisted table of game records, keyed by game id, with
/// read-after-write consistency: a `get` sees the latest `set` of its key.
pub struct GameStore {
    entries: Vec<StoredGame>,
}

spec fn seq_get(s: Seq<StoredGame>, game_id: u32) -> Option<Game>
    decreases s.len(),
{
    if s.len() == 0 {
        Option::None
    } else if s.last().id == game_id {
        Option::Some(s.last().game)
    } else {
        seq_get(s.drop_last(), game_id)
    }
}

/// The record stored under `game_id`, if any: the one written by the latest
/// `set` of that key.
pub closed spec fn spec_get(store: GameStore, game_id: u32) -> Option<Game> {
    seq_get(store.entries@, game_id)
}

impl GameStore {
    /// An empty store: no id holds a record.
    pub fn new() -> (r: GameStore)
        ensures
            forall|k: u32| spec_get(r, k) is None,
    {
        GameStore { entries: Vec::new() }
    }

    /// Whether a record is stored under `game_id`.
    pub fn has(&self, game_id: u32) -> (r: bool)
        ensures
            r == (spec_get(*self, game_id) is Some),
    {
        self.get(game_id).is_some()
    }

    /// The record stored under `game_id`, if any.
    pub fn get(&self, game_id: u32) -> (r: Option<Game>)
        ensures
            r == spec_get(*self, game_id),
    {
        let ghost s = self.entries@;
        let n = self.entries.len();
        let mut i: usize = n;
        proof {
            assert(s.take(n as int) =~= s);
        }
        while i > 0
            invariant
                i <= n,
                n == s.len(),
                s == self.entries@,
                seq_get(s, game_id) == seq_get(s.take(i as int), game_id),
            decreases i,
        {
            i = i - 1;
            proof {
                assert(s.take(i as int + 1).last() == s[i as int]);
                assert(s.take(i as int + 1).drop_last() =~= s.take(i as int));
            }
            if self.entries[i].id == game_id {
                return Some(self.entries[i].game);
            }
        }
        None
    }

    /// Stores `game` under `game_id`, replacing any earlier record of that
    /// key and leaving every other key as it was.
    pub fn set(&mut self, game_id: u32, game: Game)
        ensures
            forall|k: u32|
                spec_get(*final(self), k) == (if k == game_id {
                    Option::Some(game)
                } else {
                    spec_get(*old(self), k)
                }),
    {
        self.entries.push(StoredGame { id: game_id, game });
        proof {
            assert(self.entries@.drop_last() =~= old(self).entries@);
            assert(self.entries@.last() == (StoredGame { id: game_id, game }));
        }
    }
}

} // verus!
