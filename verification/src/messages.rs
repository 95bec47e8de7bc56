use vstd::prelude::*;

verus! {

/// A request to create a fresh game under `game_id`.
#[derive(Clone, Copy, Debug, PartialEq, Eq, Structural)]
pub struct SetupMessage {
    pub game_id: u32,
}

/// A request to place the mover's sign on `tile` (0..=8) of game `game_id`.
#[derive(Clone, Copy, Debug, PartialEq, Eq, Structural)]
pub struct PlayMessage {
    pub game_id: u32,
    pub tile: u32,
}

/// The message a proof authorizes. The exact message is what gets signed: a
/// signature over one game id or tile validates no other.
#[derive(Clone, Copy, Debug, PartialEq, Eq, Structural)]
pub enum TicTacToeMessage {
    Setup(SetupMessage),
    Play(PlayMessage),
}

/// The byte encoding of a message: a tag byte telling setup from play,
/// followed by each field in little-endian order — every field that
/// determines what is being authorized.
pub open spec fn spec_serialize(msg: TicTacToeMessage) -> Seq<u8> {
    match msg {
        TicTacToeMessage::Setup(s) => seq![
            0u8,
            (s.game_id & 0xff) as u8,
            ((s.game_id >> 8) & 0xff) as u8,
            ((s.game_id >> 16) & 0xff) as u8,
            ((s.game_id >> 24) & 0xff) as u8,
        ],
        TicTacToeMessage::Play(p) => seq![
            1u8,
            (p.game_id & 0xff) as u8,
            ((p.game_id >> 8) & 0xff) as u8,
            ((p.game_id >> 16) & 0xff) as u8,
            ((p.game_id >> 24) & 0xff) as u8,
            (p.tile & 0xff) as u8,
            ((p.tile >> 8) & 0xff) as u8,
            ((p.tile >> 16) & 0xff) as u8,
            ((p.tile >> 24) & 0xff) as u8,
        ],
    }
}

fn push_u32_le(out: &mut Vec<u8>, x: u32)
    ensures
        final(out)@.len() == old(out)@.len() + 4,
        final(out)@ == old(out)@ + seq![
            (x & 0xff) as u8,
            ((x >> 8) & 0xff) as u8,
            ((x >> 16) & 0xff) as u8,
            ((x >> 24) & 0xff) as u8,
        ],
{
    out.push((x & 0xff) as u8);
    out.push(((x >> 8) & 0xff) as u8);
    out.push(((x >> 16) & 0xff) as u8);
    out.push(((x >> 24) & 0xff) as u8);
    proof {
        assert(out@ =~= old(out)@ + seq![
            (x & 0xff) as u8,
            ((x >> 8) & 0xff) as u8,
            ((x >> 16) & 0xff) as u8,
            ((x >> 24) & 0xff) as u8,
        ]);
    }
}

/// Encodes a message to the bytes that get signed.
pub fn serialize_message(msg: &TicTacToeMessage) -> (r: Vec<u8>)
    ensures
        r@ == spec_serialize(*msg),
{
    let mut out: Vec<u8> = Vec::new();
    match msg {
        TicTacToeMessage::Setup(s) => {
            out.push(0u8);
            push_u32_le(&mut out, s.game_id);
        }
        TicTacToeMessage::Play(p) => {
            out.push(1u8);
            push_u32_le(&mut out, p.game_id);
            push_u32_le(&mut out, p.tile);
        }
    }
    proof {
        assert(out@ =~= spec_serialize(*msg));
    }
    out
}

/// Two distinct messages never serialize to the same bytes, so a signature
/// over one request cannot be replayed against another.
pub proof fn lemma_serialize_injective(m1: TicTacToeMessage, m2: TicTacToeMessage)
    ensures
        spec_serialize(m1) == spec_serialize(m2) ==> m1 == m2,
{
    if spec_serialize(m1) == spec_serialize(m2) {
        match (m1, m2) {
            (TicTacToeMessage::Setup(s1), TicTacToeMessage::Setup(s2)) => {
                lemma_le_bytes_equal_values(s1.game_id, s2.game_id, spec_serialize(m1),
                    spec_serialize(m2), 1);
            }
            (TicTacToeMessage::Play(p1), TicTacToeMessage::Play(p2)) => {
                lemma_le_bytes_equal_values(p1.game_id, p2.game_id, spec_serialize(m1),
                    spec_serialize(m2), 1);
                lemma_le_bytes_equal_values(p1.tile, p2.tile, spec_serialize(m1),
                    spec_serialize(m2), 5);
            }
            (TicTacToeMessage::Setup(_), TicTacToeMessage::Play(_)) => {
                assert(spec_serialize(m1)[0] != spec_serialize(m2)[0]);
            }
            (TicTacToeMessage::Play(_), TicTacToeMessage::Setup(_)) => {
                assert(spec_serialize(m1)[0] != spec_serialize(m2)[0]);
            }
        }
    }
}

/// If the four little-endian bytes of `x` sit in `s1` at `at` and those of
/// `y` sit at the same place in an equal sequence `s2`, then `x == y`.
proof fn lemma_le_bytes_equal_values(x: u32, y: u32, s1: Seq<u8>, s2: Seq<u8>, at: int)
    requires
        s1 == s2,
        0 <= at,
        at + 4 <= s1.len(),
        s1[at] == (x & 0xff) as u8,
        s1[at + 1] == ((x >> 8) & 0xff) as u8,
        s1[at + 2] == ((x >> 16) & 0xff) as u8,
        s1[at + 3] == ((x >> 24) & 0xff) as u8,
        s2[at] == (y & 0xff) as u8,
        s2[at + 1] == ((y >> 8) & 0xff) as u8,
        s2[at + 2] == ((y >> 16) & 0xff) as u8,
        s2[at + 3] == ((y >> 24) & 0xff) as u8,
    ensures
        x == y,
{
    assert((x & 0xff) as u8 == (y & 0xff) as u8 && ((x >> 8) & 0xff) as u8 == ((y >> 8)
        & 0xff) as u8 && ((x >> 16) & 0xff) as u8 == ((y >> 16) & 0xff) as u8 && ((x >> 24)
        & 0xff) as u8 == ((y >> 24) & 0xff) as u8 ==> x == y) by (bit_vector);
}

} // verus!
