//! A verified tic-tac-toe game-state library: a 3x3 grid of cells, addressed
//! through validated coordinates, with occupancy-guarded placement, win
//! detection over the eight lines, and a lossless byte encoding of every
//! state.

use vstd::prelude::*;

pub mod board;
pub mod cell;

pub use board::Board;
pub use board::{spec_board_decode, spec_board_encode};
pub use cell::{Cell, CellIndex, InvalidIndexError};

verus! {

/// Which player completed a line: produced only by the board's win check.
#[derive(Clone, Copy, Debug, PartialEq, Eq, Structural)]
pub enum Winner {
    X,
    O,
}

/// Wire tag of a winner: X is 1, O is 2, matching the tags of their marks.
pub open spec fn spec_winner_tag(w: Winner) -> u8 {
    match w {
        Winner::X => 1,
        Winner::O => 2,
    }
}

/// The winner a wire tag stands for, when the tag is one of the two in use.
pub open spec fn spec_winner_from_tag(t: u8) -> Option<Winner> {
    if t == 1 {
        Some(Winner::X)
    } else if t == 2 {
        Some(Winner::O)
    } else {
        None
    }
}

/// Law: decoding a winner's tag gives the winner back.
pub proof fn lemma_winner_tag_round_trip(w: Winner)
    ensures
        spec_winner_from_tag(spec_winner_tag(w)) == Some(w),
{
}

impl Winner {
    /// This winner's wire tag.
    pub fn to_tag(self) -> (t: u8)
        ensures
            t == spec_winner_tag(self),
    {
        match self {
            Winner::X => 1,
            Winner::O => 2,
        }
    }

    /// The winner a wire tag stands for; `None` for an unknown tag.
    pub fn from_tag(t: u8) -> (r: Option<Winner>)
        ensures
            r == spec_winner_from_tag(t),
    {
        if t == 1 {
            Some(Winner::X)
        } else if t == 2 {
            Some(Winner::O)
        } else {
            None
        }
    }
}

/// A whole game as the caller owns it: the grid, whose turn it is, and the
/// winner once one exists. The board alone decides winners; keeping the turn
/// flag and the winner field up to date after each move is the caller's part.
#[derive(Clone, Copy, Debug, PartialEq, Eq)]
pub struct GameState {
    pub board: Board,
    pub is_x_turn: bool,
    pub winner: Option<Winner>,
}

impl Default for GameState {
    /// A new game: empty board, first player to move, nobody has won.
    fn default() -> (s: GameState)
        ensures
            s.board@.len() == 9,
            forall|i: int| 0 <= i < 9 ==> s.board@[i] == Cell::Empty,
            s.is_x_turn,
            s.winner is None,
    {
        GameState { board: Board::default(), is_x_turn: true, winner: None }
    }
}

/// Wire tag of an optional winner: 0 for none, else the winner's own tag.
pub open spec fn spec_winner_opt_tag(w: Option<Winner>) -> u8 {
    match w {
        None => 0,
        Some(p) => spec_winner_tag(p),
    }
}

/// The optional winner a wire tag stands for: 0 decodes to no winner, and an
/// unknown tag fails.
pub open spec fn spec_winner_opt_from_tag(t: u8) -> Option<Option<Winner>> {
    if t == 0 {
        Some(None)
    } else {
        match spec_winner_from_tag(t) {
            Some(p) => Some(Some(p)),
            None => None,
        }
    }
}

/// Wire form of a whole game: the nine cell tags, then the turn flag as one
/// byte, then the optional winner's tag.
pub open spec fn spec_state_encode(
    board: Seq<Cell>,
    is_x_turn: bool,
    winner: Option<Winner>,
) -> Seq<u8> {
    spec_board_encode(board) + seq![if is_x_turn { 1u8 } else { 0u8 }]
        + seq![spec_winner_opt_tag(winner)]
}

/// The game a wire form stands for, when it is eleven bytes whose parts all
/// decode.
pub open spec fn spec_state_decode(bytes: Seq<u8>) -> Option<(Seq<Cell>, bool, Option<Winner>)> {
    if bytes.len() == 11 && spec_board_decode(bytes.subrange(0, 9)) is Some && bytes[9] <= 1
        && spec_winner_opt_from_tag(bytes[10]) is Some {
        Some(
            (
                spec_board_decode(bytes.subrange(0, 9)).unwrap(),
                bytes[9] == 1,
                spec_winner_opt_from_tag(bytes[10]).unwrap(),
            ),
        )
    } else {
        None
    }
}

impl GameState {
    /// Encodes the whole game as eleven bytes.
    pub fn encode(&self) -> (bytes: Vec<u8>)
        ensures
            bytes@ == spec_state_encode(self.board@, self.is_x_turn, self.winner),
    {
        let mut bytes = self.board.encode();
        bytes.push(if self.is_x_turn { 1 } else { 0 });
        let winner_tag: u8 = match self.winner {
            None => 0,
            Some(w) => w.to_tag(),
        };
        bytes.push(winner_tag);
        proof {
            assert(bytes@ =~= spec_state_encode(self.board@, self.is_x_turn, self.winner));
        }
        bytes
    }

    /// Decodes eleven bytes back into a game; fails exactly on a wrong length
    /// or a part that does not decode.
    pub fn decode(bytes: &Vec<u8>) -> (r: Option<GameState>)
        ensures
            r is Some <==> spec_state_decode(bytes@) is Some,
            r matches Some(s) ==> Some((s.board@, s.is_x_turn, s.winner)) == spec_state_decode(
                bytes@,
            ),
    {
        if bytes.len() != 11 {
            return None;
        }
        let mut head: Vec<u8> = Vec::new();
        let mut i: usize = 0;
        while i < 9
            invariant
                i <= 9,
                bytes@.len() == 11,
                head@.len() == i,
                forall|j: int| 0 <= j < i ==> #[trigger] head@[j] == bytes@[j],
            decreases 9 - i,
        {
            head.push(bytes[i]);
            i = i + 1;
        }
        proof {
            assert(head@ =~= bytes@.subrange(0, 9));
        }
        let board = match Board::decode(&head) {
            Some(b) => b,
            None => {
                return None;
            },
        };
        let turn_tag = bytes[9];
        if turn_tag > 1 {
            return None;
        }
        let winner_tag = bytes[10];
        let winner: Option<Winner> = if winner_tag == 0 {
            None
        } else {
            match Winner::from_tag(winner_tag) {
                Some(w) => Some(w),
                None => {
                    return None;
                },
            }
        };
        Some(GameState { board, is_x_turn: turn_tag == 1, winner })
    }
}

/// Law: decoding an encoded game gives the game back, for every full grid,
/// either turn, and any winner state.
pub proof fn lemma_state_codec_round_trip(
    board: Seq<Cell>,
    is_x_turn: bool,
    winner: Option<Winner>,
)
    requires
        board.len() == 9,
    ensures
        spec_state_decode(spec_state_encode(board, is_x_turn, winner)) == Some(
            (board, is_x_turn, winner),
        ),
{
    let bytes = spec_state_encode(board, is_x_turn, winner);
    assert(bytes.subrange(0, 9) =~= spec_board_encode(board));
    board::lemma_board_codec_round_trip(board);
    if let Some(p) = winner {
        lemma_winner_tag_round_trip(p);
    }
}

} // verus!
