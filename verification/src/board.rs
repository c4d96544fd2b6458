//! The board model: an exclusive mapping from coordinate to occupant.
//!
//! A coordinate is a (file, rank) pair, each in [1, 8]. The board owns the
//! initial setup, occupancy queries, and piece relocation; absence of a
//! coordinate means the square is empty.

use std::collections::HashMap;

use vstd::prelude::*;

use crate::pieces::{Piece, Team};

verus! {

/// Whether a coordinate names a real square: file and rank both in [1, 8].
pub open spec fn in_range(c: (u8, u8)) -> bool {
    1 <= c.0 <= 8 && 1 <= c.1 <= 8
}

/// Packs a coordinate into the key type of the board's map. Injective over
/// all (u8, u8) pairs.
pub open spec fn key_of(c: (u8, u8)) -> u64 {
    (c.0 as int * 256 + c.1 as int) as u64
}

/// The coordinate a packed key stands for.
pub open spec fn coord_of(k: u64) -> (u8, u8) {
    ((k / 256) as u8, (k % 256) as u8)
}

/// Packing a coordinate and unpacking it gives the coordinate back, so the
/// packing is injective.
pub broadcast proof fn lemma_coord_of_key_of(c: (u8, u8))
    ensures
        coord_of(#[trigger] key_of(c)) == c,
{
    let f = c.0 as u64;
    let r = c.1 as u64;
    assert((f * 256 + r) / 256 == f && (f * 256 + r) % 256 == r) by (nonlinear_arith)
        requires
            f <= 255,
            r <= 255,
    ;
}

/// The occupant as it stands after being relocated: a pawn's `has_moved`
/// flag is forced to true, every other piece is carried unchanged.
pub open spec fn moved_piece(pt: (Piece, Team)) -> (Piece, Team) {
    match pt.0 {
        Piece::Pawn(_) => (Piece::Pawn(true), pt.1),
        _ => pt,
    }
}

/// The occupant of square `c` after relocating the piece at `pos` to
/// `new_pos` on a board whose occupancy was `before`.
pub open spec fn relocated_occ(before: Board, pos: (u8, u8), new_pos: (u8, u8), c: (u8, u8)) -> Option<(Piece, Team)> {
    if c == new_pos {
        match before.occ(pos) {
            Some(pt) => Some(moved_piece(pt)),
            None => None,
        }
    } else if c == pos {
        None
    } else {
        before.occ(c)
    }
}

/// Whether `after` is exactly `before` with the piece at `pos` relocated to
/// `new_pos`: the source square is emptied, the destination holds the moved
/// piece, every other square is untouched, and any prior occupant of the
/// destination is discarded.
pub open spec fn board_relocated(before: Board, after: Board, pos: (u8, u8), new_pos: (u8, u8)) -> bool {
    forall |c: (u8, u8)| #[trigger] after.occ(c) == relocated_occ(before, pos, new_pos, c)
}

/// The piece kind that starts on a back rank at the given file: Towers at
/// the corners, then Bishops, then Knights, the King at file 4 and the
/// Queen at file 5.
pub open spec fn back_rank_piece(file: u8) -> Piece {
    if file == 1 || file == 8 {
        Piece::Tower
    } else if file == 2 || file == 7 {
        Piece::Bishop
    } else if file == 3 || file == 6 {
        Piece::Knight
    } else if file == 4 {
        Piece::King
    } else {
        Piece::Queen
    }
}

/// The occupant each square holds at the start of a session: Black's back
/// pieces on rank 1 and pawns on rank 2, mirrored for White on ranks 8
/// and 7; everything else is empty.
pub open spec fn initial_occupant(c: (u8, u8)) -> Option<(Piece, Team)> {
    if !in_range(c) {
        None
    } else if c.1 == 1 {
        Some((back_rank_piece(c.0), Team::Black))
    } else if c.1 == 2 {
        Some((Piece::Pawn(false), Team::Black))
    } else if c.1 == 7 {
        Some((Piece::Pawn(false), Team::White))
    } else if c.1 == 8 {
        Some((back_rank_piece(c.0), Team::White))
    } else {
        None
    }
}

/// An exclusive mapping from coordinate to (piece, side). At most one
/// occupant per coordinate; a coordinate that is absent is an empty square.
pub struct Board {
    map: HashMap<u64, (Piece, Team)>,
}

impl Board {
    /// The occupant of square `c`, or `None` if the square is empty.
    pub closed spec fn occ(self, c: (u8, u8)) -> Option<(Piece, Team)> {
        if self.map@.contains_key(key_of(c)) {
            Some(self.map@[key_of(c)])
        } else {
            None
        }
    }

    /// How many squares are occupied.
    pub closed spec fn spec_len(self) -> nat {
        self.map@.dom().len()
    }

    /// Every key the board holds stands for an in-range coordinate, so no
    /// piece ever sits outside the 8x8 grid.
    pub closed spec fn wf(self) -> bool {
        forall |k: u64| #[trigger] self.map@.dom().contains(k)
            ==> in_range(coord_of(k)) && k == key_of(coord_of(k))
    }

    /// Deterministic initial setup: for each side, Towers at files 1 and 8,
    /// Bishops at 2 and 7, Knights at 3 and 6, the King at file 4 and the
    /// Queen at file 5 on the side's back rank, and eight unmoved pawns on
    /// its second rank. Black occupies ranks 1 and 2, White ranks 7 and 8.
    pub fn construct_board() -> (r: Board)
        ensures
            r.wf(),
            r.spec_len() == 32,
            forall |c: (u8, u8)| #[trigger] r.occ(c) == initial_occupant(c),
    {
        broadcast use lemma_coord_of_key_of;

        let mut map: HashMap<u64, (Piece, Team)> = HashMap::new();
        let mut file: u8 = 1;
        while file <= 8
            invariant
                1 <= file <= 9,
                map@.dom().len() == 4 * (file - 1),
                forall |k: u64| #[trigger] map@.dom().contains(k)
                    ==> in_range(coord_of(k)) && k == key_of(coord_of(k)) && coord_of(k).0 < file,
                forall |c: (u8, u8)| #[trigger] map@.contains_key(key_of(c))
                    <==> (c.0 < file && initial_occupant(c) is Some),
                forall |c: (u8, u8)| #[trigger] map@.contains_key(key_of(c))
                    ==> Some(map@[key_of(c)]) == initial_occupant(c),
            decreases 9 - file,
        {
            broadcast use lemma_coord_of_key_of;

            let back = back_file_piece(file);
            map.insert(coord_key((file, 1)), (back, Team::Black));
            map.insert(coord_key((file, 2)), (Piece::Pawn(false), Team::Black));
            map.insert(coord_key((file, 7)), (Piece::Pawn(false), Team::White));
            map.insert(coord_key((file, 8)), (back, Team::White));
            file = file + 1;
        }
        let r = Board { map };
        proof {
            broadcast use lemma_coord_of_key_of;

            assert forall |c: (u8, u8)| #[trigger] r.occ(c) == initial_occupant(c) by {
                if initial_occupant(c) is Some {
                    assert(in_range(c));
                }
            }
        }
        r
    }

    /// Pure lookup of the occupant at `c`.
    pub fn occupant_at(&self, c: (u8, u8)) -> (r: Option<(Piece, Team)>)
        ensures
            r == self.occ(c),
    {
        match self.map.get(&coord_key(c)) {
            Some(v) => Some(*v),
            None => None,
        }
    }

    /// Whether the square at `c` is occupied.
    pub fn contains_key(&self, c: (u8, u8)) -> (r: bool)
        ensures
            r == (self.occ(c) is Some),
    {
        self.map.contains_key(&coord_key(c))
    }

    /// The number of occupied squares.
    pub fn len(&self) -> (n: usize)
        ensures
            n == self.spec_len(),
    {
        self.map.len()
    }

    /// Removes the occupant at `pos` and inserts it at `new_pos`; a moved
    /// pawn has its `has_moved` flag forced to true. Any prior occupant of
    /// `new_pos` is silently discarded, which is how captures happen.
    pub fn relocate(&mut self, pos: (u8, u8), new_pos: (u8, u8))
        requires
            old(self).occ(pos) is Some,
        ensures
            board_relocated(*old(self), *final(self), pos, new_pos),
            final(self).occ(new_pos) == Some(moved_piece(old(self).occ(pos)->Some_0)),
            pos != new_pos ==> final(self).occ(pos) is None,
            old(self).occ(pos)->Some_0.0 is Pawn
                ==> final(self).occ(new_pos) == Some((Piece::Pawn(true), old(self).occ(pos)->Some_0.1)),
            old(self).wf() && in_range(new_pos) ==> final(self).wf(),
    {
        broadcast use lemma_coord_of_key_of;

        let k_pos = coord_key(pos);
        let piece = *self.map.get(&k_pos).unwrap();
        self.map.remove(&k_pos);
        let moved = match piece.0 {
            Piece::Pawn(_) => (Piece::Pawn(true), piece.1),
            _ => piece,
        };
        self.map.insert(coord_key(new_pos), moved);
    }
}

/// The piece kind that starts on a back rank at the given file.
fn back_file_piece(file: u8) -> (p: Piece)
    ensures
        p == back_rank_piece(file),
{
    if file == 1 || file == 8 {
        Piece::Tower
    } else if file == 2 || file == 7 {
        Piece::Bishop
    } else if file == 3 || file == 6 {
        Piece::Knight
    } else if file == 4 {
        Piece::King
    } else {
        Piece::Queen
    }
}

/// The packed map key of a coordinate.
fn coord_key(c: (u8, u8)) -> (k: u64)
    ensures
        k == key_of(c),
{
    c.0 as u64 * 256 + c.1 as u64
}

/// The `i`-th square of the grid, walking the 64 squares file-major.
pub open spec fn cell(i: int) -> (u8, u8) {
    ((i / 8 + 1) as u8, (i % 8 + 1) as u8)
}

/// Among the first `n` grid squares, how many are occupied at the start.
pub open spec fn count_occupied(n: int) -> int
    decreases n,
{
    if n <= 0 {
        0
    } else {
        count_occupied(n - 1) + (if initial_occupant(cell(n - 1)) is Some {
            1int
        } else {
            0int
        })
    }
}

/// Among the first `n` grid squares, how many start occupied by `team`.
pub open spec fn count_side(team: Team, n: int) -> int
    decreases n,
{
    if n <= 0 {
        0
    } else {
        count_side(team, n - 1) + (if initial_occupant(cell(n - 1)) matches Some(pt) && pt.1 == team {
            1int
        } else {
            0int
        })
    }
}

/// Among the first `n` grid squares, how many start holding exactly the
/// occupant `(piece, team)`.
pub open spec fn count_piece(piece: Piece, team: Team, n: int) -> int
    decreases n,
{
    if n <= 0 {
        0
    } else {
        count_piece(piece, team, n - 1) + (if initial_occupant(cell(n - 1)) == Some((piece, team)) {
            1int
        } else {
            0int
        })
    }
}

/// Each count of one piece kind and side on the initial board.
#[verifier::spinoff_prover]
#[verifier::rlimit(60)]
proof fn lemma_census_one_piece(piece: Piece, team: Team, expected: int)
    requires
        team is Black ==> {
            ||| piece == Piece::King && expected == 1
            ||| piece == Piece::Queen && expected == 1
            ||| piece == Piece::Tower && expected == 2
            ||| piece == Piece::Bishop && expected == 2
            ||| piece == Piece::Knight && expected == 2
            ||| piece == Piece::Pawn(false) && expected == 8
        },
        team is White ==> {
            ||| piece == Piece::King && expected == 1
            ||| piece == Piece::Queen && expected == 1
            ||| piece == Piece::Tower && expected == 2
            ||| piece == Piece::Bishop && expected == 2
            ||| piece == Piece::Knight && expected == 2
            ||| piece == Piece::Pawn(false) && expected == 8
        },
    ensures
        count_piece(piece, team, 64) == expected,
{
    reveal_with_fuel(count_piece, 65);
}

/// The census of the initial board: exactly 32 occupied squares, 16 per
/// side, each side holding one King, one Queen, two Towers, two Bishops,
/// two Knights and eight unmoved pawns, with Black only on ranks 1 and 2
/// and White only on ranks 7 and 8.
#[verifier::rlimit(60)]
pub proof fn lemma_initial_board_census()
    ensures
        count_occupied(64) == 32,
        count_side(Team::Black, 64) == 16,
        count_side(Team::White, 64) == 16,
        count_piece(Piece::King, Team::Black, 64) == 1,
        count_piece(Piece::Queen, Team::Black, 64) == 1,
        count_piece(Piece::Tower, Team::Black, 64) == 2,
        count_piece(Piece::Bishop, Team::Black, 64) == 2,
        count_piece(Piece::Knight, Team::Black, 64) == 2,
        count_piece(Piece::Pawn(false), Team::Black, 64) == 8,
        count_piece(Piece::King, Team::White, 64) == 1,
        count_piece(Piece::Queen, Team::White, 64) == 1,
        count_piece(Piece::Tower, Team::White, 64) == 2,
        count_piece(Piece::Bishop, Team::White, 64) == 2,
        count_piece(Piece::Knight, Team::White, 64) == 2,
        count_piece(Piece::Pawn(false), Team::White, 64) == 8,
        forall |c: (u8, u8)| #[trigger] initial_occupant(c) matches Some(pt)
            ==> in_range(c)
                && (pt.1 is Black ==> c.1 == 1 || c.1 == 2)
                && (pt.1 is White ==> c.1 == 7 || c.1 == 8),
{
    assert(count_occupied(64) == 32) by {
        reveal_with_fuel(count_occupied, 65);
    }
    assert(count_side(Team::Black, 64) == 16) by {
        reveal_with_fuel(count_side, 65);
    }
    assert(count_side(Team::White, 64) == 16) by {
        reveal_with_fuel(count_side, 65);
    }
    lemma_census_one_piece(Piece::King, Team::Black, 1);
    lemma_census_one_piece(Piece::Queen, Team::Black, 1);
    lemma_census_one_piece(Piece::Tower, Team::Black, 2);
    lemma_census_one_piece(Piece::Bishop, Team::Black, 2);
    lemma_census_one_piece(Piece::Knight, Team::Black, 2);
    lemma_census_one_piece(Piece::Pawn(false), Team::Black, 8);
    lemma_census_one_piece(Piece::King, Team::White, 1);
    lemma_census_one_piece(Piece::Queen, Team::White, 1);
    lemma_census_one_piece(Piece::Tower, Team::White, 2);
    lemma_census_one_piece(Piece::Bishop, Team::White, 2);
    lemma_census_one_piece(Piece::Knight, Team::White, 2);
    lemma_census_one_piece(Piece::Pawn(false), Team::White, 8);
}

} // verus!
