//! The piece catalog and the per-piece move rule engine.

use vstd::prelude::*;

use crate::board::{in_range, Board};

verus! {

/// The side a piece belongs to. Black advances toward increasing rank,
/// White toward decreasing rank.
#[derive(Debug, Copy, Clone)]
pub enum Team {
    White,
    Black,
}

/// The closed set of piece kinds. A pawn carries the only mutable sub-state
/// a piece has: whether it has already moved, which gates its initial
/// two-square advance.
#[derive(Debug, Copy, Clone)]
pub enum Piece {
    Pawn(bool),
    King,
    Queen,
    Bishop,
    Knight,
    Tower,
}

/// The two-character display code of a piece kind.
pub open spec fn spec_piece_char(piece: Piece) -> Seq<char> {
    match piece {
        Piece::Pawn(_) => "PA"@,
        Piece::King => "KI"@,
        Piece::Bishop => "BI"@,
        Piece::Queen => "QU"@,
        Piece::Knight => "KN"@,
        Piece::Tower => "TO"@,
    }
}

/// Stable two-character code for each piece kind, used by rendering.
pub fn get_piece_char(piece: &Piece) -> (r: String)
    ensures
        r@ == spec_piece_char(*piece),
{
    match piece {
        Piece::Pawn(_) => "PA".to_string(),
        Piece::King => "KI".to_string(),
        Piece::Bishop => "BI".to_string(),
        Piece::Queen => "QU".to_string(),
        Piece::Knight => "KN".to_string(),
        Piece::Tower => "TO".to_string(),
    }
}

/// The squares a selected piece may use, split by purpose: `move_blocks`
/// holds reachable empty squares, `attack_blocks` holds reachable occupied
/// squares eligible for capture.
pub struct AvialableBlocks {
    pub attack_blocks: Vec<(u8, u8)>,
    pub move_blocks: Vec<(u8, u8)>,
}

impl AvialableBlocks {
    /// No moves and no attacks.
    pub fn new() -> (r: Self)
        ensures
            r.move_blocks@ == Seq::<(u8, u8)>::empty(),
            r.attack_blocks@ == Seq::<(u8, u8)>::empty(),
    {
        Self { attack_blocks: vec![], move_blocks: vec![] }
    }
}

/// The rank `add` steps ahead of `initial` in the advance direction of
/// `team`, clamped into the board range: Black advances toward rank 8 and
/// saturates there, White advances toward rank 1 and saturates there.
pub open spec fn spec_relative_rank(initial: u8, add: u8, team: Team) -> u8 {
    match team {
        Team::Black => if initial + add > 8 {
            8u8
        } else {
            (initial + add) as u8
        },
        Team::White => if initial - add < 1 {
            1u8
        } else {
            (initial - add) as u8
        },
    }
}

/// The rank reached by advancing `add` ranks from `initial` for `team`,
/// saturating at the board edge.
pub fn relative_to_team(initial: u8, add: u8, team: &Team) -> (r: u8)
    ensures
        r == spec_relative_rank(initial, add, *team),
{
    match team {
        Team::Black => {
            if initial > 8 || add > 8 - initial {
                8
            } else {
                initial + add
            }
        },
        Team::White => {
            if add >= initial {
                1
            } else {
                initial - add
            }
        },
    }
}

/// The squares a pawn at `position` may move to, in the order they are
/// probed: the two-square advance first (only for a pawn that has not moved
/// yet, and only if that square is empty), then the one-square advance if
/// empty. The two-square advance is probed on its own; no path-clear rule
/// connects it to the one-square square.
pub open spec fn pawn_move_seq(board: Board, position: (u8, u8), has_moved: bool, team: Team) -> Seq<(u8, u8)> {
    let two = (position.0, spec_relative_rank(position.1, 2, team));
    let one = (position.0, spec_relative_rank(position.1, 1, team));
    (if !has_moved && board.occ(two) is None {
        seq![two]
    } else {
        Seq::<(u8, u8)>::empty()
    }) + (if board.occ(one) is None {
        seq![one]
    } else {
        Seq::<(u8, u8)>::empty()
    })
}

/// The squares a pawn at `position` may attack, in the order they are
/// probed: the forward diagonal at the next file, then the one at the
/// previous file, each present exactly when occupied. No ownership check is
/// made: an occupied diagonal square of either side is listed.
pub open spec fn pawn_attack_seq(board: Board, position: (u8, u8), team: Team) -> Seq<(u8, u8)> {
    let right = ((position.0 + 1) as u8, spec_relative_rank(position.1, 1, team));
    let left = ((position.0 - 1) as u8, spec_relative_rank(position.1, 1, team));
    (if board.occ(right) is Some {
        seq![right]
    } else {
        Seq::<(u8, u8)>::empty()
    }) + (if board.occ(left) is Some {
        seq![left]
    } else {
        Seq::<(u8, u8)>::empty()
    })
}

/// The move squares of a piece: only the pawn has generation logic; every
/// other kind has none.
pub open spec fn piece_move_seq(piece: Piece, team: Team, board: Board, position: (u8, u8)) -> Seq<(u8, u8)> {
    match piece {
        Piece::Pawn(has_moved) => pawn_move_seq(board, position, has_moved, team),
        _ => Seq::<(u8, u8)>::empty(),
    }
}

/// The attack squares of a piece: only the pawn has generation logic; every
/// other kind has none.
pub open spec fn piece_attack_seq(piece: Piece, team: Team, board: Board, position: (u8, u8)) -> Seq<(u8, u8)> {
    match piece {
        Piece::Pawn(_) => pawn_attack_seq(board, position, team),
        _ => Seq::<(u8, u8)>::empty(),
    }
}

/// Move blocks and attack blocks are disjoint for every piece, side, board
/// and position: a move block is an empty square, an attack block is an
/// occupied one, and no square is both.
pub proof fn lemma_blocks_disjoint(piece: Piece, team: Team, board: Board, position: (u8, u8))
    ensures
        forall |c: (u8, u8)| piece_move_seq(piece, team, board, position).contains(c)
            ==> !piece_attack_seq(piece, team, board, position).contains(c),
{
    assert forall |c: (u8, u8)| piece_move_seq(piece, team, board, position).contains(c)
        implies !piece_attack_seq(piece, team, board, position).contains(c) by {
        if piece_move_seq(piece, team, board, position).contains(c) {
            assert(board.occ(c) is None);
        }
        if piece_attack_seq(piece, team, board, position).contains(c) {
            assert(board.occ(c) is Some);
        }
    }
}

/// Appends `position` to `blocks` when the square is empty; reports whether
/// it did.
pub fn add_contains(blocks: &mut Vec<(u8, u8)>, board: &Board, position: (u8, u8)) -> (r: bool)
    ensures
        r == (board.occ(position) is None),
        final(blocks)@ == (if board.occ(position) is None {
            old(blocks)@.push(position)
        } else {
            old(blocks)@
        }),
{
    if !board.contains_key(position) {
        blocks.push(position);
        true
    } else {
        false
    }
}

/// Appends `position` to `blocks` when the square is occupied; reports
/// whether it did.
pub fn add_not_contains(blocks: &mut Vec<(u8, u8)>, board: &Board, position: (u8, u8)) -> (r: bool)
    ensures
        r == (board.occ(position) is Some),
        final(blocks)@ == (if board.occ(position) is Some {
            old(blocks)@.push(position)
        } else {
            old(blocks)@
        }),
{
    if board.contains_key(position) {
        blocks.push(position);
        true
    } else {
        false
    }
}

/// The pawn's available squares: forward advances that are empty become
/// move blocks, occupied forward diagonals become attack blocks.
pub fn get_pawn(board: &Board, position: (u8, u8), has_moved: &bool, team: &Team) -> (r: AvialableBlocks)
    requires
        in_range(position),
    ensures
        r.move_blocks@ == pawn_move_seq(*board, position, *has_moved, *team),
        r.attack_blocks@ == pawn_attack_seq(*board, position, *team),
{
    let mut avialable_blocks = AvialableBlocks::new();

    if !*has_moved {
        add_contains(
            &mut avialable_blocks.move_blocks,
            board,
            (position.0, relative_to_team(position.1, 2, team)),
        );
    }

    add_contains(
        &mut avialable_blocks.move_blocks,
        board,
        (position.0, relative_to_team(position.1, 1, team)),
    );

    add_not_contains(
        &mut avialable_blocks.attack_blocks,
        board,
        (position.0 + 1, relative_to_team(position.1, 1, team)),
    );
    add_not_contains(
        &mut avialable_blocks.attack_blocks,
        board,
        (position.0 - 1, relative_to_team(position.1, 1, team)),
    );

    avialable_blocks
}

/// The squares the given piece may move to (empty squares only) and may
/// attack (occupied squares only), honoring the side's advance direction
/// and the pawn's `has_moved` state.
pub fn get_move_blocks(piece: &Piece, team: &Team, board: &Board, position: (u8, u8)) -> (r: AvialableBlocks)
    requires
        in_range(position),
    ensures
        r.move_blocks@ == piece_move_seq(*piece, *team, *board, position),
        r.attack_blocks@ == piece_attack_seq(*piece, *team, *board, position),
{
    match piece {
        Piece::Pawn(has_moved) => get_pawn(board, position, has_moved, team),
        _ => AvialableBlocks::new(),
    }
}

} // verus!
