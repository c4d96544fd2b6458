//! The interaction state machine: a cursor, an optional selected square,
//! and the board they act on.
//!
//! Input intents move the cursor (clamped to the 8x8 grid), select an
//! occupied square, or commit a move of the selected piece to the cursor's
//! square when that square is among the piece's available blocks.

use vstd::prelude::*;

use crate::board::{board_relocated, in_range, initial_occupant, Board};
use crate::pieces::{get_move_blocks, piece_attack_seq, piece_move_seq, AvialableBlocks};

verus! {

/// A discrete input intent delivered by the session's input source. Any
/// other input is `Other` and is ignored.
#[derive(Debug, Copy, Clone)]
pub enum InputIntent {
    CursorUp,
    CursorDown,
    CursorLeft,
    CursorRight,
    Confirm,
    Other,
}

/// One cursor step toward 1, clamped at 1.
pub open spec fn dec_clamp(v: u8) -> u8 {
    if v <= 1 {
        1u8
    } else {
        (v - 1) as u8
    }
}

/// One cursor step toward 8, clamped at 8.
pub open spec fn inc_clamp(v: u8) -> u8 {
    if v >= 8 {
        8u8
    } else {
        (v + 1) as u8
    }
}

/// The session's core state: the board, the user's cursor, and the selected
/// square whose piece's available blocks are currently displayed, if any.
pub struct ChessBoard {
    pub board: Board,
    pub user_selected: (u8, u8),
    pub box_selected: Option<(u8, u8)>,
}

impl ChessBoard {
    /// The state invariant: the board holds no out-of-range square, the
    /// cursor is in range, and a selected square is in range and occupied.
    pub open spec fn wf(self) -> bool {
        &&& self.board.wf()
        &&& in_range(self.user_selected)
        &&& match self.box_selected {
            Some(c) => in_range(c) && self.board.occ(c) is Some,
            None => true,
        }
    }

    /// The move blocks of the current selection: those of the selected
    /// piece, or none while nothing is selected.
    pub open spec fn avail_move_seq(self) -> Seq<(u8, u8)> {
        match self.box_selected {
            Some(c) => match self.board.occ(c) {
                Some(pt) => piece_move_seq(pt.0, pt.1, self.board, c),
                None => Seq::<(u8, u8)>::empty(),
            },
            None => Seq::<(u8, u8)>::empty(),
        }
    }

    /// The attack blocks of the current selection: those of the selected
    /// piece, or none while nothing is selected.
    pub open spec fn avail_attack_seq(self) -> Seq<(u8, u8)> {
        match self.box_selected {
            Some(c) => match self.board.occ(c) {
                Some(pt) => piece_attack_seq(pt.0, pt.1, self.board, c),
                None => Seq::<(u8, u8)>::empty(),
            },
            None => Seq::<(u8, u8)>::empty(),
        }
    }

    /// A fresh session: the initial board, the cursor at (1, 1), and no
    /// selection.
    pub fn new() -> (r: ChessBoard)
        ensures
            r.wf(),
            forall |c: (u8, u8)| #[trigger] r.board.occ(c) == initial_occupant(c),
            r.board.spec_len() == 32,
            r.user_selected == (1u8, 1u8),
            r.box_selected is None,
    {
        ChessBoard {
            board: Board::construct_board(),
            user_selected: (1, 1),
            box_selected: None,
        }
    }

    /// The available blocks of the current selection, recomputed from the
    /// board; empty while nothing is selected.
    pub fn get_avialable_blocks(&self) -> (r: AvialableBlocks)
        requires
            self.wf(),
        ensures
            r.move_blocks@ == self.avail_move_seq(),
            r.attack_blocks@ == self.avail_attack_seq(),
    {
        match self.box_selected {
            Some(c) => {
                let piece = self.board.occupant_at(c).unwrap();
                get_move_blocks(&piece.0, &piece.1, &self.board, c)
            },
            None => AvialableBlocks::new(),
        }
    }

    /// Relocates the piece at `pos` to `new_pos` on the session's board;
    /// cursor and selection are untouched.
    pub fn move_block(&mut self, pos: (u8, u8), new_pos: (u8, u8))
        requires
            old(self).board.occ(pos) is Some,
        ensures
            board_relocated(old(self).board, final(self).board, pos, new_pos),
            final(self).user_selected == old(self).user_selected,
            final(self).box_selected == old(self).box_selected,
            old(self).board.wf() && in_range(new_pos) ==> final(self).board.wf(),
    {
        self.board.relocate(pos, new_pos);
    }

    /// Processes one input intent.
    ///
    /// Direction intents move the cursor one square along their axis,
    /// clamped into [1, 8], and never change the board or the selection;
    /// so, starting from (1, 1), the cursor stays in [1, 8] x [1, 8] after
    /// any number of cursor-movement intents. Confirm commits a move when
    /// the cursor sits on an available block of the selection, selects the
    /// cursor's square when that square is occupied, and otherwise changes
    /// nothing. Other intents are ignored.
    pub fn handle_intent(&mut self, intent: InputIntent)
        requires
            old(self).wf(),
        ensures
            final(self).wf(),
            intent is CursorUp ==> {
                &&& final(self).user_selected == ((old(self).user_selected.0, dec_clamp(old(self).user_selected.1)))
                &&& final(self).board == old(self).board
                &&& final(self).box_selected == old(self).box_selected
            },
            intent is CursorDown ==> {
                &&& final(self).user_selected == ((old(self).user_selected.0, inc_clamp(old(self).user_selected.1)))
                &&& final(self).board == old(self).board
                &&& final(self).box_selected == old(self).box_selected
            },
            intent is CursorLeft ==> {
                &&& final(self).user_selected == ((dec_clamp(old(self).user_selected.0), old(self).user_selected.1))
                &&& final(self).board == old(self).board
                &&& final(self).box_selected == old(self).box_selected
            },
            intent is CursorRight ==> {
                &&& final(self).user_selected == ((inc_clamp(old(self).user_selected.0), old(self).user_selected.1))
                &&& final(self).board == old(self).board
                &&& final(self).box_selected == old(self).box_selected
            },
            intent is Confirm ==> {
                let cur = old(self).user_selected;
                if old(self).avail_move_seq().contains(cur) || old(self).avail_attack_seq().contains(cur) {
                    &&& board_relocated(old(self).board, final(self).board, old(self).box_selected->Some_0, cur)
                    &&& final(self).box_selected is None
                    &&& final(self).user_selected == cur
                } else if old(self).board.occ(cur) is Some {
                    &&& final(self).board == old(self).board
                    &&& final(self).box_selected == Some(cur)
                    &&& final(self).user_selected == cur
                } else {
                    *final(self) == *old(self)
                }
            },
            intent is Other ==> *final(self) == *old(self),
    {
        match intent {
            InputIntent::CursorUp => {
                let r = self.user_selected.1;
                self.user_selected = (self.user_selected.0, if r <= 1 { 1 } else { r - 1 });
            },
            InputIntent::CursorDown => {
                let r = self.user_selected.1;
                self.user_selected = (self.user_selected.0, if r >= 8 { 8 } else { r + 1 });
            },
            InputIntent::CursorLeft => {
                let f = self.user_selected.0;
                self.user_selected = (if f <= 1 { 1 } else { f - 1 }, self.user_selected.1);
            },
            InputIntent::CursorRight => {
                let f = self.user_selected.0;
                self.user_selected = (if f >= 8 { 8 } else { f + 1 }, self.user_selected.1);
            },
            InputIntent::Confirm => {
                let avialable_blocks = self.get_avialable_blocks();
                let cur = self.user_selected;
                if blocks_contain(&avialable_blocks.move_blocks, cur)
                    || blocks_contain(&avialable_blocks.attack_blocks, cur) {
                    let from = self.box_selected.unwrap();
                    self.move_block(from, cur);
                    self.box_selected = None;
                } else {
                    if self.board.contains_key(cur) {
                        self.box_selected = Some(cur);
                    }
                }
            },
            InputIntent::Other => {},
        }
    }
}

/// Whether a block list holds the given coordinate.
pub fn blocks_contain(blocks: &Vec<(u8, u8)>, c: (u8, u8)) -> (r: bool)
    ensures
        r == blocks@.contains(c),
{
    let mut i: usize = 0;
    while i < blocks.len()
        invariant
            i <= blocks@.len(),
            forall |j: int| 0 <= j < i ==> blocks@[j] != c,
        decreases blocks@.len() - i,
    {
        let b = blocks[i];
        if b.0 == c.0 && b.1 == c.1 {
            return true;
        }
        i = i + 1;
    }
    false
}

} // verus!
