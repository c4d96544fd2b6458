use chess::chess_board::{ChessBoard, InputIntent};
use chess::pieces::{get_move_blocks, Piece, Team};

#[test]
fn cursor_stays_in_range_and_clamps() {
    let mut session = ChessBoard::new();
    assert_eq!(session.user_selected, (1, 1));
    for _ in 0..3 {
        session.handle_intent(InputIntent::CursorUp);
        session.handle_intent(InputIntent::CursorLeft);
    }
    assert_eq!(session.user_selected, (1, 1));
    for _ in 0..12 {
        session.handle_intent(InputIntent::CursorDown);
        session.handle_intent(InputIntent::CursorRight);
    }
    assert_eq!(session.user_selected, (8, 8));
    session.handle_intent(InputIntent::CursorUp);
    session.handle_intent(InputIntent::CursorLeft);
    assert_eq!(session.user_selected, (7, 7));
    let (file, rank) = session.user_selected;
    assert!((1..=8).contains(&file) && (1..=8).contains(&rank));
}

#[test]
fn unmoved_pawn_offers_both_advances_when_empty() {
    let session = ChessBoard::new();
    let blocks = get_move_blocks(
        &Piece::Pawn(false),
        &Team::Black,
        &session.board,
        (5, 2),
    );
    assert_eq!(blocks.move_blocks, vec![(5, 4), (5, 3)]);
    assert!(blocks.attack_blocks.is_empty());
}

#[test]
fn pawn_two_square_advance_ignores_blocked_path() {
    let mut session = ChessBoard::new();
    session.move_block((1, 1), (5, 3));
    let blocks = get_move_blocks(
        &Piece::Pawn(false),
        &Team::Black,
        &session.board,
        (5, 2),
    );
    assert_eq!(blocks.move_blocks, vec![(5, 4)]);
}

#[test]
fn pawn_single_advance_remains_when_two_square_is_occupied() {
    let mut session = ChessBoard::new();
    session.move_block((1, 1), (5, 4));
    let blocks = get_move_blocks(
        &Piece::Pawn(false),
        &Team::Black,
        &session.board,
        (5, 2),
    );
    assert_eq!(blocks.move_blocks, vec![(5, 3)]);
}

#[test]
fn moved_pawn_offers_single_advance_only() {
    let session = ChessBoard::new();
    let blocks = get_move_blocks(
        &Piece::Pawn(true),
        &Team::Black,
        &session.board,
        (5, 2),
    );
    assert_eq!(blocks.move_blocks, vec![(5, 3)]);
}

#[test]
fn pawn_attacks_occupied_diagonal() {
    let mut session = ChessBoard::new();
    session.move_block((1, 8), (6, 3));
    let blocks = get_move_blocks(
        &Piece::Pawn(false),
        &Team::Black,
        &session.board,
        (5, 2),
    );
    assert!(blocks.attack_blocks.contains(&(6, 3)));
    assert_eq!(blocks.attack_blocks, vec![(6, 3)]);
}

#[test]
fn non_pawn_pieces_offer_no_blocks() {
    let session = ChessBoard::new();
    for piece in [Piece::King, Piece::Queen, Piece::Bishop, Piece::Knight, Piece::Tower] {
        let blocks = get_move_blocks(&piece, &Team::White, &session.board, (4, 4));
        assert!(blocks.move_blocks.is_empty());
        assert!(blocks.attack_blocks.is_empty());
    }
}

#[test]
fn confirm_on_empty_square_without_selection_changes_nothing() {
    let mut session = ChessBoard::new();
    for _ in 0..4 {
        session.handle_intent(InputIntent::CursorDown);
        session.handle_intent(InputIntent::CursorRight);
    }
    assert_eq!(session.user_selected, (5, 5));
    session.handle_intent(InputIntent::Confirm);
    assert!(session.box_selected.is_none());
    assert_eq!(session.user_selected, (5, 5));
    assert_eq!(session.board.len(), 32);
}

#[test]
fn confirm_on_occupied_square_selects_it() {
    let mut session = ChessBoard::new();
    session.handle_intent(InputIntent::Confirm);
    assert_eq!(session.box_selected, Some((1, 1)));
    assert_eq!(session.board.len(), 32);
}

#[test]
fn confirm_on_move_block_commits_and_clears_selection() {
    let mut session = ChessBoard::new();
    for _ in 0..4 {
        session.handle_intent(InputIntent::CursorRight);
    }
    session.handle_intent(InputIntent::CursorDown);
    assert_eq!(session.user_selected, (5, 2));
    session.handle_intent(InputIntent::Confirm);
    assert_eq!(session.box_selected, Some((5, 2)));

    session.handle_intent(InputIntent::CursorDown);
    session.handle_intent(InputIntent::Confirm);
    assert!(session.box_selected.is_none());
    assert!(session.board.occupant_at((5, 2)).is_none());
    assert!(matches!(
        session.board.occupant_at((5, 3)),
        Some((Piece::Pawn(true), Team::Black))
    ));
}

#[test]
fn confirm_on_attack_block_captures_and_clears_selection() {
    let mut session = ChessBoard::new();
    session.move_block((1, 8), (6, 3));

    for _ in 0..4 {
        session.handle_intent(InputIntent::CursorRight);
    }
    session.handle_intent(InputIntent::CursorDown);
    session.handle_intent(InputIntent::Confirm);
    assert_eq!(session.box_selected, Some((5, 2)));

    session.handle_intent(InputIntent::CursorRight);
    session.handle_intent(InputIntent::CursorDown);
    assert_eq!(session.user_selected, (6, 3));
    session.handle_intent(InputIntent::Confirm);
    assert!(session.box_selected.is_none());
    assert!(session.board.occupant_at((5, 2)).is_none());
    assert!(matches!(
        session.board.occupant_at((6, 3)),
        Some((Piece::Pawn(true), Team::Black))
    ));
}

#[test]
fn selection_can_be_overwritten() {
    let mut session = ChessBoard::new();
    session.handle_intent(InputIntent::Confirm);
    assert_eq!(session.box_selected, Some((1, 1)));
    session.handle_intent(InputIntent::CursorRight);
    session.handle_intent(InputIntent::Confirm);
    assert_eq!(session.box_selected, Some((2, 1)));
}

#[test]
fn other_intents_are_ignored() {
    let mut session = ChessBoard::new();
    session.handle_intent(InputIntent::Other);
    assert_eq!(session.user_selected, (1, 1));
    assert!(session.box_selected.is_none());
    assert_eq!(session.board.len(), 32);
}

#[test]
fn available_blocks_empty_without_selection() {
    let session = ChessBoard::new();
    let blocks = session.get_avialable_blocks();
    assert!(blocks.move_blocks.is_empty());
    assert!(blocks.attack_blocks.is_empty());
}

#[test]
fn available_blocks_follow_selection() {
    let mut session = ChessBoard::new();
    for _ in 0..4 {
        session.handle_intent(InputIntent::CursorRight);
    }
    session.handle_intent(InputIntent::CursorDown);
    session.handle_intent(InputIntent::Confirm);
    let blocks = session.get_avialable_blocks();
    assert_eq!(blocks.move_blocks, vec![(5, 4), (5, 3)]);
    assert!(blocks.attack_blocks.is_empty());
}
