use std::str::FromStr;
use std::sync::Arc;

use spellchess::board::{BoardConstructionMismatch, UIBoard};
use spellchess::game::Game;
use spellchess::inventory::Inventory;
use spellchess::moves::{cast_spell, collect_spell, make_move, map_to_square, move_piece, parse_source_id, IllegalMoveError, MoveError};
use spellchess::spell::{Kind, Spell, SpellHandle};
use spellchess::square::{Move, Square};
use spellchess::warrior::JihadiWarrior;

fn sq(file: u8, rank: u8) -> Square {
    Square::new(file, rank)
}

fn board_from(fen: &str) -> UIBoard {
    let position = chess::Board::from_str(fen).unwrap();
    UIBoard::new(position, (8, 8), None).unwrap()
}

fn marker_tag(k: &Kind) -> (u8, Option<u32>) {
    match k {
        Kind::Transparent(s) => (1, Some(s.identifier())),
        Kind::Opaque(s) => (2, Some(s.identifier())),
        Kind::Empty => (0, None),
    }
}

// e5 holds a white knight; d4..f6 around it are all occupied.
const SURROUNDED: &str = "4k3/8/3ppp2/3pNp2/3PPP2/8/8/4K3 w - - 0 1";

#[test]
fn opening_move_then_repeat_is_rejected() {
    let game = Game::new();
    let after = move_piece(&game, sq(4, 3), "41").ok().unwrap();
    assert_eq!(after.moves().len(), 1);
    assert_eq!(after.moves()[0], Move::new(sq(4, 1), sq(4, 3)));
    assert_eq!(after.board().piece_on(sq(4, 3)), Some(chess::Piece::Pawn));
    assert_eq!(after.board().piece_on(sq(4, 1)), None);
    assert_eq!(after.spells().len(), game.spells().len());

    let again = move_piece(&after, sq(4, 3), "41");
    assert!(matches!(again, Err(MoveError::Illegal(IllegalMoveError))));
    let kept = after.make_move_new(Move::new(sq(4, 1), sq(4, 3)));
    assert_eq!(kept.moves().len(), 1);
    assert_eq!(kept.raw_board(), after.raw_board());
}

#[test]
fn rejected_move_leaves_game_equal() {
    let game = Game::new();
    let next = game.make_move_new(Move::new(sq(4, 1), sq(4, 4)));
    assert_eq!(next.moves().len(), 0);
    assert_eq!(next.raw_board(), game.raw_board());
    assert_eq!(next.spells().len(), 0);
}

#[test]
fn accepted_moves_append_in_order() {
    let mut game = Game::new();
    game.make_move(Move::new(sq(4, 1), sq(4, 3)));
    game.make_move(Move::new(sq(4, 6), sq(4, 4)));
    game.make_move(Move::new(sq(6, 0), sq(5, 2)));
    let moves = game.moves();
    assert_eq!(moves.len(), 3);
    assert_eq!(moves[0], Move::new(sq(4, 1), sq(4, 3)));
    assert_eq!(moves[1], Move::new(sq(4, 6), sq(4, 4)));
    assert_eq!(moves[2], Move::new(sq(6, 0), sq(5, 2)));
    assert_eq!(game.board().piece_on(sq(5, 2)), Some(chess::Piece::Knight));
}

#[test]
fn malformed_source_identifiers_fail_closed() {
    let game = Game::new();
    for id in ["", "4", "412", "a1", "48", "94", "4 "] {
        assert!(matches!(move_piece(&game, sq(4, 3), id), Err(MoveError::MalformedSourceIdentifier)));
    }
    assert_eq!(parse_source_id("41"), Some(sq(4, 1)));
    assert_eq!(parse_source_id("07"), Some(sq(0, 7)));
    assert_eq!(parse_source_id("80"), None);
}

#[test]
fn pointer_maps_through_the_flip() {
    assert_eq!(map_to_square((400, 400), (800, 800), (0, 0), (8, 8)), Some(sq(3, 3)));
    assert_eq!(map_to_square((0, 0), (800, 800), (0, 0), (8, 8)), Some(sq(7, 7)));
    assert_eq!(map_to_square((799, 799), (800, 800), (0, 0), (8, 8)), Some(sq(0, 0)));
    assert_eq!(map_to_square((150, 210), (800, 800), (100, 200), (8, 8)), Some(sq(7, 7)));
    assert_eq!(map_to_square((350, 450), (800, 800), (0, 0), (8, 8)), Some(sq(4, 3)));
    let center = map_to_square((102, 102), (5, 5), (100, 100), (8, 8)).unwrap();
    assert!(center.file == 3 || center.file == 4);
    assert!(center.rank == 3 || center.rank == 4);
}

#[test]
fn pointer_off_the_board_maps_to_nothing() {
    assert_eq!(map_to_square((800, 10), (800, 800), (0, 0), (8, 8)), None);
    assert_eq!(map_to_square((-1, 10), (800, 800), (0, 0), (8, 8)), None);
    assert_eq!(map_to_square((10, 10), (0, 800), (0, 0), (8, 8)), None);
    assert_eq!(map_to_square((10, 10), (800, 800), (0, 0), (0, 8)), None);
}

#[test]
fn drag_and_drop_moves_a_piece() {
    let game = Game::new();
    let after = make_move(&game, "41", (350, 450), (800, 800), (0, 0));
    assert_eq!(after.moves().len(), 1);
    assert_eq!(after.board().piece_on(sq(4, 3)), Some(chess::Piece::Pawn));
    let unchanged = make_move(&game, "", (350, 450), (800, 800), (0, 0));
    assert_eq!(unchanged.moves().len(), 0);
    let off_board = make_move(&game, "41", (900, 450), (800, 800), (0, 0));
    assert_eq!(off_board.moves().len(), 0);
    let illegal = make_move(&game, "41", (350, 350), (800, 800), (0, 0));
    assert_eq!(illegal.moves().len(), 0);
}

#[test]
fn area_spell_clears_all_neighbours() {
    let game = Game::new().set_board(board_from(SURROUNDED));
    let spell = SpellHandle::Warrior(JihadiWarrior::new(7, None));
    let game = game.collect_spell(sq(4, 4), spell);
    assert_eq!(game.spells().len(), 1);
    let after = cast_spell(&game, spell, (350, 350), (800, 800), (0, 0));
    for f in 3..=5u8 {
        for r in 3..=5u8 {
            assert_eq!(after.board().piece_on(sq(f, r)), None);
        }
    }
    assert_eq!(after.board().piece_on(sq(4, 0)), Some(chess::Piece::King));
    assert_eq!(after.board().piece_on(sq(4, 7)), Some(chess::Piece::King));
    assert_eq!(after.spells().len(), 0);
}

#[test]
fn area_spell_at_corner_touches_four_squares() {
    assert_eq!(JihadiWarrior::area_around(sq(0, 0), (8, 8)).len(), 4);
    assert_eq!(JihadiWarrior::area_around(sq(7, 7), (8, 8)).len(), 4);
    assert_eq!(JihadiWarrior::area_around(sq(0, 4), (8, 8)).len(), 6);
    assert_eq!(JihadiWarrior::area_around(sq(4, 4), (8, 8)).len(), 9);
    let game = Game::new();
    let after = JihadiWarrior::default().execute(game.clone(), Some(sq(0, 0)));
    assert_eq!(after.board().piece_on(sq(0, 0)), None);
    assert_eq!(after.board().piece_on(sq(0, 1)), None);
    assert_eq!(after.board().piece_on(sq(1, 0)), None);
    assert_eq!(after.board().piece_on(sq(1, 1)), None);
    assert_eq!(after.board().piece_on(sq(2, 0)), Some(chess::Piece::Bishop));
    assert_eq!(after.board().piece_on(sq(0, 2)), None);
    assert_eq!(after.board().piece_on(sq(2, 1)), Some(chess::Piece::Pawn));
}

#[test]
fn unbound_spell_without_target_changes_nothing() {
    let game = Game::new();
    let after = JihadiWarrior::default().execute(game.clone(), None);
    assert_eq!(after.raw_board(), game.raw_board());
    let bound = JihadiWarrior::new(3, Some(sq(0, 0)));
    let cleared = bound.execute(game.clone(), None);
    assert_eq!(cleared.board().piece_on(sq(0, 0)), None);
}

#[test]
fn markers_survive_moves() {
    let board = UIBoard::default();
    let copy = board.clone();
    let moved = copy.make_move_new(Move::new(sq(4, 1), sq(4, 3)));
    assert_eq!(moved.piece_on(sq(4, 3)), Some(chess::Piece::Pawn));
    for f in 0..8u8 {
        for r in 0..8u8 {
            assert_eq!(marker_tag(&moved.marker_at(sq(f, r))), marker_tag(&board.marker_at(sq(f, r))));
        }
    }
    assert_eq!(marker_tag(&board.marker_at(sq(0, 4))), (2, Some(0)));
    assert_eq!(marker_tag(&board.marker_at(sq(2, 4))), (1, Some(0)));
    assert_eq!(marker_tag(&board.marker_at(sq(9, 4))), (0, None));
}

#[test]
fn landing_on_a_spell_collects_it() {
    let game = Game::new();
    let after = collect_spell(&game, sq(2, 4));
    assert_eq!(after.spells().len(), 1);
    assert_eq!(after.spells()[0].identifier(), 0);
    let again = collect_spell(&after, sq(2, 4));
    assert_eq!(again.spells().len(), 2);
    let nothing = collect_spell(&game, sq(3, 3));
    assert_eq!(nothing.spells().len(), 0);
}

#[test]
fn inventory_removes_first_match_only() {
    let inv = Inventory::default()
        .collect_spell(SpellHandle::Warrior(JihadiWarrior::new(1, None)))
        .collect_spell(SpellHandle::Warrior(JihadiWarrior::new(2, None)))
        .collect_spell(SpellHandle::Warrior(JihadiWarrior::new(1, None)));
    let ids: Vec<u32> = inv.clone().remove_spell(1).spells().iter().map(|s| s.identifier()).collect();
    assert_eq!(ids, vec![2, 1]);
    let ids: Vec<u32> = inv.clone().remove_spell(9).spells().iter().map(|s| s.identifier()).collect();
    assert_eq!(ids, vec![1, 2, 1]);
    assert_eq!(Inventory::test().spells().len(), 1);
}

#[test]
fn cast_records_spell_and_consumes_it() {
    let spell = SpellHandle::Warrior(JihadiWarrior::new(5, None));
    let game = Game::new().collect_spell(sq(0, 0), spell);
    let cast = game.cast_spell(spell, sq(3, 3));
    assert_eq!(cast.spells().len(), 0);
    assert_eq!(cast.raw_board(), game.raw_board());
    let removed = game.remove_spell(5);
    assert_eq!(removed.spells().len(), 0);
}

#[test]
fn board_rejects_wrong_marker_count() {
    let position = chess::Board::default();
    let bad = UIBoard::new(position, (8, 8), Some(Arc::new(vec![Kind::Empty; 3])));
    assert!(matches!(bad, Err(BoardConstructionMismatch)));
    let good = UIBoard::new(position, (4, 2), Some(Arc::new(vec![Kind::Empty; 8]))).ok().unwrap();
    assert_eq!(good.dims(), (4, 2));
    let plain = UIBoard::new(position, (3, 3), None).ok().unwrap();
    assert_eq!(marker_tag(&plain.marker_at(sq(2, 2))), (0, None));
}

#[test]
fn removing_a_piece_keeps_the_rest() {
    let board = UIBoard::default();
    let cleared = board.remove_piece(sq(3, 1));
    assert_eq!(cleared.piece_on(sq(3, 1)), None);
    assert_eq!(cleared.piece_on(sq(3, 0)), Some(chess::Piece::Queen));
    let empty = cleared.remove_piece(sq(3, 3));
    assert_eq!(empty.board(), cleared.board());
}

#[test]
fn spell_metadata_and_ageing() {
    let mut w = JihadiWarrior::new(4, None);
    assert_eq!(w.identifier(), 4);
    assert_eq!(w.name(), "Jihadi Warrior");
    assert_eq!(w.class_list(), "spell spell--jihadi-warrior");
    assert!(w.description().starts_with("Remove all pieces"));
    let m = Move::new(sq(4, 1), sq(4, 3));
    for _ in 0..5 {
        w.update(&m);
    }
    assert_eq!(w.identifier(), 4);
    assert_eq!(IllegalMoveError.message(), "Illegal Move");
}

#[test]
fn markers_compare_by_variant() {
    let a = Kind::Opaque(SpellHandle::Warrior(JihadiWarrior::new(1, None)));
    let b = Kind::Opaque(SpellHandle::Warrior(JihadiWarrior::new(2, None)));
    let c = Kind::Transparent(SpellHandle::Warrior(JihadiWarrior::new(1, None)));
    assert!(a == b);
    assert!(a != c);
    assert!(Kind::Empty == Kind::Empty);
    assert!(Kind::Empty != c);
}

#[test]
fn starting_position_has_its_colours() {
    let board = UIBoard::default();
    assert_eq!(board.color_on(sq(4, 0)), Some(chess::Color::White));
    assert_eq!(board.color_on(sq(4, 7)), Some(chess::Color::Black));
    assert_eq!(board.color_on(sq(4, 4)), None);
    assert_eq!(board.piece_on(sq(3, 7)), Some(chess::Piece::Queen));
    assert_eq!(board.dims(), (8, 8));
}

#[test]
fn area_spell_never_removes_a_king() {
    let game = Game::new();
    let after = JihadiWarrior::default().execute(game.clone(), Some(sq(4, 1)));
    assert_eq!(after.board().piece_on(sq(4, 0)), Some(chess::Piece::King));
    assert_eq!(after.board().color_on(sq(4, 0)), Some(chess::Color::White));
    assert_eq!(after.board().piece_on(sq(3, 0)), None);
    assert_eq!(after.board().piece_on(sq(5, 0)), None);
    assert_eq!(after.board().piece_on(sq(4, 1)), None);
    assert_eq!(after.board().piece_on(sq(2, 0)), Some(chess::Piece::Bishop));
    let corner = JihadiWarrior::default().execute(game.clone(), Some(sq(4, 7)));
    assert_eq!(corner.board().piece_on(sq(4, 7)), Some(chess::Piece::King));
    assert_eq!(corner.board().piece_on(sq(3, 7)), None);
}

#[test]
fn seeded_inventory_removes_by_identifier() {
    assert_eq!(Inventory::test().remove_spell(0).spells().len(), 0);
    assert_eq!(Inventory::test().remove_spell(1).spells().len(), 1);
}

#[test]
fn ageing_counts_down_to_zero() {
    let mut w = JihadiWarrior::new(2, Some(sq(1, 1)));
    let m = Move::new(sq(4, 1), sq(4, 3));
    assert_eq!(w.valid_for, 3);
    w.update(&m);
    assert_eq!((w.valid_for, w.valid), (2, true));
    w.update(&m);
    w.update(&m);
    assert_eq!((w.valid_for, w.valid), (0, true));
    w.update(&m);
    assert_eq!((w.valid_for, w.valid), (0, false));
    assert_eq!(w.on, Some(sq(1, 1)));
    assert_eq!(w.identifier(), 2);
    assert_eq!(w.level, 1);
}

#[test]
fn area_cast_leaves_far_squares_alone() {
    let game = Game::new();
    let after = JihadiWarrior::new(1, None).cast_area(game.clone(), Some(sq(3, 6)));
    for f in 0..8u8 {
        for r in 0..8u8 {
            let near = (f as i32 - 3).abs() <= 1 && (r as i32 - 6).abs() <= 1;
            if !near {
                assert_eq!(after.board().piece_on(sq(f, r)), game.board().piece_on(sq(f, r)));
            }
        }
    }
    assert_eq!(after.board().piece_on(sq(3, 6)), None);
    assert_eq!(after.board().piece_on(sq(4, 7)), Some(chess::Piece::King));
}
