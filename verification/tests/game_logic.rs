use tic_tac_toe::board::Board;
use tic_tac_toe::board::to_index;
use tic_tac_toe::game::TicTacToe;
use tic_tac_toe::marker::Marker;

#[test]
fn initial_state() {
    let g = TicTacToe::new();
    for row in 0..3usize {
        for col in 0..3usize {
            assert_eq!(g.get(col, row), None);
        }
    }
    assert_eq!(g.next_marker(), Marker::First);

    let d = TicTacToe::default();
    for row in 0..3usize {
        for col in 0..3usize {
            assert_eq!(d.get(col, row), None);
        }
    }
    assert_eq!(d.next_marker(), Marker::First);
}

#[test]
fn alternation() {
    let moves: [(usize, usize); 5] = [(0, 0), (1, 0), (2, 0), (0, 1), (1, 1)];
    let mut g = TicTacToe::new();
    for (i, (col, row)) in moves.iter().enumerate() {
        let expected = if i % 2 == 0 { Marker::First } else { Marker::Second };
        assert_eq!(g.next_marker(), expected);
        let placed = g.click(*col, *row);
        assert!(placed);
        assert_eq!(g.get(*col, *row), Some(expected));
    }
}

#[test]
fn no_overwrite() {
    let mut g = TicTacToe::new();
    assert!(g.click(1, 1));
    assert_eq!(g.get(1, 1), Some(Marker::First));
    // Second is next; clicking the occupied cell must change nothing.
    assert_eq!(g.next_marker(), Marker::Second);
    let placed = g.click(1, 1);
    assert!(!placed);
    assert_eq!(g.get(1, 1), Some(Marker::First));
    assert_eq!(g.next_marker(), Marker::Second);
}

#[test]
fn addressability() {
    for row in 0..3usize {
        for col in 0..3usize {
            let mut b = Board::new();
            assert!(b.place(col, row, Marker::Second));
            for r2 in 0..3usize {
                for c2 in 0..3usize {
                    if (c2, r2) == (col, row) {
                        assert_eq!(b.get(c2, r2), Some(Marker::Second));
                    } else {
                        assert_eq!(b.get(c2, r2), None);
                    }
                }
            }
        }
    }
}

#[test]
fn row_major_indices() {
    assert_eq!(to_index((1, 0)), 1);
    assert_eq!(to_index((0, 1)), 3);
    // Index order visits (0,0),(1,0),(2,0),(0,1),... : columns fastest.
    let mut expected: usize = 0;
    for row in 0..3usize {
        for col in 0..3usize {
            assert_eq!(to_index((col, row)), expected);
            expected += 1;
        }
    }

    let mut g = TicTacToe::new();
    assert!(g.click(1, 0)); // First
    assert!(g.click(0, 1)); // Second
    let cells = g.cells_in_order();
    assert_eq!(cells.len(), 9);
    assert_eq!(cells[1], Some(Marker::First));
    assert_eq!(cells[3], Some(Marker::Second));
    for (i, cell) in cells.iter().enumerate() {
        if i != 1 && i != 3 {
            assert_eq!(*cell, None);
        }
    }
}

#[test]
fn end_to_end() {
    let mut g = TicTacToe::new();

    let placed = g.click(0, 0);
    assert!(placed);
    assert_eq!(g.next_marker(), Marker::Second);

    let placed = g.click(0, 0);
    assert!(!placed);
    assert_eq!(g.next_marker(), Marker::Second);

    let placed = g.click(1, 1);
    assert!(placed);
    assert_eq!(g.next_marker(), Marker::First);

    assert_eq!(g.get(0, 0), Some(Marker::First));
    assert_eq!(g.get(1, 1), Some(Marker::Second));
    for row in 0..3usize {
        for col in 0..3usize {
            if (col, row) != (0, 0) && (col, row) != (1, 1) {
                assert_eq!(g.get(col, row), None);
            }
        }
    }
}

#[test]
fn marker_flip() {
    assert_eq!(Marker::First.flip(), Marker::Second);
    assert_eq!(Marker::Second.flip(), Marker::First);
    assert_eq!(Marker::default(), Marker::First);
}

#[test]
fn marker_glyphs() {
    assert_eq!(Marker::First.glyph(), "\u{2b55}");
    assert_eq!(Marker::Second.glyph(), "\u{274c}");
    assert_ne!(Marker::First.glyph(), Marker::Second.glyph());
}

#[test]
fn board_place_reports() {
    let mut b = Board::new();
    assert!(b.place(2, 2, Marker::First));
    assert!(!b.place(2, 2, Marker::Second));
    assert_eq!(b.get(2, 2), Some(Marker::First));

    let d = Board::default();
    for row in 0..3usize {
        for col in 0..3usize {
            assert_eq!(d.get(col, row), None);
        }
    }
}

#[test]
fn title_is_fixed() {
    let g = TicTacToe::new();
    assert_eq!(g.title(), "tic tac toe");
}

#[test]
fn fresh_cells_all_empty() {
    let g = TicTacToe::new();
    let cells = g.cells_in_order();
    assert_eq!(cells.len(), 9);
    for cell in cells.iter() {
        assert_eq!(*cell, None);
    }
}
