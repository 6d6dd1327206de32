use tic_tac_toe::{Board, Cell, CellIndex, GameState, InvalidIndexError, Winner};

fn board_from(cells: Vec<Cell>) -> Board {
    assert_eq!(cells.len(), 9);
    Board::from_cells(&cells)
}

#[test]
fn new_round_trips_for_all_valid_pairs() {
    for row in 0..3usize {
        for column in 0..3usize {
            let idx = CellIndex::new(row, column).unwrap();
            assert_eq!(idx.row(), row);
            assert_eq!(idx.column(), column);
        }
    }
}

#[test]
fn new_rejects_out_of_range_pairs() {
    assert_eq!(
        CellIndex::new(3, 0).unwrap_err(),
        InvalidIndexError::RowColumnOutOfRange { row: 3, column: 0 }
    );
    assert_eq!(
        CellIndex::new(0, 3).unwrap_err(),
        InvalidIndexError::RowColumnOutOfRange { row: 0, column: 3 }
    );
    assert_eq!(
        CellIndex::new(7, 11).unwrap_err(),
        InvalidIndexError::RowColumnOutOfRange { row: 7, column: 11 }
    );
}

#[test]
fn from_linear_matches_new_inside_the_grid() {
    for n in 0..9usize {
        let from_linear = CellIndex::from_linear(n).unwrap();
        let from_pair = CellIndex::new(n / 3, n % 3).unwrap();
        assert_eq!(from_linear, from_pair);
        assert_eq!(from_linear.row(), n / 3);
        assert_eq!(from_linear.column(), n % 3);
    }
}

#[test]
fn from_linear_rejects_indices_outside_the_grid() {
    assert_eq!(
        CellIndex::from_linear(9).unwrap_err(),
        InvalidIndexError::LinearOutOfRange { index: 9 }
    );
    assert_eq!(
        CellIndex::from_linear(100).unwrap_err(),
        InvalidIndexError::LinearOutOfRange { index: 100 }
    );
}

#[test]
fn all_indices_are_the_nine_positions_in_row_major_order() {
    let indices = CellIndex::all_indices_in_order();
    assert_eq!(indices.len(), 9);
    for (n, idx) in indices.iter().enumerate() {
        assert_eq!(idx.row(), n / 3);
        assert_eq!(idx.column(), n % 3);
    }
    for i in 0..9 {
        for j in 0..9 {
            if i != j {
                assert_ne!(indices[i], indices[j]);
            }
        }
    }
}

#[test]
fn named_positions_equal_their_validated_pairs() {
    assert_eq!(CellIndex::top_left(), CellIndex::new(0, 0).unwrap());
    assert_eq!(CellIndex::top_middle(), CellIndex::new(0, 1).unwrap());
    assert_eq!(CellIndex::top_right(), CellIndex::new(0, 2).unwrap());
    assert_eq!(CellIndex::middle_left(), CellIndex::new(1, 0).unwrap());
    assert_eq!(CellIndex::center(), CellIndex::new(1, 1).unwrap());
    assert_eq!(CellIndex::middle_right(), CellIndex::new(1, 2).unwrap());
    assert_eq!(CellIndex::bottom_left(), CellIndex::new(2, 0).unwrap());
    assert_eq!(CellIndex::bottom_middle(), CellIndex::new(2, 1).unwrap());
    assert_eq!(CellIndex::bottom_right(), CellIndex::new(2, 2).unwrap());
}

#[test]
fn fresh_board_is_empty_with_no_winner() {
    let board = Board::default();
    for idx in CellIndex::all_indices_in_order() {
        assert_eq!(board.get_cell(idx), Cell::Empty);
    }
    assert_eq!(board.get_winner(), None);
}

#[test]
fn set_cell_writes_once_and_rejects_overwrites() {
    let mut board = Board::default();
    let idx = CellIndex::new(1, 2).unwrap();
    assert!(board.set_cell(idx, Cell::X));
    assert_eq!(board.get_cell(idx), Cell::X);
    assert!(!board.set_cell(idx, Cell::O));
    assert_eq!(board.get_cell(idx), Cell::X);
    assert!(!board.set_cell(idx, Cell::X));
    assert_eq!(board.get_cell(idx), Cell::X);
}

#[test]
fn set_cell_leaves_other_cells_alone() {
    let mut board = Board::default();
    assert!(board.set_cell(CellIndex::center(), Cell::O));
    for idx in CellIndex::all_indices_in_order() {
        if idx == CellIndex::center() {
            assert_eq!(board.get_cell(idx), Cell::O);
        } else {
            assert_eq!(board.get_cell(idx), Cell::Empty);
        }
    }
}

#[test]
fn top_row_of_x_wins_for_x() {
    let mut board = Board::default();
    assert!(board.set_cell(CellIndex::top_left(), Cell::X));
    assert!(board.set_cell(CellIndex::top_middle(), Cell::X));
    assert!(board.set_cell(CellIndex::top_right(), Cell::X));
    assert_eq!(board.get_winner(), Some(Winner::X));
}

#[test]
fn left_column_of_o_wins_for_o() {
    let mut board = Board::default();
    assert!(board.set_cell(CellIndex::top_left(), Cell::O));
    assert!(board.set_cell(CellIndex::middle_left(), Cell::O));
    assert!(board.set_cell(CellIndex::bottom_left(), Cell::O));
    assert_eq!(board.get_winner(), Some(Winner::O));
}

#[test]
fn main_diagonal_of_x_wins_for_x() {
    let mut board = Board::default();
    assert!(board.set_cell(CellIndex::top_left(), Cell::X));
    assert!(board.set_cell(CellIndex::center(), Cell::X));
    assert!(board.set_cell(CellIndex::bottom_right(), Cell::X));
    assert_eq!(board.get_winner(), Some(Winner::X));
}

#[test]
fn anti_diagonal_of_x_wins_for_x() {
    let mut board = Board::default();
    assert!(board.set_cell(CellIndex::top_right(), Cell::X));
    assert!(board.set_cell(CellIndex::center(), Cell::X));
    assert!(board.set_cell(CellIndex::bottom_left(), Cell::X));
    assert_eq!(board.get_winner(), Some(Winner::X));
}

#[test]
fn full_board_without_three_in_a_row_is_a_draw() {
    let board = board_from(vec![
        Cell::X, Cell::O, Cell::X,
        Cell::X, Cell::O, Cell::O,
        Cell::O, Cell::X, Cell::X,
    ]);
    assert_eq!(board.get_winner(), None);
}

#[test]
fn columns_are_checked_left_to_right() {
    let x_left_o_right = board_from(vec![
        Cell::X, Cell::Empty, Cell::O,
        Cell::X, Cell::Empty, Cell::O,
        Cell::X, Cell::Empty, Cell::O,
    ]);
    assert_eq!(x_left_o_right.get_winner(), Some(Winner::X));
    let o_left_x_right = board_from(vec![
        Cell::O, Cell::Empty, Cell::X,
        Cell::O, Cell::Empty, Cell::X,
        Cell::O, Cell::Empty, Cell::X,
    ]);
    assert_eq!(o_left_x_right.get_winner(), Some(Winner::O));
}

#[test]
fn rows_are_checked_top_to_bottom() {
    let x_top_o_bottom = board_from(vec![
        Cell::X, Cell::X, Cell::X,
        Cell::Empty, Cell::Empty, Cell::Empty,
        Cell::O, Cell::O, Cell::O,
    ]);
    assert_eq!(x_top_o_bottom.get_winner(), Some(Winner::X));
}

#[test]
fn iterate_matches_get_cell_over_the_canonical_order() {
    let board = board_from(vec![
        Cell::X, Cell::O, Cell::Empty,
        Cell::O, Cell::X, Cell::Empty,
        Cell::Empty, Cell::O, Cell::X,
    ]);
    let cells = board.iter();
    let indices = CellIndex::all_indices_in_order();
    assert_eq!(cells.len(), 9);
    for n in 0..9 {
        assert_eq!(cells[n], board.get_cell(indices[n]));
    }
}

#[test]
fn iter_enumerated_pairs_each_cell_with_its_coordinate() {
    let board = board_from(vec![
        Cell::Empty, Cell::X, Cell::O,
        Cell::X, Cell::Empty, Cell::O,
        Cell::O, Cell::X, Cell::Empty,
    ]);
    let pairs = board.iter_enumerated();
    assert_eq!(pairs.len(), 9);
    for (n, (idx, cell)) in pairs.iter().enumerate() {
        assert_eq!(idx.row(), n / 3);
        assert_eq!(idx.column(), n % 3);
        assert_eq!(*cell, board.get_cell(*idx));
    }
}

#[test]
fn from_cells_inverts_iter() {
    let board = board_from(vec![
        Cell::O, Cell::Empty, Cell::X,
        Cell::Empty, Cell::X, Cell::O,
        Cell::X, Cell::Empty, Cell::O,
    ]);
    let rebuilt = Board::from_cells(&board.iter());
    assert_eq!(rebuilt, board);
}

#[test]
fn cell_tags_round_trip() {
    for cell in [Cell::Empty, Cell::X, Cell::O] {
        assert_eq!(Cell::from_tag(cell.to_tag()), Some(cell));
    }
    assert_eq!(Cell::Empty.to_tag(), 0);
    assert_eq!(Cell::X.to_tag(), 1);
    assert_eq!(Cell::O.to_tag(), 2);
    assert_eq!(Cell::from_tag(3), None);
}

#[test]
fn winner_tags_round_trip() {
    for winner in [Winner::X, Winner::O] {
        assert_eq!(Winner::from_tag(winner.to_tag()), Some(winner));
    }
    assert_eq!(Winner::from_tag(0), None);
    assert_eq!(Winner::from_tag(3), None);
}

#[test]
fn board_encoding_round_trips() {
    let boards = vec![
        Board::default(),
        board_from(vec![
            Cell::X, Cell::O, Cell::X,
            Cell::X, Cell::O, Cell::O,
            Cell::O, Cell::X, Cell::X,
        ]),
        board_from(vec![
            Cell::Empty, Cell::X, Cell::Empty,
            Cell::O, Cell::Empty, Cell::X,
            Cell::Empty, Cell::O, Cell::Empty,
        ]),
    ];
    for board in boards {
        let bytes = board.encode();
        assert_eq!(bytes.len(), 9);
        assert_eq!(Board::decode(&bytes), Some(board));
    }
}

#[test]
fn board_decode_rejects_bad_input() {
    assert_eq!(Board::decode(&vec![0u8; 8]), None);
    assert_eq!(Board::decode(&vec![0u8; 10]), None);
    let mut bytes = vec![0u8; 9];
    bytes[4] = 3;
    assert_eq!(Board::decode(&bytes), None);
}

#[test]
fn fresh_game_state_has_empty_board_x_turn_no_winner() {
    let state = GameState::default();
    for idx in CellIndex::all_indices_in_order() {
        assert_eq!(state.board.get_cell(idx), Cell::Empty);
    }
    assert!(state.is_x_turn);
    assert_eq!(state.winner, None);
    assert_eq!(state.board.get_winner(), None);
}

#[test]
fn game_state_encoding_round_trips() {
    let mut board = Board::default();
    assert!(board.set_cell(CellIndex::top_left(), Cell::X));
    assert!(board.set_cell(CellIndex::center(), Cell::O));
    let states = vec![
        GameState::default(),
        GameState { board, is_x_turn: false, winner: None },
        GameState { board, is_x_turn: true, winner: Some(Winner::X) },
        GameState { board, is_x_turn: false, winner: Some(Winner::O) },
    ];
    for state in states {
        let bytes = state.encode();
        assert_eq!(bytes.len(), 11);
        let back = GameState::decode(&bytes).unwrap();
        assert_eq!(back, state);
    }
}

#[test]
fn game_state_decode_rejects_bad_input() {
    assert_eq!(GameState::decode(&vec![0u8; 10]), None);
    assert_eq!(GameState::decode(&vec![0u8; 12]), None);
    let mut bad_cell = vec![0u8; 11];
    bad_cell[0] = 9;
    assert_eq!(GameState::decode(&bad_cell), None);
    let mut bad_turn = vec![0u8; 11];
    bad_turn[9] = 2;
    assert_eq!(GameState::decode(&bad_turn), None);
    let mut bad_winner = vec![0u8; 11];
    bad_winner[10] = 7;
    assert_eq!(GameState::decode(&bad_winner), None);
}

#[test]
fn default_cell_is_empty() {
    assert_eq!(Cell::default(), Cell::Empty);
}
