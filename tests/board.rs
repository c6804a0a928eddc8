use snake::board::{generate_points_pool, Board, CellSymbol, Junction, Wall};
use snake::point::Point;

#[test]
fn test_default_cavas() {
    let raw_canvas = r#"┌────────────────────┐
│                    │
│                    │
│                    │
│                    │
│                    │
│                    │
│                    │
│                    │
│                    │
│                    │
│                    │
│                    │
│                    │
│                    │
│                    │
│                    │
│                    │
│                    │
│                    │
│                    │
└────────────────────┘
"#;

    let board = Board::default();
    let mut generated_board_str = String::new();
    board.get_board(&mut generated_board_str).unwrap();

    assert_eq!(raw_canvas, generated_board_str.as_str());
}

#[test]
fn rendering_appends_to_what_is_there() {
    let board = Board::default();
    let mut out = String::from(">");
    board.get_board(&mut out).unwrap();
    assert!(out.starts_with(">┌"));
    assert_eq!(out.chars().count(), 1 + 22 * 23);
}

#[test]
fn changed_cells_show_at_their_shifted_position() {
    let mut board = Board::default();
    board.change_cell_symbol(&Point::new(0, 0), CellSymbol::SnakeHead);
    board.change_cell_symbol(&Point::new(0, 1), CellSymbol::Snake);
    board.change_cell_symbol(&Point::new(19, 19), CellSymbol::Fruit);
    let mut out = String::new();
    board.get_board(&mut out).unwrap();
    let lines: Vec<&str> = out.lines().collect();
    assert_eq!(lines.len(), 22);
    assert_eq!(lines[1], "│@#                  │");
    assert_eq!(lines[20], "│                   O│");
    assert_eq!(lines[0], "┌────────────────────┐");
    assert_eq!(lines[21], "└────────────────────┘");
}

#[test]
fn cell_symbols_draw_as_their_characters() {
    assert_eq!(CellSymbol::Board.to_char(), ' ');
    assert_eq!(CellSymbol::Snake.to_char(), '#');
    assert_eq!(CellSymbol::SnakeHead.to_char(), '@');
    assert_eq!(CellSymbol::Fruit.to_char(), 'O');
    assert_eq!(CellSymbol::Wall(Wall::NS).to_char(), '│');
    assert_eq!(CellSymbol::Wall(Wall::EW).to_char(), '─');
    assert_eq!(char::from(Junction::NE), '└');
    assert_eq!(char::from(Junction::NW), '┘');
    assert_eq!(char::from(Junction::SE), '┌');
    assert_eq!(char::from(Junction::SW), '┐');
}

#[test]
fn points_pool_holds_every_playfield_point_row_by_row() {
    let pool = generate_points_pool();
    assert_eq!(pool.len(), 400);
    assert_eq!(pool[0], Point::new(0, 0));
    assert_eq!(pool[1], Point::new(0, 1));
    assert_eq!(pool[20], Point::new(1, 0));
    assert_eq!(pool[399], Point::new(19, 19));
}
