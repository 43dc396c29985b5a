use unipac::board::{parse_rows, Board, BoardError};
use unipac::geometry::Position;
use unipac::maze::{layout, MAZE_BLUE, MAZE_PINK, MAZE_REGULAR, MAZE_SMALL};
use unipac::square::Square;

fn at(col: usize, row: usize) -> Position {
    Position::from_xy(col, row)
}

const ARENA: [&str; 5] = [
    "############################",
    "#p........................$#",
    "#.###########--###########.#",
    "#.###########HH###########.#",
    "############################",
];

fn arena_with(row: usize, text: &'static str) -> [&'static str; 5] {
    let mut rows = ARENA;
    rows[row] = text;
    rows
}

fn error_of(rows: &[&str]) -> Option<BoardError> {
    Board::from_rows(rows).err()
}

#[test]
fn layouts_by_level() {
    assert_eq!(layout(0), &MAZE_SMALL[..]);
    assert_eq!(layout(1), &MAZE_REGULAR[..]);
    assert_eq!(layout(2), &MAZE_PINK[..]);
    assert_eq!(layout(3), &MAZE_BLUE[..]);
    assert_eq!(layout(4), &MAZE_REGULAR[..]);
    assert_eq!(layout(1000), &MAZE_REGULAR[..]);
}

#[test]
fn every_level_builds() {
    for level in (0..16).chain([u32::MAX]) {
        let b = Board::new(level);
        assert_eq!(b.len(), b.height() * 28);
        assert_eq!(b.at(b.gate1()), Square::Gate);
        assert_eq!(Board::from_rows(layout(level)).err(), None);
    }
}

#[test]
fn small_maze_landmarks() {
    let b = Board::new(0);
    assert_eq!(b.width(), 28);
    assert_eq!(b.height(), 24);
    assert_eq!(b.len(), 672);
    assert_eq!(b.gate1(), at(13, 9));
    assert_eq!(b.gate2(), at(14, 9));
    assert_eq!(b.front_of_gate1(), at(13, 8));
    assert_eq!(b.front_of_gate2(), at(14, 8));
    assert_eq!(b.fruit(), at(13, 14));
    assert_eq!(b.pacman_start(), at(13, 18));
    assert_eq!(b.ghost_start(), [at(12, 10), at(15, 10), at(12, 12), at(15, 12)]);
    assert_eq!(b.dots(), 209);
}

#[test]
fn regular_maze_landmarks() {
    let b = Board::new(1);
    assert_eq!(b.height(), 29);
    assert_eq!(b.gate1(), at(13, 11));
    assert_eq!(b.gate2(), at(14, 11));
    assert_eq!(b.front_of_gate1(), at(13, 10));
    assert_eq!(b.front_of_gate2(), at(14, 10));
    assert_eq!(b.fruit(), at(13, 16));
    assert_eq!(b.pacman_start(), at(13, 21));
    assert_eq!(b.ghost_start(), [at(12, 12), at(15, 12), at(12, 14), at(15, 14)]);
    assert_eq!(b.dots(), 237);
}

#[test]
fn pink_and_blue_maze_landmarks() {
    let pink = Board::new(2);
    assert_eq!(pink.height(), 31);
    assert_eq!(pink.gate1(), at(13, 11));
    assert_eq!(pink.fruit(), at(13, 17));
    assert_eq!(pink.pacman_start(), at(13, 23));
    assert_eq!(pink.ghost_start(), [at(12, 12), at(15, 12), at(12, 15), at(15, 15)]);
    assert_eq!(pink.dots(), 223);
    let blue = Board::new(3);
    assert_eq!(blue.height(), 31);
    assert_eq!(blue.gate1(), at(13, 12));
    assert_eq!(blue.gate2(), at(14, 12));
    assert_eq!(blue.fruit(), at(13, 16));
    assert_eq!(blue.pacman_start(), at(13, 23));
    assert_eq!(blue.ghost_start(), [at(12, 13), at(15, 13), at(12, 14), at(15, 14)]);
    assert_eq!(blue.dots(), 238);
}

#[test]
fn every_level_has_two_gates_one_fruit_one_start() {
    for level in 0..6 {
        let b = Board::new(level);
        let mut gates = 0;
        let mut fruits = 0;
        let mut starts = 0;
        let mut houses = 0;
        for i in 0..b.len() {
            match b.at(Position(i)) {
                Square::Gate => gates += 1,
                Square::Fruit => fruits += 1,
                Square::Start => starts += 1,
                Square::House => houses += 1,
                _ => {}
            }
        }
        assert_eq!((gates, fruits, starts), (2, 1, 1));
        assert!(houses >= 1);
        assert_eq!(b.at(b.gate1()), Square::Gate);
        assert_eq!(b.at(b.gate2()), Square::Gate);
        assert!(b.gate1().0 < b.gate2().0);
        assert_eq!(b.at(b.fruit()), Square::Fruit);
        assert_eq!(b.at(b.pacman_start()), Square::Start);
    }
}

#[test]
fn board_tiles_follow_the_layout() {
    let b = Board::new(0);
    for (row, text) in MAZE_SMALL.iter().enumerate() {
        for (col, c) in text.chars().enumerate() {
            assert_eq!(b.at(at(col, row)).to_char(), c);
        }
    }
}

#[test]
fn arena_builds() {
    let b = Board::from_rows(&ARENA).unwrap();
    assert_eq!(b.height(), 5);
    assert_eq!(b.gate1(), at(13, 2));
    assert_eq!(b.gate2(), at(14, 2));
    assert_eq!(b.front_of_gate1(), at(13, 1));
    assert_eq!(b.front_of_gate2(), at(14, 1));
    assert_eq!(b.fruit(), at(26, 1));
    assert_eq!(b.pacman_start(), at(1, 1));
    assert_eq!(b.ghost_start(), [at(13, 3), at(14, 3), at(13, 3), at(14, 3)]);
    assert_eq!(b.dots(), 28);
}

#[test]
fn house_box_is_the_smallest_box() {
    let rows = [
        "############################",
        "#p........................$#",
        "#.###########--###########.#",
        "#.####H######HH###########.#",
        "#.###########HHHH#########.#",
        "#.###########H############.#",
        "############################",
    ];
    let b = Board::from_rows(&rows).unwrap();
    assert_eq!(b.ghost_start(), [at(6, 3), at(16, 3), at(6, 5), at(16, 5)]);
}

#[test]
fn parse_rows_reads_tiles_in_row_order() {
    let grid = parse_rows(&ARENA).unwrap();
    assert_eq!(grid.len(), 140);
    assert_eq!(grid[0], Square::Wall);
    assert_eq!(grid[29], Square::Start);
    assert_eq!(grid[30], Square::Dot);
    assert_eq!(grid[28 + 26], Square::Fruit);
    assert_eq!(grid[2 * 28 + 13], Square::Gate);
    assert_eq!(grid[3 * 28 + 14], Square::House);
}

#[test]
fn parse_rows_of_nothing_is_empty() {
    let rows: [&str; 0] = [];
    assert_eq!(parse_rows(&rows), Ok(vec![]));
}

#[test]
fn short_row_is_wrong_width() {
    let rows = arena_with(1, "#p.......................$#");
    assert_eq!(parse_rows(&rows), Err(BoardError::WrongWidth));
    assert_eq!(error_of(&rows), Some(BoardError::WrongWidth));
}

#[test]
fn long_row_is_wrong_width() {
    let rows = arena_with(4, "#############################");
    assert_eq!(error_of(&rows), Some(BoardError::WrongWidth));
}

#[test]
fn width_counts_characters_not_bytes() {
    let rows = arena_with(1, "#p.......................\u{e9}$#");
    assert_eq!(error_of(&rows), Some(BoardError::UnknownTile));
}

#[test]
fn unknown_character_is_refused() {
    let rows = arena_with(1, "#p...........x............$#");
    assert_eq!(parse_rows(&rows), Err(BoardError::UnknownTile));
    assert_eq!(error_of(&rows), Some(BoardError::UnknownTile));
}

#[test]
fn wrong_width_comes_before_unknown_character() {
    let mut rows = arena_with(1, "#p...........x............$#");
    rows[3] = "#.###########HH###########.";
    assert_eq!(error_of(&rows), Some(BoardError::WrongWidth));
}

#[test]
fn declared_width_must_be_the_width() {
    let grid = parse_rows(&ARENA).unwrap();
    assert_eq!(Board::from_grid(grid.clone(), 27).err(), Some(BoardError::WrongWidth));
    assert_eq!(Board::from_grid(grid.clone(), 140).err(), Some(BoardError::WrongWidth));
    assert!(Board::from_grid(grid, 28).is_ok());
}

#[test]
fn grid_must_be_whole_rows() {
    let mut grid = parse_rows(&ARENA).unwrap();
    grid.push(Square::Wall);
    assert_eq!(Board::from_grid(grid, 28).err(), Some(BoardError::WrongWidth));
}

#[test]
fn gates_must_be_exactly_two() {
    let none = arena_with(2, "#.########################.#");
    assert_eq!(error_of(&none), Some(BoardError::GateCount));
    let one = arena_with(2, "#.###########-############.#");
    assert_eq!(error_of(&one), Some(BoardError::GateCount));
    let three = arena_with(2, "#.###########---##########.#");
    assert_eq!(error_of(&three), Some(BoardError::GateCount));
    let empty: [&str; 0] = [];
    assert_eq!(error_of(&empty), Some(BoardError::GateCount));
}

#[test]
fn fruit_must_be_exactly_one() {
    let none = arena_with(1, "#p.........................#");
    assert_eq!(error_of(&none), Some(BoardError::FruitCount));
    let two = arena_with(1, "#p.......................$$#");
    assert_eq!(error_of(&two), Some(BoardError::FruitCount));
}

#[test]
fn start_must_be_exactly_one() {
    let none = arena_with(1, "#.........................$#");
    assert_eq!(error_of(&none), Some(BoardError::StartCount));
    let two = arena_with(1, "#pp.......................$#");
    assert_eq!(error_of(&two), Some(BoardError::StartCount));
}

#[test]
fn house_must_exist() {
    let rows = arena_with(3, "#.########################.#");
    assert_eq!(error_of(&rows), Some(BoardError::NoHouse));
}

#[test]
fn errors_come_in_a_fixed_order() {
    let mut rows = arena_with(2, "#.########################.#");
    rows[1] = "#..........................#";
    rows[3] = "#.########################.#";
    rows[0] = "#####.######################";
    assert_eq!(error_of(&rows), Some(BoardError::GateCount));
    rows[2] = ARENA[2];
    assert_eq!(error_of(&rows), Some(BoardError::FruitCount));
    rows[1] = "#.........................$#";
    assert_eq!(error_of(&rows), Some(BoardError::StartCount));
    rows[1] = ARENA[1];
    assert_eq!(error_of(&rows), Some(BoardError::NoHouse));
    rows[3] = ARENA[3];
    assert_eq!(error_of(&rows), Some(BoardError::NotEnclosed));
    rows[0] = ARENA[0];
    assert_eq!(error_of(&rows), None);
}

#[test]
fn first_and_last_row_must_be_walls() {
    let top = arena_with(0, "#####.######################");
    assert_eq!(error_of(&top), Some(BoardError::NotEnclosed));
    let bottom = arena_with(4, "###########################;");
    assert_eq!(error_of(&bottom), Some(BoardError::NotEnclosed));
}

#[test]
fn gate_must_keep_off_the_first_and_last_row() {
    let high = [
        "############################",
        "#p...........--...........$#",
        "#.###########HH###########.#",
        "#.########################.#",
        "############################",
    ];
    assert_eq!(error_of(&high), Some(BoardError::NotEnclosed));
    let low = [
        "############################",
        "#p........................$#",
        "#.###########HH###########.#",
        "#.###########--###########.#",
        "############################",
    ];
    assert_eq!(error_of(&low), Some(BoardError::NotEnclosed));
}

#[test]
fn side_columns_may_be_open() {
    let rows = arena_with(1, ";p........................$;");
    assert!(Board::from_rows(&rows).is_ok());
}

#[test]
fn get_is_none_off_the_grid() {
    let b = Board::from_rows(&ARENA).unwrap();
    assert_eq!(b.get(Position(0)), Some(Square::Wall));
    assert_eq!(b.get(Position(139)), Some(Square::Wall));
    assert_eq!(b.get(Position(140)), None);
    assert_eq!(b.get(Position(usize::MAX)), None);
    assert_eq!(b.get(at(2, 1)), Some(Square::Dot));
}

#[test]
fn is_inner_leaves_out_the_first_and_last_row() {
    let b = Board::from_rows(&ARENA).unwrap();
    assert!(!b.is_inner(at(5, 0)));
    assert!(b.is_inner(at(0, 1)));
    assert!(b.is_inner(at(27, 3)));
    assert!(!b.is_inner(at(0, 4)));
    assert!(!b.is_inner(Position(140)));
    assert!(!b.is_inner(Position(usize::MAX)));
}

#[test]
fn consume_eats_dots_and_pills_only() {
    let mut b = Board::new(0);
    assert_eq!(b.consume(at(12, 18)), Some(Square::Dot));
    assert_eq!(b.at(at(12, 18)), Square::Empty);
    assert_eq!(b.dots(), 208);
    assert_eq!(b.consume(at(12, 18)), None);
    assert_eq!(b.dots(), 208);
    assert_eq!(b.consume(at(1, 18)), Some(Square::Pill));
    assert_eq!(b.at(at(1, 18)), Square::Empty);
    assert_eq!(b.dots(), 208);
    assert_eq!(b.consume(at(13, 14)), None);
    assert_eq!(b.at(at(13, 14)), Square::Fruit);
    assert_eq!(b.consume(at(13, 9)), None);
    assert_eq!(b.at(at(13, 9)), Square::Gate);
    assert_eq!(b.consume(at(0, 0)), None);
    assert_eq!(b.at(at(0, 0)), Square::Wall);
    assert_eq!(b.consume(Position(672)), None);
    assert_eq!(b.consume(Position(usize::MAX)), None);
}

#[test]
fn consume_keeps_the_landmarks() {
    let mut b = Board::new(0);
    for i in 0..b.len() {
        b.consume(Position(i));
    }
    assert_eq!(b.dots(), 0);
    assert_eq!(b.gate1(), at(13, 9));
    assert_eq!(b.gate2(), at(14, 9));
    assert_eq!(b.fruit(), at(13, 14));
    assert_eq!(b.pacman_start(), at(13, 18));
    assert_eq!(b.ghost_start(), [at(12, 10), at(15, 10), at(12, 12), at(15, 12)]);
    assert_eq!(b.at(at(1, 3)), Square::Empty);
    assert_eq!(b.at(at(0, 11)), Square::Tunnel);
}
