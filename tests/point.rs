use snake::consts::{BOARD_SIZE_X, BOARD_SIZE_Y};
use snake::point::{direction_from_lowercase, Direction, DirectionError, Point};

#[test]
fn test_point_add_assign_increase_y_in_bounds() {
    let direction = Direction::Down;

    let mut point = Point::new(6, 0);
    point += direction;

    assert_eq!(point.y, 7);
    assert_eq!(point.x, 0);
}

#[test]
fn test_point_add_assign_increase_x_in_bounds() {
    let direction = Direction::Left;

    let mut point = Point::new(0, 5);
    point += direction;

    assert_eq!(point.y, 0);
    assert_eq!(point.x, 4);
}

#[test]
fn test_point_add_assign_increase_out_of_lower_bound() {
    let direction = Direction::Left;

    let mut point = Point::new(0, 0);
    point += direction;

    assert_eq!(point.x, BOARD_SIZE_X - 1);
}

#[test]
fn test_point_add_assign_increase_out_of_upper_bound() {
    let direction = Direction::Down;

    let mut point = Point::new(BOARD_SIZE_Y - 1, 0);
    point += direction;

    assert_eq!(point.y, 0);
}

#[test]
fn opposite_of_opposite_is_the_direction() {
    for d in [Direction::Up, Direction::Down, Direction::Left, Direction::Right] {
        assert_eq!(d.opposite().opposite(), d);
        assert_ne!(d.opposite(), d);
    }
    assert_eq!(Direction::Up.opposite(), Direction::Down);
    assert_eq!(Direction::Left.opposite(), Direction::Right);
}

#[test]
fn step_and_reverse_step_return_to_the_start_across_wraps() {
    let starts = [
        Point::new(0, 0),
        Point::new(BOARD_SIZE_Y - 1, BOARD_SIZE_X - 1),
        Point::new(0, BOARD_SIZE_X - 1),
        Point::new(7, 13),
    ];
    for start in starts {
        for d in [Direction::Up, Direction::Down, Direction::Left, Direction::Right] {
            let mut p = start;
            p += d;
            assert!(p.y < BOARD_SIZE_Y && p.x < BOARD_SIZE_X);
            p += d.opposite();
            assert_eq!(p, start);
        }
    }
}

#[test]
fn up_from_the_top_row_wraps_to_the_bottom_row() {
    let mut p = Point::new(0, 3);
    p += Direction::Up;
    assert_eq!(p, Point::new(BOARD_SIZE_Y - 1, 3));
    let mut q = Point::new(4, BOARD_SIZE_X - 1);
    q += Direction::Right;
    assert_eq!(q, Point::new(4, 0));
}

#[test]
fn coords_are_row_then_column() {
    let mut p = Point::new(2, 9);
    assert_eq!(p.get_coords(), (2, 9));
    p.set_coords((11, 4));
    assert_eq!(p, Point { y: 11, x: 4 });
}

#[test]
fn step_sign_of_each_direction() {
    assert_eq!(i16::from(Direction::Up), -1);
    assert_eq!(i16::from(Direction::Down), 1);
    assert_eq!(i16::from(Direction::Left), -1);
    assert_eq!(i16::from(Direction::Right), 1);
}

#[test]
fn direction_names_parse_in_any_case() {
    assert_eq!(Direction::try_from("left".to_string()), Ok(Direction::Left));
    assert_eq!(Direction::try_from("RIGHT".to_string()), Ok(Direction::Right));
    assert_eq!(Direction::try_from("Up".to_string()), Ok(Direction::Up));
    assert_eq!(Direction::try_from("dOwN".to_string()), Ok(Direction::Down));
}

#[test]
fn unknown_direction_name_is_rejected_with_the_text() {
    let r = Direction::try_from("Sideways".to_string());
    assert_eq!(r, Err(DirectionError::ConversionFromStringError("Sideways".to_string())));
    assert_eq!(
        r.unwrap_err().message(),
        "There are 4 possible directions: ['left', 'right', 'up', 'down']. `Sideways` does not match any of them"
    );
    assert!(Direction::try_from(String::new()).is_err());
}

#[test]
fn lowercase_names_map_to_directions() {
    assert_eq!(direction_from_lowercase("up"), Some(Direction::Up));
    assert_eq!(direction_from_lowercase("down"), Some(Direction::Down));
    assert_eq!(direction_from_lowercase("left"), Some(Direction::Left));
    assert_eq!(direction_from_lowercase("right"), Some(Direction::Right));
    assert_eq!(direction_from_lowercase("UP"), None);
    assert_eq!(direction_from_lowercase("upp"), None);
    assert_eq!(direction_from_lowercase(""), None);
}
