use snake::board::{generate_points_pool, Board, CellSymbol};
use snake::commands::CommandTally;
use snake::fruit::Fruit;
use snake::point::{Direction, Point};
use snake::runner::{free_points, remove_eaten_fruits, Game, RoundEvent};
use std::collections::VecDeque;

#[test]
fn test_removing_fruits_on_eat() {
    let mut fruits = vec![Fruit {
        point: Point::new(2, 5),
    }];
    let snake_head = Point::new(2, 5);

    let removed = remove_eaten_fruits(&mut fruits, &snake_head);

    assert!(removed);
    assert_eq!(fruits.len(), 0)
}

#[test]
fn test_not_removing_fruits_on_move_without_eating() {
    let mut fruits = vec![Fruit {
        point: Point::new(2, 5),
    }];
    let snake_head = Point::new(3, 5);

    let removed = remove_eaten_fruits(&mut fruits, &snake_head);

    assert!(!removed);
    assert_eq!(fruits.len(), 1)
}

#[test]
fn removing_keeps_the_other_fruits_in_order() {
    let mut fruits = vec![
        Fruit { point: Point::new(1, 1) },
        Fruit { point: Point::new(2, 5) },
        Fruit { point: Point::new(3, 3) },
        Fruit { point: Point::new(2, 5) },
    ];
    assert!(remove_eaten_fruits(&mut fruits, &Point::new(2, 5)));
    assert_eq!(fruits, vec![Fruit { point: Point::new(1, 1) }, Fruit { point: Point::new(3, 3) }]);
    let mut none: Vec<Fruit> = Vec::new();
    assert!(!remove_eaten_fruits(&mut none, &Point::new(0, 0)));
}

#[test]
fn free_points_leave_out_the_occupied_ones() {
    let pool = vec![Point::new(0, 0), Point::new(0, 1), Point::new(0, 2), Point::new(1, 0)];
    let occupied: VecDeque<Point> = [Point::new(0, 1), Point::new(1, 0), Point::new(5, 5)].into_iter().collect();
    assert_eq!(free_points(&pool, &occupied), vec![Point::new(0, 0), Point::new(0, 2)]);
    assert_eq!(free_points(&pool, &VecDeque::new()), pool);
}

#[test]
fn fresh_game_has_no_score_and_no_fruit() {
    let game = Game::new();
    assert_eq!(game.score(), 0);
    assert!(game.fruits().is_empty());
    assert_eq!(game.snake().size(), 3);
}

#[test]
fn next_frame_draws_head_neck_and_clears_the_tail() {
    let game = Game::new();
    let mut board = Board::default();
    game.next_frame(&mut board);
    let mut out = String::new();
    board.get_board(&mut out).unwrap();
    let lines: Vec<&str> = out.lines().collect();
    // Playfield row y is canvas line y + 1; column x is character x + 1.
    assert_eq!(lines[11], "│          @         │");
    assert_eq!(lines[12], "│          #         │");
    assert_eq!(lines[13], "│                    │");
}

#[test]
fn moves_and_frames_follow_the_snake() {
    let mut game = Game::new();
    let mut board = Board::default();
    game.next_frame(&mut board);
    let mut tally = CommandTally::new();
    tally.register_command(Some(Direction::Left), game.snake().get_current_direction());
    assert_eq!(game.control_movement(&mut tally), Some(()));
    assert_eq!(tally.count(Direction::Left), 0);
    assert_eq!(*game.snake().head().unwrap(), Point::new(10, 9));
    game.next_frame(&mut board);
    let mut out = String::new();
    board.get_board(&mut out).unwrap();
    let lines: Vec<&str> = out.lines().collect();
    assert_eq!(lines[11], "│         @#         │");
    assert_eq!(lines[12], "│          #         │");
    assert_eq!(lines[13], "│                    │");
}

#[test]
fn an_empty_tally_keeps_the_heading() {
    let mut game = Game::new();
    let mut tally = CommandTally::new();
    assert_eq!(game.control_movement(&mut tally), Some(()));
    assert_eq!(*game.snake().head().unwrap(), Point::new(9, 10));
}

#[test]
fn eating_a_fruit_scores_and_grows_the_snake() {
    let mut game = Game::new();
    let pool = vec![Point::new(9, 10)];
    // The only free candidate lies just above the head; keep trying until a
    // fruit spawns there.
    while game.fruits().is_empty() {
        game.control_fruits(&pool);
    }
    assert_eq!(game.fruits()[0].point, Point::new(9, 10));
    let mut tally = CommandTally::new();
    assert_eq!(game.control_movement(&mut tally), Some(()));
    game.check_if_snake_ate_fruit();
    assert_eq!(game.score(), 1);
    assert!(game.fruits().is_empty());
    // The move that ate freed the old tail cell; growth does not change that.
    assert_eq!(game.snake().get_orphaned_tail(), Some(&Point::new(12, 10)));
    assert_eq!(game.control_movement(&mut tally), Some(()));
    assert_eq!(game.snake().size(), 4);
    // The growing move freed no cell.
    assert_eq!(game.snake().get_orphaned_tail(), None);
}

#[test]
fn the_frame_after_eating_clears_the_freed_tail_cell() {
    let mut game = Game::new();
    let mut board = Board::default();
    game.next_frame(&mut board);
    while game.fruits().is_empty() {
        game.control_fruits(&vec![Point::new(9, 10)]);
    }
    let mut tally = CommandTally::new();
    // Up onto the fruit: the head reaches (9, 10), the tail leaves (12, 10).
    assert_eq!(game.control_movement(&mut tally), Some(()));
    game.check_if_snake_ate_fruit();
    game.next_frame(&mut board);
    // Paint the old tail cell as if drawn earlier, then grow by one move.
    board.change_cell_symbol(&Point::new(11, 10), CellSymbol::Snake);
    assert_eq!(game.control_movement(&mut tally), Some(()));
    game.next_frame(&mut board);
    let mut out = String::new();
    board.get_board(&mut out).unwrap();
    let lines: Vec<&str> = out.lines().collect();
    assert_eq!(lines[9], "│          @         │");
    assert_eq!(lines[10], "│          #         │");
    // Nothing was freed by the growing move, so the body cell stays drawn.
    assert_eq!(lines[12], "│          #         │");
    assert_eq!(lines[13], "│                    │");
}

#[test]
fn no_fruit_spawns_on_the_snake_or_past_the_cap() {
    let mut game = Game::new();
    let body: Vec<Point> = game.snake().get_occupied_points().iter().copied().collect();
    for _ in 0..3000 {
        game.control_fruits(&body);
    }
    assert!(game.fruits().is_empty());
    let pool = generate_points_pool();
    for _ in 0..20000 {
        game.control_fruits(&pool);
    }
    assert_eq!(game.fruits().len(), 5);
    for f in game.fruits() {
        assert!(!body.contains(&f.point));
    }
}

#[test]
fn a_command_event_is_tallied_and_does_not_move() {
    let mut game = Game::new();
    let mut tally = CommandTally::new();
    assert!(game.handle_event(RoundEvent::Command(Some(Direction::Right)), &mut tally));
    assert!(game.handle_event(RoundEvent::Command(Some(Direction::Down)), &mut tally));
    assert!(game.handle_event(RoundEvent::Command(None), &mut tally));
    assert_eq!(tally.count(Direction::Right), 1);
    assert_eq!(tally.count(Direction::Down), 0);
    assert_eq!(*game.snake().head().unwrap(), Point::new(10, 10));
}

#[test]
fn a_tick_event_moves_the_snake_the_requested_way() {
    let mut game = Game::new();
    let mut tally = CommandTally::new();
    assert!(game.handle_event(RoundEvent::Command(Some(Direction::Right)), &mut tally));
    assert!(game.handle_event(RoundEvent::Tick, &mut tally));
    assert_eq!(*game.snake().head().unwrap(), Point::new(10, 11));
    assert_eq!(tally.count(Direction::Right), 0);
    assert!(game.handle_event(RoundEvent::Tick, &mut tally));
    assert_eq!(*game.snake().head().unwrap(), Point::new(10, 12));
}

#[test]
fn a_tick_event_that_bites_ends_the_round() {
    let mut game = Game::new();
    let mut tally = CommandTally::new();
    // Eat a fruit placed at each cell the head is about to enter, so the
    // snake grows to five segments, then turn back into its body.
    let plan = [
        (Direction::Up, Some(Point::new(9, 10))),
        (Direction::Right, Some(Point::new(9, 11))),
        (Direction::Down, None),
        (Direction::Left, None),
    ];
    let mut results = Vec::new();
    for (d, fruit_at) in plan {
        if let Some(p) = fruit_at {
            while game.fruits().is_empty() {
                game.control_fruits(&vec![p]);
            }
        }
        game.handle_event(RoundEvent::Command(Some(d)), &mut tally);
        results.push(game.handle_event(RoundEvent::Tick, &mut tally));
    }
    assert_eq!(game.score(), 2);
    assert_eq!(results, vec![true, true, true, false]);
}
