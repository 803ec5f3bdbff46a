use gtksnake::{Coordinate, Player};

const UP: [i8; 2] = [0, -1];
const DOWN: [i8; 2] = [0, 1];
const LEFT: [i8; 2] = [-1, 0];
const RIGHT: [i8; 2] = [1, 0];

fn snake(head: (i32, i32), body: &[(i32, i32)], direction: [i8; 2]) -> Player {
    let mut player = Player::new(head.0, head.1);
    player.body = body.iter().map(|(x, y)| Coordinate::new(*x, *y)).collect();
    player.direction = direction;
    player
}

fn cells(player: &Player) -> Vec<(i32, i32)> {
    player.body.iter().map(|c| (c.x, c.y)).collect()
}

#[test]
fn new_player_is_a_bare_head_heading_right() {
    let player = Player::new(7, 5);
    assert_eq!(player.coordinate, Coordinate::new(7, 5));
    assert!(player.body.is_empty());
    assert_eq!(player.direction, RIGHT);
    assert!(!player.extend);
}

#[test]
fn move_takes_one_step_in_each_direction() {
    for (direction, to) in [(UP, (7, 4)), (DOWN, (7, 6)), (LEFT, (6, 5)), (RIGHT, (8, 5))] {
        let mut player = snake((7, 5), &[], direction);
        player.do_move(14, 10);
        assert_eq!((player.coordinate.x, player.coordinate.y), to);
        assert_eq!(player.direction, direction);
        assert!(player.body.is_empty());
    }
}

#[test]
fn move_wraps_past_the_right_edge() {
    for y in 0..10 {
        let mut player = snake((13, y), &[], RIGHT);
        player.do_move(14, 10);
        assert_eq!(player.coordinate, Coordinate::new(0, y));
    }
}

#[test]
fn move_wraps_past_the_left_edge() {
    for y in 0..10 {
        let mut player = snake((0, y), &[], LEFT);
        player.do_move(14, 10);
        assert_eq!(player.coordinate, Coordinate::new(13, y));
    }
}

#[test]
fn move_wraps_past_the_top_and_the_bottom() {
    let mut player = snake((3, 0), &[], UP);
    player.do_move(14, 10);
    assert_eq!(player.coordinate, Coordinate::new(3, 9));
    let mut player = snake((3, 9), &[], DOWN);
    player.do_move(14, 10);
    assert_eq!(player.coordinate, Coordinate::new(3, 0));
}

#[test]
fn move_on_a_grid_of_one_cell_stays() {
    for direction in [UP, DOWN, LEFT, RIGHT] {
        let mut player = snake((0, 0), &[], direction);
        player.do_move(1, 1);
        assert_eq!(player.coordinate, Coordinate::new(0, 0));
    }
}

#[test]
fn move_brings_a_head_from_outside_onto_the_grid() {
    let mut player = snake((100, 50), &[], RIGHT);
    player.do_move(14, 10);
    assert_eq!(player.coordinate, Coordinate::new(0, 0));
    let mut player = snake((-5, -7), &[], RIGHT);
    player.do_move(14, 10);
    assert_eq!(player.coordinate, Coordinate::new(13, 9));
    let mut player = snake((14, 3), &[], LEFT);
    player.do_move(14, 10);
    assert_eq!(player.coordinate, Coordinate::new(13, 3));
}

#[test]
fn move_at_the_ends_of_i32() {
    let mut player = snake((i32::MAX, i32::MAX), &[], RIGHT);
    player.do_move(14, 10);
    assert_eq!(player.coordinate, Coordinate::new(0, 0));
    let mut player = snake((i32::MIN, i32::MIN), &[], LEFT);
    player.do_move(14, 10);
    assert_eq!(player.coordinate, Coordinate::new(13, 9));
    let mut player = snake((i32::MAX - 1, 0), &[], RIGHT);
    player.do_move(i32::MAX, 1);
    assert_eq!(player.coordinate, Coordinate::new(0, 0));
    let mut player = snake((i32::MAX - 2, 0), &[], RIGHT);
    player.do_move(i32::MAX, 1);
    assert_eq!(player.coordinate, Coordinate::new(i32::MAX - 1, 0));
}

#[test]
fn bare_head_leaves_no_body_behind() {
    let mut player = Player::new(7, 5);
    for _ in 0..20 {
        player.do_move(14, 10);
        assert!(player.body.is_empty());
    }
    assert_eq!(player.coordinate, Coordinate::new(13, 5));
}

#[test]
fn body_follows_the_head() {
    let mut player = snake((7, 5), &[(6, 5), (5, 5), (4, 5)], RIGHT);
    player.do_move(14, 10);
    assert_eq!(player.coordinate, Coordinate::new(8, 5));
    assert_eq!(cells(&player), vec![(7, 5), (6, 5), (5, 5)]);
    player.direction = DOWN;
    player.do_move(14, 10);
    assert_eq!(player.coordinate, Coordinate::new(8, 6));
    assert_eq!(cells(&player), vec![(8, 5), (7, 5), (6, 5)]);
}

#[test]
fn body_of_one_cell_follows_the_head() {
    let mut player = snake((7, 5), &[(6, 5)], RIGHT);
    player.do_move(14, 10);
    assert_eq!(cells(&player), vec![(7, 5)]);
    assert_eq!(player.coordinate, Coordinate::new(8, 5));
}

#[test]
fn extend_schedules_growth() {
    let mut player = Player::new(7, 5);
    player.extend();
    assert!(player.extend);
    assert!(player.body.is_empty());
    assert_eq!(player.coordinate, Coordinate::new(7, 5));
    assert_eq!(player.direction, RIGHT);
    player.extend();
    assert!(player.extend);
}

#[test]
fn growth_adds_one_cell_to_a_move() {
    let mut plain = snake((7, 5), &[(6, 5), (5, 5)], RIGHT);
    let mut grown = snake((7, 5), &[(6, 5), (5, 5)], RIGHT);
    grown.extend();
    plain.do_move(14, 10);
    grown.do_move(14, 10);
    assert_eq!(plain.body.len(), 2);
    assert_eq!(grown.body.len(), plain.body.len() + 1);
    assert_eq!(cells(&grown), vec![(7, 5), (6, 5), (5, 5)]);
    assert_eq!(grown.coordinate, plain.coordinate);
}

#[test]
fn growth_gives_a_bare_head_its_first_cell() {
    let mut player = Player::new(7, 5);
    player.extend();
    player.do_move(14, 10);
    assert_eq!(cells(&player), vec![(7, 5)]);
    assert_eq!(player.coordinate, Coordinate::new(8, 5));
}

#[test]
fn growth_is_used_up_by_one_move() {
    let mut player = Player::new(7, 5);
    player.extend();
    player.do_move(14, 10);
    assert!(!player.extend);
    player.do_move(14, 10);
    assert_eq!(cells(&player), vec![(8, 5)]);
    player.do_move(14, 10);
    assert_eq!(cells(&player), vec![(9, 5)]);
}

#[test]
fn growth_scheduled_twice_counts_once() {
    let mut player = Player::new(7, 5);
    player.extend();
    player.extend();
    player.do_move(14, 10);
    player.do_move(14, 10);
    assert_eq!(player.body.len(), 1);
}

#[test]
fn keys_set_the_direction() {
    for (key, direction) in [('w', UP), ('a', LEFT), ('s', DOWN), ('d', RIGHT)] {
        for from in [UP, DOWN, LEFT, RIGHT] {
            let mut player = snake((7, 5), &[], from);
            player.handle_keypress(key);
            assert_eq!(player.direction, direction);
        }
    }
}

#[test]
fn keys_count_in_either_case() {
    for (key, direction) in [('W', UP), ('A', LEFT), ('S', DOWN), ('D', RIGHT)] {
        for from in [UP, DOWN, LEFT, RIGHT] {
            let mut player = snake((7, 5), &[], from);
            player.handle_keypress(key);
            assert_eq!(player.direction, direction);
        }
    }
}

#[test]
fn other_keys_are_ignored() {
    for key in ['x', 'q', ' ', '\0', '\n', '8', 'e', 'z', '\u{e4}', '\u{ff57}', '\u{1e83}', '\u{10ffff}'] {
        for from in [UP, DOWN, LEFT, RIGHT] {
            for body in [vec![], vec![(1, 1)]] {
                let mut player = snake((7, 5), &body, from);
                player.handle_keypress(key);
                assert_eq!(player.direction, from);
                assert_eq!(cells(&player), body);
            }
        }
    }
}

#[test]
fn keypress_changes_the_direction_only() {
    let mut player = snake((7, 5), &[(6, 5), (5, 5)], RIGHT);
    player.extend();
    player.handle_keypress('w');
    assert_eq!(player.coordinate, Coordinate::new(7, 5));
    assert_eq!(cells(&player), vec![(6, 5), (5, 5)]);
    assert!(player.extend);
    assert_eq!(player.direction, UP);
}

#[test]
fn reversal_is_refused_while_there_is_a_body() {
    for (from, key) in [(UP, 's'), (DOWN, 'w'), (LEFT, 'd'), (RIGHT, 'a'), (UP, 'S'), (RIGHT, 'A')] {
        let mut player = snake((7, 5), &[(3, 3)], from);
        player.handle_keypress(key);
        assert_eq!(player.direction, from);
    }
}

#[test]
fn reversal_is_taken_by_a_bare_head() {
    for (from, key, to) in [(UP, 's', DOWN), (DOWN, 'w', UP), (LEFT, 'd', RIGHT), (RIGHT, 'a', LEFT)] {
        let mut player = snake((7, 5), &[], from);
        player.handle_keypress(key);
        assert_eq!(player.direction, to);
    }
}

#[test]
fn turns_and_the_same_direction_are_taken_with_a_body() {
    let wanted = [('w', UP), ('a', LEFT), ('s', DOWN), ('d', RIGHT)];
    for from in [UP, DOWN, LEFT, RIGHT] {
        for (key, to) in wanted {
            let reverse = [-from[0], -from[1]];
            let mut player = snake((7, 5), &[(6, 5), (5, 5)], from);
            player.handle_keypress(key);
            if to == reverse {
                assert_eq!(player.direction, from);
            } else {
                assert_eq!(player.direction, to);
            }
        }
    }
}

#[test]
fn keys_are_taken_one_after_another() {
    let mut player = snake((7, 5), &[(6, 5)], RIGHT);
    player.handle_keypress('w');
    player.handle_keypress('s');
    assert_eq!(player.direction, UP);
    player.handle_keypress('a');
    player.handle_keypress('d');
    assert_eq!(player.direction, LEFT);
    player.handle_keypress('s');
    player.handle_keypress('d');
    assert_eq!(player.direction, RIGHT);
}

#[test]
fn bites_itself_when_the_head_is_on_the_body() {
    assert!(!Player::new(7, 5).bites_itself());
    assert!(!snake((7, 5), &[(6, 5), (5, 5)], RIGHT).bites_itself());
    assert!(snake((7, 5), &[(7, 5)], RIGHT).bites_itself());
    assert!(snake((7, 5), &[(6, 5), (5, 5), (7, 5)], RIGHT).bites_itself());
    assert!(snake((7, 5), &[(6, 5), (7, 5), (5, 5)], RIGHT).bites_itself());
    assert!(!snake((7, 5), &[(5, 7), (7, 6), (6, 5)], RIGHT).bites_itself());
}

#[test]
fn clone_copies_the_snake() {
    let mut player = snake((7, 5), &[(6, 5), (5, 5)], UP);
    player.extend();
    let copy = player.clone();
    player.do_move(14, 10);
    assert_eq!(copy.coordinate, Coordinate::new(7, 5));
    assert_eq!(cells(&copy), vec![(6, 5), (5, 5)]);
    assert_eq!(copy.direction, UP);
    assert!(copy.extend);
    assert_eq!(cells(&player), vec![(7, 5), (6, 5), (5, 5)]);
}
