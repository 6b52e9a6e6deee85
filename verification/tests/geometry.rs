use tictactoe::game::TicTacToe;
use tictactoe::geometry::HitBox;

#[test]
fn buttons_lie_where_the_layout_puts_them() {
    let game = TicTacToe::new_instance((3, 3), 10, 200, None);
    let buttons = game.buttons();
    assert_eq!(buttons[0][0], HitBox { x: 10, y: 10, width: 200, height: 200 });
    assert_eq!(buttons[0][1], HitBox { x: 220, y: 10, width: 200, height: 200 });
    assert_eq!(buttons[1][2], HitBox { x: 430, y: 220, width: 200, height: 200 });
    assert_eq!(buttons[2][0], HitBox { x: 10, y: 430, width: 200, height: 200 });
    let wide = TicTacToe::new_instance((1, 4), 0, 7, None);
    assert_eq!(wide.buttons()[0][3], HitBox { x: 21, y: 0, width: 7, height: 7 });
}

#[test]
fn screen_size_is_the_extent_of_the_board() {
    assert_eq!(TicTacToe::new_instance((3, 3), 10, 200, None).screen_size(), (640, 640));
    assert_eq!(TicTacToe::new_instance((2, 5), 3, 7, None).screen_size(), (23, 53));
    assert_eq!(TicTacToe::new_instance((0, 0), 4, 9, None).screen_size(), (4, 4));
}

#[test]
fn fits_asks_that_every_corner_lies_within_i32() {
    let max = i32::MAX as u32;
    assert!(TicTacToe::fits((3, 3), 10, 200));
    assert!(TicTacToe::fits((3, 3), 10, 0));
    // a single button starts one gap from the edge, however large it is
    assert!(TicTacToe::fits((1, 1), 0, u32::MAX));
    assert!(TicTacToe::fits((1, 1), max, u32::MAX));
    assert!(!TicTacToe::fits((1, 1), max + 1, 1));
    // the second of two buttons starts at side + 2 gaps
    assert!(TicTacToe::fits((2, 2), 0, max));
    assert!(!TicTacToe::fits((2, 2), 0, max + 1));
    assert!(TicTacToe::fits((2, 2), 1, max - 2));
    assert!(!TicTacToe::fits((2, 2), 1, max - 1));
    assert!(!TicTacToe::fits((2, 1), 1, max - 1));
    assert!(!TicTacToe::fits((1, 2), 1, max - 1));
    // 999 * 2_147_483 + 1000 * 2_166 == 2_147_501_517 > i32::MAX
    assert!(!TicTacToe::fits((1000, 3), 2_166, 2_147_483));
    // 999 * 2_147_483 + 1000 * 2_148 == 2_147_483_517 <= i32::MAX
    assert!(TicTacToe::fits((1000, 3), 2_148, 2_147_483));
    assert!(!TicTacToe::fits((1000, 3), 2_149, 2_147_483));
    assert!(!TicTacToe::fits((u32::MAX, u32::MAX), u32::MAX, u32::MAX));
    assert!(TicTacToe::fits((u32::MAX, u32::MAX), 0, 0));
    // a board without cells has no button
    assert!(TicTacToe::fits((0, 0), u32::MAX, u32::MAX));
    assert!(TicTacToe::fits((u32::MAX, 0), u32::MAX, u32::MAX));
    assert!(TicTacToe::fits((0, u32::MAX), u32::MAX, u32::MAX));
}

#[test]
fn screen_fits_asks_that_both_extents_lie_within_u32() {
    assert!(TicTacToe::new_instance((3, 3), 10, 200, None).screen_fits());
    assert!(TicTacToe::new_instance((1, 1), 0, u32::MAX, None).screen_fits());
    assert_eq!(
        TicTacToe::new_instance((1, 1), 0, u32::MAX, None).screen_size(),
        (u32::MAX, u32::MAX)
    );
    assert!(!TicTacToe::new_instance((1, 1), 1, u32::MAX, None).screen_fits());
    assert!(!TicTacToe::new_instance((1, 1), 1, u32::MAX - 1, None).screen_fits());
    assert!(TicTacToe::new_instance((1, 1), 1, u32::MAX - 2, None).screen_fits());
    // with two buttons or more in a line, a layout that fits has a size that fits
    let long = TicTacToe::new_instance((1, 2), 0, i32::MAX as u32, None);
    assert!(long.screen_fits());
    assert_eq!(long.screen_size(), (i32::MAX as u32, u32::MAX - 1));
    let tall = TicTacToe::new_instance((2, 1), 1, i32::MAX as u32 - 2, None);
    assert!(tall.screen_fits());
    assert_eq!(tall.screen_size(), (u32::MAX - 2, i32::MAX as u32));
    assert!(TicTacToe::new_instance((2, 1), 2, i32::MAX as u32 - 4, None).screen_fits());
    // a single button with its two gaps may be too wide for it
    assert!(!TicTacToe::new_instance((1, 1), i32::MAX as u32, 2, None).screen_fits());
    assert!(TicTacToe::new_instance((1, 1), i32::MAX as u32, 1, None).screen_fits());
    assert!(TicTacToe::new_instance((0, 0), u32::MAX, u32::MAX, None).screen_fits());
    assert_eq!(
        TicTacToe::new_instance((0, 0), u32::MAX, u32::MAX, None).screen_size(),
        (u32::MAX, u32::MAX)
    );
}

#[test]
fn buttons_at_the_far_end_of_the_range_lie_where_the_layout_puts_them() {
    let max = i32::MAX as u32;
    let game = TicTacToe::new_instance((2, 2), 1, max - 2, None);
    assert_eq!(game.buttons()[0][0], HitBox { x: 1, y: 1, width: max - 2, height: max - 2 });
    assert_eq!(
        game.buttons()[1][1],
        HitBox { x: i32::MAX, y: i32::MAX, width: max - 2, height: max - 2 }
    );
    assert_eq!(game.button_pressed(i32::MAX, i32::MAX), Some((1, 1)));
    assert_eq!(game.button_pressed(i32::MAX - 1, i32::MAX - 1), Some((0, 0)));
    assert_eq!(game.button_pressed(i32::MAX, 0), None);
    assert_eq!(game.button_pressed(i32::MAX, 1), Some((0, 1)));
    let huge = TicTacToe::new_instance((1, 1), 7, u32::MAX, None);
    assert_eq!(huge.buttons()[0][0], HitBox { x: 7, y: 7, width: u32::MAX, height: u32::MAX });
    assert_eq!(huge.button_pressed(i32::MAX, i32::MAX), Some((0, 0)));
    assert_eq!(huge.button_pressed(6, 7), None);
}

#[test]
fn buttons_without_a_side_are_single_points_apart() {
    let game = TicTacToe::new_instance((2, 3), 5, 0, None);
    assert_eq!(game.buttons()[0][0], HitBox { x: 5, y: 5, width: 0, height: 0 });
    assert_eq!(game.buttons()[1][2], HitBox { x: 15, y: 10, width: 0, height: 0 });
    assert_eq!(game.button_pressed(15, 10), Some((1, 2)));
    assert_eq!(game.button_pressed(15, 11), None);
    assert_eq!(game.screen_size(), (15, 20));
}

#[test]
fn buttons_of_different_cells_share_no_area() {
    for (sep, side) in [(0u32, 5u32), (1, 5), (10, 5), (0, 1), (0, 0), (4, 0), (1, 500_000_000)] {
        let game = TicTacToe::new_instance((3, 4), sep, side, None);
        let all: Vec<HitBox> = game.buttons().iter().flatten().copied().collect();
        for (n, a) in all.iter().enumerate() {
            for b in all.iter().skip(n + 1) {
                let apart_x = a.x as i64 + a.width as i64 <= b.x as i64
                    || b.x as i64 + b.width as i64 <= a.x as i64;
                let apart_y = a.y as i64 + a.height as i64 <= b.y as i64
                    || b.y as i64 + b.height as i64 <= a.y as i64;
                assert!(apart_x || apart_y);
            }
        }
    }
}

#[test]
fn contains_counts_all_four_edges() {
    let button = HitBox { x: 10, y: 20, width: 5, height: 7 };
    assert!(button.contains(10, 20));
    assert!(button.contains(15, 27));
    assert!(button.contains(15, 20));
    assert!(button.contains(12, 23));
    assert!(!button.contains(9, 20));
    assert!(!button.contains(16, 20));
    assert!(!button.contains(10, 19));
    assert!(!button.contains(10, 28));
    let far = HitBox { x: i32::MAX, y: 0, width: u32::MAX, height: 1 };
    assert!(far.contains(i32::MAX, 1));
    assert!(!far.contains(i32::MAX - 1, 1));
}

#[test]
fn middle_is_the_center_pixel() {
    assert_eq!(HitBox { x: 10, y: 10, width: 200, height: 200 }.middle(), Some((110, 110)));
    assert_eq!(HitBox { x: -4, y: 3, width: 1, height: 5 }.middle(), Some((-4, 5)));
    assert_eq!(HitBox { x: i32::MAX, y: 0, width: 2, height: 2 }.middle(), None);
    assert_eq!(HitBox { x: 0, y: i32::MAX, width: 1, height: 2 }.middle(), None);
}

#[test]
fn click_on_the_center_of_a_button_finds_its_cell() {
    for (sep, side) in [(10u32, 200u32), (0, 2), (1, 1), (0, 7), (3, 0)] {
        let game = TicTacToe::new_instance((3, 4), sep, side, None);
        for i in 0..3 {
            for j in 0..4 {
                let (x, y) = game.buttons()[i][j].middle().unwrap();
                assert_eq!(game.button_pressed(x, y), Some((i, j)));
            }
        }
    }
}

#[test]
fn center_of_touching_one_pixel_buttons_belongs_to_the_earlier_cell() {
    let game = TicTacToe::new_instance((2, 2), 0, 1, None);
    assert_eq!(game.buttons()[0][1].middle(), Some((1, 0)));
    assert_eq!(game.button_pressed(1, 0), Some((0, 0)));
    assert_eq!(game.button_pressed(0, 0), Some((0, 0)));
}

#[test]
fn click_between_buttons_or_outside_hits_nothing() {
    let game = TicTacToe::new_instance((3, 3), 10, 200, None);
    assert_eq!(game.button_pressed(0, 0), None);
    assert_eq!(game.button_pressed(9, 100), None);
    assert_eq!(game.button_pressed(215, 100), None);
    assert_eq!(game.button_pressed(100, 211), None);
    assert_eq!(game.button_pressed(631, 631), None);
    assert_eq!(game.button_pressed(-1, -1), None);
    assert_eq!(game.button_pressed(i32::MAX, i32::MAX), None);
    assert_eq!(game.button_pressed(i32::MIN, 50), None);
}

#[test]
fn click_on_edges_counts_as_inside() {
    let game = TicTacToe::new_instance((3, 3), 10, 200, None);
    assert_eq!(game.button_pressed(10, 10), Some((0, 0)));
    assert_eq!(game.button_pressed(210, 210), Some((0, 0)));
    assert_eq!(game.button_pressed(220, 10), Some((0, 1)));
    assert_eq!(game.button_pressed(10, 220), Some((1, 0)));
    assert_eq!(game.button_pressed(630, 630), Some((2, 2)));
}

#[test]
fn shared_edge_goes_to_the_first_cell_in_reading_order() {
    let game = TicTacToe::new_instance((2, 2), 0, 10, None);
    // the column x == 10 lies on the right edge of (0,0) and the left edge of (0,1)
    assert_eq!(game.button_pressed(10, 5), Some((0, 0)));
    assert_eq!(game.button_pressed(11, 5), Some((0, 1)));
    // the corner shared by all four buttons
    assert_eq!(game.button_pressed(10, 10), Some((0, 0)));
    assert_eq!(game.button_pressed(15, 10), Some((0, 1)));
    assert_eq!(game.button_pressed(5, 10), Some((0, 0)));
    assert_eq!(game.button_pressed(5, 11), Some((1, 0)));
}

#[test]
fn buttons_do_not_move_during_a_game() {
    let mut game = TicTacToe::new_instance((3, 3), 10, 200, None);
    let before = game.buttons().clone();
    assert_eq!(game.play(0, 0), None);
    assert_eq!(game.play(1, 1), None);
    assert_eq!(*game.buttons(), before);
    game.restart();
    assert_eq!(*game.buttons(), before);
}
