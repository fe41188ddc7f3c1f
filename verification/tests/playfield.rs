use crabber::crab::{Crab, Key, SQUARE_SIZE, WIN_H, WIN_W};
use crabber::game::{MainState, ORB_PERIOD, ORB_RADIUS, ORB_TOLERANCE, ORB_Y};
use crabber::shape::{Colour, DrawCommand, Square};

const GREEN: Colour = Colour { r: 0, g: 255, b: 0, a: 255 };
const WHITE: Colour = Colour { r: 255, g: 255, b: 255, a: 255 };

#[test]
fn field_constants() {
    assert_eq!(SQUARE_SIZE, 10);
    assert_eq!(WIN_W, 400);
    assert_eq!(WIN_H, 700);
    assert_eq!(ORB_PERIOD, 400);
    assert_eq!(ORB_Y, 350);
    assert_eq!(ORB_RADIUS, 10);
    assert_eq!(ORB_TOLERANCE, 2);
}

#[test]
fn colour_new_keeps_channels() {
    let c = Colour::new(1, 2, 3, 4);
    assert_eq!(c, Colour { r: 1, g: 2, b: 3, a: 4 });
}

#[test]
fn square_new_keeps_fields() {
    let s = Square::new(-3, 7, 20, 30, WHITE);
    assert_eq!(s, Square { x: -3, y: 7, width: 20, height: 30, colour: WHITE });
}

#[test]
fn square_draws_itself_as_one_rectangle() {
    let s = Square::new(15, 25, 20, 30, GREEN);
    assert_eq!(
        s.draw(),
        DrawCommand::FillRect { x: 15, y: 25, width: 20, height: 30, colour: GREEN }
    );
}

#[test]
fn crab_starts_five_tiles_in_on_the_bottom_row() {
    let crab = Crab::new();
    assert_eq!((crab.x(), crab.y()), (50, 690));
    assert_eq!(
        crab.form(),
        Square { x: 50, y: 690, width: 10, height: 10, colour: GREEN }
    );
}

#[test]
fn crab_draws_its_square() {
    let mut crab = Crab::new();
    assert_eq!(
        crab.draw(),
        DrawCommand::FillRect { x: 50, y: 690, width: 10, height: 10, colour: GREEN }
    );
    crab.move_up();
    crab.move_right();
    assert_eq!(
        crab.draw(),
        DrawCommand::FillRect { x: 60, y: 680, width: 10, height: 10, colour: GREEN }
    );
}

#[test]
fn move_up_once_then_to_the_top() {
    let mut crab = Crab::new();
    crab.move_up();
    assert_eq!(crab.y(), 680);
    for _ in 0..67 {
        crab.move_up();
    }
    assert_eq!(crab.y(), 10);
    crab.move_up();
    assert_eq!((crab.x(), crab.y()), (50, 10));
}

#[test]
fn move_up_stops_one_tile_below_the_top() {
    let mut crab = Crab::new();
    let mut rows = Vec::new();
    for _ in 0..70 {
        crab.move_up();
        rows.push(crab.y());
    }
    let expected: Vec<i32> = (0..70).map(|i| std::cmp::max(680 - 10 * i, 10)).collect();
    assert_eq!(rows, expected);
}

#[test]
fn move_down_from_the_start_is_dropped() {
    let mut crab = Crab::new();
    crab.move_down();
    assert_eq!((crab.x(), crab.y()), (50, 690));
}

#[test]
fn move_down_undoes_move_up() {
    let mut crab = Crab::new();
    crab.move_up();
    crab.move_up();
    crab.move_down();
    assert_eq!((crab.x(), crab.y()), (50, 680));
    crab.move_down();
    crab.move_down();
    assert_eq!((crab.x(), crab.y()), (50, 690));
}

#[test]
fn move_left_stops_one_tile_right_of_the_edge() {
    let mut crab = Crab::new();
    crab.move_left();
    assert_eq!((crab.x(), crab.y()), (40, 690));
    for _ in 0..3 {
        crab.move_left();
    }
    assert_eq!(crab.x(), 10);
    crab.move_left();
    assert_eq!((crab.x(), crab.y()), (10, 690));
}

#[test]
fn move_right_stops_two_tiles_short_of_the_edge() {
    let mut crab = Crab::new();
    crab.move_right();
    assert_eq!((crab.x(), crab.y()), (60, 690));
    for _ in 0..32 {
        crab.move_right();
    }
    assert_eq!(crab.x(), 380);
    crab.move_right();
    assert_eq!((crab.x(), crab.y()), (380, 690));
}

#[test]
fn crab_never_leaves_the_field() {
    let mut crab = Crab::new();
    let mut seed: u32 = 12345;
    for _ in 0..20000 {
        seed = seed.wrapping_mul(1664525).wrapping_add(1013904223);
        match (seed >> 24) % 4 {
            0 => crab.move_up(),
            1 => crab.move_down(),
            2 => crab.move_left(),
            _ => crab.move_right(),
        }
        assert!(0 < crab.y() && crab.y() < 700);
        assert!(0 < crab.x() && crab.x() < 400 - 10);
    }
}

#[test]
fn game_starts_with_orb_at_zero_and_crab_at_start() {
    let game = MainState::new();
    assert_eq!(game.pos_x(), 0);
    assert_eq!((game.player().x(), game.player().y()), (50, 690));
}

#[test]
fn update_runs_the_orb_through_a_sawtooth() {
    let mut game = MainState::new();
    for expected in 1..=400 {
        game.update();
        assert_eq!(game.pos_x(), expected);
    }
    game.update();
    assert_eq!(game.pos_x(), 1);
}

#[test]
fn update_follows_the_closed_form() {
    let mut game = MainState::new();
    for n in 1..=1203i32 {
        game.update();
        assert_eq!(game.pos_x(), (n - 1) % 400 + 1);
    }
    assert_eq!(game.pos_x(), 3);
}

#[test]
fn update_leaves_the_crab_alone() {
    let mut game = MainState::new();
    game.key_down_event(Key::Up);
    game.update();
    game.update();
    assert_eq!((game.player().x(), game.player().y()), (50, 680));
}

#[test]
fn left_key_moves_the_crab_left() {
    let mut game = MainState::new();
    game.key_down_event(Key::Left);
    assert_eq!((game.player().x(), game.player().y()), (40, 690));
    assert_eq!(game.pos_x(), 0);
}

#[test]
fn arrow_keys_move_the_crab_their_way() {
    let mut game = MainState::new();
    game.key_down_event(Key::Up);
    assert_eq!((game.player().x(), game.player().y()), (50, 680));
    game.key_down_event(Key::Right);
    assert_eq!((game.player().x(), game.player().y()), (60, 680));
    game.key_down_event(Key::Down);
    assert_eq!((game.player().x(), game.player().y()), (60, 690));
    game.key_down_event(Key::Left);
    assert_eq!((game.player().x(), game.player().y()), (50, 690));
}

#[test]
fn other_key_changes_nothing() {
    let mut game = MainState::new();
    game.update();
    game.key_down_event(Key::Up);
    let frame = game.draw();
    game.key_down_event(Key::Other);
    assert_eq!(game.pos_x(), 1);
    assert_eq!((game.player().x(), game.player().y()), (50, 680));
    assert_eq!(game.player().form(), Square::new(50, 680, 10, 10, GREEN));
    assert_eq!(game.draw(), frame);
}

#[test]
fn first_frame() {
    let game = MainState::new();
    assert_eq!(
        game.draw(),
        vec![
            DrawCommand::Clear,
            DrawCommand::FillCircle { x: 0, y: 350, radius: 10, tolerance: 2, colour: WHITE },
            DrawCommand::FillRect { x: 50, y: 690, width: 10, height: 10, colour: GREEN },
            DrawCommand::Present,
        ]
    );
}

#[test]
fn frame_follows_orb_and_crab() {
    let mut game = MainState::new();
    for _ in 0..7 {
        game.update();
    }
    game.key_down_event(Key::Up);
    game.key_down_event(Key::Left);
    assert_eq!(
        game.draw(),
        vec![
            DrawCommand::Clear,
            DrawCommand::FillCircle { x: 7, y: 350, radius: 10, tolerance: 2, colour: WHITE },
            DrawCommand::FillRect { x: 40, y: 680, width: 10, height: 10, colour: GREEN },
            DrawCommand::Present,
        ]
    );
}

#[test]
fn draw_does_not_advance_the_game() {
    let mut game = MainState::new();
    game.update();
    let first = game.draw();
    let second = game.draw();
    assert_eq!(first, second);
    assert_eq!(game.pos_x(), 1);
}
