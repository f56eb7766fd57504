use snake::frame::{FrameClock, FRAMES_PER_TICK, FRAME_NANOS};
use snake::grid::DOT_SIZE;
use snake::{cell_origin, Command, GameContext, MoveType, Point, State};

fn body(ctx: &GameContext) -> Vec<(i32, i32)> {
    ctx.position.iter().map(|p| (p.0, p.1)).collect()
}

#[test]
fn new_game_starts_paused_heading_right() {
    let ctx = GameContext::new();
    assert_eq!(body(&ctx), vec![(3, 1), (2, 1), (1, 1)]);
    assert_eq!(ctx.player_direction, MoveType::Right);
    assert_eq!(ctx.food, Point(3, 3));
    assert_eq!(ctx.state, State::Paused);
}

#[test]
fn delta_values() {
    assert_eq!(MoveType::Up.delta(), Point(0, -1));
    assert_eq!(MoveType::Down.delta(), Point(0, 1));
    assert_eq!(MoveType::Right.delta(), Point(1, 0));
    assert_eq!(MoveType::Left.delta(), Point(-1, 0));
}

#[test]
fn deltas_are_units_and_pair_up() {
    let all = [MoveType::Up, MoveType::Down, MoveType::Right, MoveType::Left];
    for d in all {
        let p = d.delta();
        assert_eq!(p.0 * p.0 + p.1 * p.1, 1);
        let negs = all
            .iter()
            .filter(|e| e.delta() == Point(-p.0, -p.1))
            .count();
        assert_eq!(negs, 1);
        for e in all {
            if d != e {
                assert_ne!(d.delta(), e.delta());
            }
        }
    }
}

#[test]
fn point_add() {
    assert_eq!(Point(3, 1).add(Point(0, -1)), Point(3, 0));
    assert_eq!(Point(-2, 5).add(Point(-1, 0)), Point(-3, 5));
}

#[test]
fn tick_while_paused_changes_nothing() {
    let mut ctx = GameContext::new();
    for _ in 0..5 {
        ctx.next_tick();
    }
    assert_eq!(body(&ctx), vec![(3, 1), (2, 1), (1, 1)]);
    assert_eq!(ctx.player_direction, MoveType::Right);
    assert_eq!(ctx.food, Point(3, 3));
    assert_eq!(ctx.state, State::Paused);
}

#[test]
fn tick_after_unpause_moves_right() {
    let mut ctx = GameContext::new();
    ctx.toggle_pause();
    assert_eq!(ctx.state, State::Playing);
    ctx.next_tick();
    assert_eq!(body(&ctx), vec![(4, 1), (3, 1), (2, 1)]);
}

#[test]
fn turn_up_then_tick() {
    let mut ctx = GameContext::new();
    ctx.toggle_pause();
    ctx.next_tick();
    ctx.move_up();
    ctx.next_tick();
    assert_eq!(body(&ctx), vec![(4, 0), (4, 1), (3, 1)]);
}

#[test]
fn tick_slides_body_and_keeps_length() {
    let mut ctx = GameContext {
        position: vec![Point(0, 0), Point(0, 1), Point(1, 1), Point(2, 1)],
        player_direction: MoveType::Left,
        food: Point(7, 7),
        state: State::Playing,
    };
    ctx.next_tick();
    assert_eq!(body(&ctx), vec![(-1, 0), (0, 0), (0, 1), (1, 1)]);
    ctx.move_down();
    ctx.next_tick();
    assert_eq!(body(&ctx), vec![(-1, 1), (-1, 0), (0, 0), (0, 1)]);
}

#[test]
fn tick_onto_food_neither_grows_nor_moves_food() {
    let mut ctx = GameContext::new();
    ctx.toggle_pause();
    ctx.move_down();
    ctx.next_tick();
    ctx.next_tick();
    assert_eq!(body(&ctx), vec![(3, 3), (3, 2), (3, 1)]);
    ctx.next_tick();
    assert_eq!(ctx.position.len(), 3);
    assert_eq!(ctx.food, Point(3, 3));
}

#[test]
fn reversing_is_allowed() {
    let mut ctx = GameContext::new();
    ctx.toggle_pause();
    ctx.move_left();
    ctx.next_tick();
    assert_eq!(body(&ctx), vec![(2, 1), (3, 1), (2, 1)]);
}

#[test]
fn toggle_twice_restores_state() {
    let mut ctx = GameContext::new();
    ctx.toggle_pause();
    ctx.toggle_pause();
    assert_eq!(ctx.state, State::Paused);
    ctx.toggle_pause();
    assert_eq!(ctx.state, State::Playing);
    ctx.toggle_pause();
    ctx.toggle_pause();
    assert_eq!(ctx.state, State::Playing);
}

#[test]
fn set_direction_overwrites_in_any_state() {
    let mut ctx = GameContext::new();
    ctx.set_direction(MoveType::Up);
    ctx.set_direction(MoveType::Up);
    assert_eq!(ctx.player_direction, MoveType::Up);
    ctx.set_direction(MoveType::Down);
    assert_eq!(ctx.player_direction, MoveType::Down);
    ctx.toggle_pause();
    ctx.move_right();
    assert_eq!(ctx.player_direction, MoveType::Right);
    ctx.move_left();
    assert_eq!(ctx.player_direction, MoveType::Left);
    assert_eq!(body(&ctx), vec![(3, 1), (2, 1), (1, 1)]);
}

#[test]
fn commands_never_move_food() {
    let mut ctx = GameContext::new();
    let cmds = [
        Command::Tick,
        Command::TogglePause,
        Command::Tick,
        Command::Turn(MoveType::Down),
        Command::Tick,
        Command::Tick,
        Command::Turn(MoveType::Left),
        Command::Tick,
        Command::TogglePause,
        Command::Tick,
    ];
    for cmd in cmds {
        ctx.apply(cmd);
        assert_eq!(ctx.food, Point(3, 3));
        assert_eq!(ctx.position.len(), 3);
    }
    assert_eq!(body(&ctx), vec![(3, 3), (4, 3), (4, 2)]);
    assert_eq!(ctx.state, State::Paused);
}

#[test]
fn can_tick_at_the_coordinate_limit() {
    let mut ctx = GameContext {
        position: vec![Point(i32::MAX, 0)],
        player_direction: MoveType::Right,
        food: Point(0, 0),
        state: State::Paused,
    };
    assert!(ctx.can_tick());
    ctx.toggle_pause();
    assert!(!ctx.can_tick());
    ctx.move_left();
    assert!(ctx.can_tick());
    ctx.next_tick();
    assert_eq!(body(&ctx), vec![(i32::MAX - 1, 0)]);
}

#[test]
fn ten_frames_tick_once() {
    let mut clock = FrameClock::new();
    let mut ticks = Vec::new();
    for _ in 0..10 {
        ticks.push(clock.on_frame());
    }
    assert_eq!(ticks.iter().filter(|t| **t).count(), 1);
    assert!(ticks[9]);
    assert_eq!(clock.frame_counter, 0);
}

#[test]
fn frames_drive_ticks() {
    let mut ctx = GameContext::new();
    ctx.toggle_pause();
    let mut clock = FrameClock::new();
    for _ in 0..25 {
        if clock.on_frame() {
            ctx.next_tick();
        }
    }
    assert_eq!(clock.frame_counter, 5);
    assert_eq!(body(&ctx), vec![(5, 1), (4, 1), (3, 1)]);
}

#[test]
fn frame_constants() {
    assert_eq!(FRAMES_PER_TICK, 10);
    assert_eq!(FRAME_NANOS, 33_333_333);
    assert_eq!(DOT_SIZE, 20);
}

#[test]
fn cell_origin_scales_by_dot_size() {
    assert_eq!(cell_origin(Point(3, 1)), Some((60, 20)));
    assert_eq!(cell_origin(Point(-2, 0)), Some((-40, 0)));
    assert_eq!(cell_origin(Point(i32::MAX, 0)), None);
    assert_eq!(cell_origin(Point(0, i32::MIN / 10)), None);
}
