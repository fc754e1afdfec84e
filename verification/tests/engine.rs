use bounce_sim::ball::Ball;
use bounce_sim::sim::App;

#[test]
fn new_app_has_one_deterministic_body() {
    let app = App::new();
    assert_eq!(app.balls.len(), 1);
    assert_eq!(app.tick_count, 0);
    assert_eq!(app.ball_counter, 1);
    assert!(!app.paused);
    assert_eq!(app.speed_multiplier, 1000);
    assert_eq!(app.area_width, 80_000);
    assert_eq!(app.area_height, 20_000);
    let b = &app.balls[0];
    assert_eq!((b.x, b.y, b.vx, b.vy), (5_000, 3_000, 500, 300));
    assert_eq!(b.radius, 750);
    assert_eq!(b.color_idx, 0);
    assert_eq!(b.char_idx, 0);
    assert_eq!(b.x_history.len(), 0);
    assert_eq!(b.y_history.len(), 0);
    assert_eq!(b.vx_history.len(), 0);
    assert_eq!(b.vy_history.len(), 0);
}

#[test]
fn add_three_bodies_then_remove_last() {
    let mut app = App::new();
    app.add_ball();
    app.add_ball();
    app.add_ball();
    assert_eq!(app.balls.len(), 4);
    assert_eq!(app.ball_counter, 4);
    // index 1: x = 5000 + 7300, y = 3000 + 4100, vx = -(500+170), vy = -(300+130)
    let b1 = &app.balls[1];
    assert_eq!((b1.x, b1.y, b1.vx, b1.vy), (12_300, 7_100, -670, -430));
    assert_eq!(b1.color_idx, 1);
    // index 2: x = 5000 + 14600, y = 3000 + 8200, vx = +(500+340), vy = -(300+260)
    let b2 = &app.balls[2];
    assert_eq!((b2.x, b2.y, b2.vx, b2.vy), (19_600, 11_200, 840, -560));
    // index 3: x = 5000 + 21900, y = 3000 + 12300, vx = -(500+510), vy = +(300+390)
    let b3 = &app.balls[3];
    assert_eq!((b3.x, b3.y, b3.vx, b3.vy), (26_900, 15_300, -1_010, 690));
    assert_eq!(b3.color_idx, 3);

    app.remove_ball();
    assert_eq!(app.balls.len(), 3);
    // the most recently added body is gone; indices 0..2 remain in order
    assert_eq!(app.balls[0].color_idx, 0);
    assert_eq!(app.balls[1].color_idx, 1);
    assert_eq!(app.balls[2].color_idx, 2);
    // the creation counter is not decremented
    assert_eq!(app.ball_counter, 4);
}

#[test]
fn remove_from_empty_is_a_no_op() {
    let mut app = App::new();
    app.remove_ball();
    assert_eq!(app.balls.len(), 0);
    app.remove_ball();
    app.remove_ball();
    assert_eq!(app.balls.len(), 0);
    assert_eq!(app.ball_counter, 1);
}

#[test]
fn speed_multiplier_saturates_at_both_ends() {
    let mut app = App::new();
    assert_eq!(app.speed_multiplier, 1000);
    for _ in 0..30 {
        app.speed_up();
        assert!(app.speed_multiplier >= 250 && app.speed_multiplier <= 5000);
    }
    assert_eq!(app.speed_multiplier, 5000);
    for _ in 0..40 {
        app.speed_down();
        assert!(app.speed_multiplier >= 250 && app.speed_multiplier <= 5000);
    }
    assert_eq!(app.speed_multiplier, 250);
    app.speed_up();
    assert_eq!(app.speed_multiplier, 500);
}

#[test]
fn tick_counter_increments_while_unpaused() {
    let mut app = App::new();
    app.tick();
    assert_eq!(app.tick_count, 1);
    app.tick();
    assert_eq!(app.tick_count, 2);
    app.tick();
    assert_eq!(app.tick_count, 3);
}

#[test]
fn paused_ticks_change_nothing() {
    let mut app = App::new();
    app.tick();
    let x_before = app.balls[0].x;
    let hist_before = app.balls[0].x_history.clone();
    app.toggle_pause();
    assert!(app.paused);
    for _ in 0..5 {
        app.tick();
    }
    assert_eq!(app.tick_count, 1);
    assert_eq!(app.balls[0].x, x_before);
    assert_eq!(app.balls[0].x_history, hist_before);
    assert_eq!(app.balls[0].y_history.len(), 1);
    app.toggle_pause();
    assert!(!app.paused);
    app.tick();
    assert_eq!(app.tick_count, 2);
    assert_eq!(app.balls[0].x_history.len(), 2);
    assert_eq!(app.balls[0].y_history.len(), 2);
    assert_eq!(app.balls[0].vx_history.len(), 2);
    assert_eq!(app.balls[0].vy_history.len(), 2);
}

#[test]
fn first_tick_moves_body_by_velocity_times_multiplier() {
    let mut app = App::new();
    app.tick();
    // ball 0: from (5000, 3000) at velocity (500, 300), multiplier 1000/1000
    let b = &app.balls[0];
    assert_eq!((b.x, b.y), (5_500, 3_300));
    assert_eq!((b.vx, b.vy), (500, 300));
    assert_eq!(b.x_history, vec![(1, 5_500)]);
    assert_eq!(b.y_history, vec![(1, 3_300)]);
    assert_eq!(b.vx_history, vec![(1, 500)]);
    assert_eq!(b.vy_history, vec![(1, 300)]);
}

#[test]
fn double_speed_doubles_the_step() {
    let mut app = App::new();
    for _ in 0..4 {
        app.speed_up();
    }
    assert_eq!(app.speed_multiplier, 2000);
    app.tick();
    let b = &app.balls[0];
    assert_eq!((b.x, b.y), (6_000, 3_600));
}

#[test]
fn bodies_stay_inside_the_arena() {
    let mut app = App::new();
    app.add_ball();
    app.add_ball();
    app.add_ball();
    for _ in 0..500 {
        app.tick();
        for b in &app.balls {
            assert!(0 <= b.x && b.x <= app.area_width - 1000);
            assert!(0 <= b.y && b.y <= app.area_height - 1000);
        }
    }
}

#[test]
fn low_wall_reflects_velocity_to_non_negative() {
    let mut app = App::new();
    app.balls[0].x = 0;
    app.balls[0].y = 10_000;
    app.balls[0].vx = -500;
    app.balls[0].vy = 0;
    app.tick();
    let b = &app.balls[0];
    // integration carries it to -500; the wall clamps it back and flips vx
    assert_eq!(b.x, 0);
    assert_eq!(b.vx, 500);
}

#[test]
fn high_wall_reflects_velocity_to_non_positive() {
    let mut app = App::new();
    app.balls[0].x = 79_000;
    app.balls[0].y = 10_000;
    app.balls[0].vx = 400;
    app.balls[0].vy = 0;
    app.tick();
    let b = &app.balls[0];
    assert_eq!(b.x, 79_000);
    assert_eq!(b.vx, -400);
}

#[test]
fn one_cell_arena_clamps_to_origin() {
    let mut app = App::new();
    app.set_arena_bounds(1000, 1000);
    app.tick();
    let b = &app.balls[0];
    assert_eq!((b.x, b.y), (0, 0));
}

#[test]
fn history_caps_at_three_hundred_and_evicts_fifo() {
    let mut app = App::new();
    // keep the body still so only the history mechanics are in play
    app.balls[0].vx = 0;
    app.balls[0].vy = 0;
    for _ in 0..301 {
        app.tick();
    }
    let b = &app.balls[0];
    assert_eq!(b.x_history.len(), 300);
    assert_eq!(b.y_history.len(), 300);
    assert_eq!(b.vx_history.len(), 300);
    assert_eq!(b.vy_history.len(), 300);
    // the sample from tick 1 is gone; tick 2 is the oldest retained
    assert_eq!(b.x_history[0].0, 2);
    assert_eq!(b.x_history[299].0, 301);
}

#[test]
fn histories_of_one_body_share_timestamps() {
    let mut app = App::new();
    app.add_ball();
    for _ in 0..10 {
        app.tick();
    }
    for b in &app.balls {
        assert_eq!(b.x_history.len(), 10);
        for i in 0..10 {
            let t = b.x_history[i].0;
            assert_eq!(b.y_history[i].0, t);
            assert_eq!(b.vx_history[i].0, t);
            assert_eq!(b.vy_history[i].0, t);
        }
    }
}

#[test]
fn ball_identity_cycles_through_palettes() {
    let b = Ball::new(0, 0, 0, 0, 11);
    assert_eq!(b.color_idx, 3);
    assert_eq!(b.char_idx, 3);
    let b = Ball::new(0, 0, 0, 0, 8);
    assert_eq!(b.color_idx, 0);
    assert_eq!(b.char_idx, 0);
}
