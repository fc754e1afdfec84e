use bounce_sim::ranges::{global_time_bounds, velocity_bounds};
use bounce_sim::sim::App;

#[test]
fn time_bounds_default_without_samples() {
    let app = App::new();
    assert_eq!(global_time_bounds(&app), (0, 1));
}

#[test]
fn time_bounds_span_first_to_last_tick() {
    let mut app = App::new();
    for _ in 0..7 {
        app.tick();
    }
    assert_eq!(global_time_bounds(&app), (1, 7));
}

#[test]
fn time_bounds_default_with_a_single_sample() {
    let mut app = App::new();
    app.tick();
    // min == max: no spread, default range
    assert_eq!(global_time_bounds(&app), (0, 1));
}

#[test]
fn time_bounds_take_earliest_first_and_latest_last() {
    let mut app = App::new();
    app.add_ball();
    app.balls[0].x_history.push((3, 100));
    app.balls[0].x_history.push((9, 200));
    app.balls[1].x_history.push((2, 300));
    app.balls[1].x_history.push((5, 400));
    assert_eq!(global_time_bounds(&app), (2, 9));
}

#[test]
fn velocity_bounds_default_without_spread() {
    let mut app = App::new();
    assert_eq!(velocity_bounds(&app, true), (-1000, 1000));
    app.tick();
    // one sample per axis: min == max, still the default
    assert_eq!(velocity_bounds(&app, true), (-1000, 1000));
    assert_eq!(velocity_bounds(&app, false), (-1000, 1000));
}

#[test]
fn velocity_bounds_add_a_ten_percent_margin() {
    let mut app = App::new();
    app.balls[0].vx_history.push((1, 100));
    app.balls[0].vx_history.push((2, 300));
    // spread 200, margin 20 on each side
    assert_eq!(velocity_bounds(&app, true), (80, 320));
    // the vertical axis is untouched by those samples
    assert_eq!(velocity_bounds(&app, false), (-1000, 1000));
}

#[test]
fn velocity_bounds_margin_rounds_up_for_small_spreads() {
    let mut app = App::new();
    app.balls[0].vx_history.push((1, 0));
    app.balls[0].vx_history.push((2, 5));
    // spread 5: a truncated tenth would vanish; rounded up it is 1, so
    // the extreme samples lie strictly inside the displayed range
    let (lo, hi) = velocity_bounds(&app, true);
    assert_eq!((lo, hi), (-1, 6));
    assert!(lo < 0 && 5 < hi);
}

#[test]
fn velocity_bounds_scan_every_body() {
    let mut app = App::new();
    app.add_ball();
    app.balls[0].vy_history.push((1, -50));
    app.balls[1].vy_history.push((1, 150));
    // spread 200, margin 20
    assert_eq!(velocity_bounds(&app, false), (-70, 170));
}

#[test]
fn queries_do_not_mutate_history() {
    let mut app = App::new();
    for _ in 0..5 {
        app.tick();
    }
    let snapshot = app.balls[0].x_history.clone();
    let _ = global_time_bounds(&app);
    let _ = velocity_bounds(&app, true);
    let _ = velocity_bounds(&app, false);
    assert_eq!(app.balls[0].x_history, snapshot);
}
