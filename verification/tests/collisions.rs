use bounce_sim::ball::Kin;
use bounce_sim::collide::resolve_pair;
use bounce_sim::sim::App;

#[test]
fn head_on_equal_speeds_swap_exactly() {
    // one cell apart, approaching head-on along x
    let a = Kin { x: 0, y: 0, vx: 500, vy: 0 };
    let b = Kin { x: 1000, y: 0, vx: -500, vy: 0 };
    let (na, nb) = resolve_pair(a, b);
    // impulse p*dx/s = (1000*1000)*1000 / 1_000_000 = 1000, exactly
    assert_eq!(na.vx, -500);
    assert_eq!(nb.vx, 500);
    assert_eq!(na.vy, 0);
    assert_eq!(nb.vy, 0);
    // separation: dist 1000, overlap 500, push 260 each way along x
    assert_eq!(na.x, -260);
    assert_eq!(nb.x, 1260);
    assert_eq!(na.y, 0);
    assert_eq!(nb.y, 0);
}

#[test]
fn momentum_is_conserved_through_resolution() {
    let a = Kin { x: 100, y: 200, vx: 730, vy: -420 };
    let b = Kin { x: 900, y: 800, vx: -310, vy: 260 };
    let (na, nb) = resolve_pair(a, b);
    assert_eq!(na.vx + nb.vx, a.vx + b.vx);
    assert_eq!(na.vy + nb.vy, a.vy + b.vy);
    // the pair was approaching; afterwards it is not, along the old normal
    let dx = (b.x - a.x) as i128;
    let dy = (b.y - a.y) as i128;
    let before = ((a.vx - b.vx) as i128) * dx + ((a.vy - b.vy) as i128) * dy;
    assert!(before > 0);
    let after = ((na.vx - nb.vx) as i128) * dx + ((na.vy - nb.vy) as i128) * dy;
    assert!(after <= 0);
}

#[test]
fn touching_at_exactly_summed_radii_is_not_a_collision() {
    // distance exactly 1500 units: squared distance equals the threshold,
    // and the strict comparison leaves the pair alone
    let a = Kin { x: 10_000, y: 10_000, vx: 500, vy: 0 };
    let b = Kin { x: 11_500, y: 10_000, vx: -500, vy: 0 };
    let (na, nb) = resolve_pair(a, b);
    assert_eq!((na.x, na.y, na.vx, na.vy), (a.x, a.y, a.vx, a.vy));
    assert_eq!((nb.x, nb.y, nb.vx, nb.vy), (b.x, b.y, b.vx, b.vy));
}

#[test]
fn coincident_centers_are_left_alone() {
    let a = Kin { x: 5_000, y: 5_000, vx: 100, vy: 0 };
    let b = Kin { x: 5_000, y: 5_000, vx: -100, vy: 0 };
    let (na, nb) = resolve_pair(a, b);
    assert_eq!((na.x, na.vx), (a.x, a.vx));
    assert_eq!((nb.x, nb.vx), (b.x, b.vx));
}

#[test]
fn separating_pair_keeps_velocities_but_is_pushed_apart() {
    // overlapping but already separating: no impulse, only separation
    let a = Kin { x: 0, y: 0, vx: -300, vy: 0 };
    let b = Kin { x: 1000, y: 0, vx: 300, vy: 0 };
    let (na, nb) = resolve_pair(a, b);
    assert_eq!(na.vx, -300);
    assert_eq!(nb.vx, 300);
    assert_eq!(na.x, -260);
    assert_eq!(nb.x, 1260);
}

#[test]
fn overlapping_bodies_in_a_tick_separate() {
    let mut app = App::new();
    app.add_ball();
    // place the two bodies overlapping and approaching
    app.balls[0].x = 40_000;
    app.balls[0].y = 10_000;
    app.balls[0].vx = 200;
    app.balls[0].vy = 0;
    app.balls[1].x = 40_900;
    app.balls[1].y = 10_000;
    app.balls[1].vx = -200;
    app.balls[1].vy = 0;
    let sum_before = app.balls[0].vx + app.balls[1].vx;
    app.tick();
    let d = app.balls[1].x - app.balls[0].x;
    assert!(d > 900);
    assert_eq!(app.balls[0].vx + app.balls[1].vx, sum_before);
}
