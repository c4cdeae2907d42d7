use iced_tutorial::chaos::{
    Chaos, ChaosCircle, Message, Rgba, ALPHA_MAX, ALPHA_MIN, RADIUS_MAX, RADIUS_MIN, SPEED_MAX,
};

fn circle(x: i64, y: i64, vx: i64, vy: i64, radius: i64) -> ChaosCircle {
    ChaosCircle { x, y, vx, vy, radius, color: Rgba { r: 10, g: 20, b: 30, a: 128 } }
}

#[test]
fn tick_without_bounce_integrates() {
    let mut chaos = Chaos::new();
    assert_eq!(chaos.canvas_size(), (800, 600));
    chaos.spawn(circle(100, 100, -3, 1, 50));
    chaos.tick();
    let c = chaos.circles()[0];
    assert_eq!((c.x, c.y), (97, 101));
    assert_eq!((c.vx, c.vy), (-3, 1));
}

#[test]
fn left_wall_bounce_reflects_and_clamps() {
    let mut c = circle(45, 300, -3, 0, 50);
    c.update_physics(800, 600);
    assert_eq!(c.vx, 3);
    assert_eq!(c.x, 50);
    assert_eq!(c.y, 300);
    assert_eq!(c.vy, 0);
}

#[test]
fn right_and_bottom_bounce_keep_speed() {
    let mut c = circle(748, 548, 4, 5, 50);
    c.update_physics(800, 600);
    assert_eq!((c.vx, c.vy), (-4, -5));
    assert_eq!((c.x, c.y), (750, 550));
}

#[test]
fn spawn_while_paused_is_noop() {
    let mut chaos = Chaos::new();
    let _ = chaos.update(Message::SpawnChaos);
    assert_eq!(chaos.circles().len(), 1);
    let _ = chaos.update(Message::PanicChaos);
    assert!(chaos.is_paused());
    assert!(chaos.circles().is_empty());
    let _ = chaos.update(Message::SpawnChaos);
    chaos.spawn(circle(100, 100, 1, 1, 30));
    assert!(chaos.circles().is_empty());
    chaos.clear_and_unpause();
    assert!(!chaos.is_paused());
    let _ = chaos.update(Message::SpawnChaos);
    assert_eq!(chaos.circles().len(), 1);
}

#[test]
fn spawn_adds_exactly_one() {
    let mut chaos = Chaos::new();
    for n in 1..=20 {
        let _ = chaos.update(Message::SpawnChaos);
        assert_eq!(chaos.circles().len(), n);
    }
}

#[test]
fn random_circles_respect_ranges() {
    for _ in 0..200 {
        let c = ChaosCircle::random(800, 600);
        assert!(RADIUS_MIN <= c.radius && c.radius < RADIUS_MAX);
        assert!(c.radius <= c.x && c.x <= 800 - c.radius);
        assert!(c.radius <= c.y && c.y <= 600 - c.radius);
        assert!(-SPEED_MAX <= c.vx && c.vx <= SPEED_MAX);
        assert!(-SPEED_MAX <= c.vy && c.vy <= SPEED_MAX);
        assert!(ALPHA_MIN <= c.color.a && c.color.a <= ALPHA_MAX);
    }
}

#[test]
fn circles_stay_contained_over_many_ticks() {
    let mut chaos = Chaos::new();
    for _ in 0..10 {
        let _ = chaos.update(Message::SpawnChaos);
    }
    chaos.spawn(circle(60, 60, -7, -9, 50));
    for _ in 0..2000 {
        let _ = chaos.update(Message::Tick);
        for c in chaos.circles() {
            assert!(c.radius <= c.x && c.x <= 800 - c.radius);
            assert!(c.radius <= c.y && c.y <= 600 - c.radius);
        }
    }
}

#[test]
fn resize_keeps_circles_until_they_bounce() {
    let mut chaos = Chaos::new();
    chaos.spawn(circle(700, 300, 1, 0, 50));
    let _ = chaos.update(Message::WindowResized(400, 600));
    assert_eq!(chaos.circles()[0].x, 700);
    let _ = chaos.update(Message::Tick);
    let c = chaos.circles()[0];
    assert_eq!(c.x, 350);
    assert_eq!(c.vx, -1);
}

#[test]
fn scale_in_thousandths() {
    let mut chaos = Chaos::new();
    assert_eq!(chaos.scale(), 781);
    chaos.resize(2048, 768);
    assert_eq!(chaos.scale(), 1000);
    chaos.resize(100, 100);
    assert_eq!(chaos.scale(), 500);
    chaos.resize(1024, 1536);
    assert_eq!(chaos.scale(), 1000);
}

#[test]
fn clear_and_pause_empties() {
    let mut chaos = Chaos::new();
    chaos.spawn(circle(100, 100, 1, 1, 30));
    chaos.clear_and_pause();
    assert!(chaos.circles().is_empty());
    assert!(chaos.is_paused());
}
