use webatui::touch::{Position, ScrollMotion, TouchScroll};

#[test]
fn new_starts_at_the_origin_with_nothing_accumulated() {
    let t = TouchScroll::new();
    assert_eq!(t.last, Position { x: 0, y: 0 });
    assert_eq!(t.acc, 0);
}

#[test]
fn init_touch_resets_the_accumulator() {
    let mut t = TouchScroll::new();
    t.init_touch(Position::new(0, 0));
    t.add_touch(Position::new(0, 5));
    assert_eq!(t.acc, -5);
    t.init_touch(Position::new(40, 50));
    assert_eq!(t.last, Position { x: 40, y: 50 });
    assert_eq!(t.acc, 0);
}

#[test]
fn repeated_position_emits_nothing_and_keeps_the_accumulator() {
    let mut t = TouchScroll::new();
    t.init_touch(Position::new(0, 0));
    t.add_touch(Position::new(0, 5));
    assert_eq!(t.acc, -5);
    let before = t;
    let ticks = t.add_touch(Position::new(0, 5));
    assert!(ticks.is_empty());
    assert_eq!(t.acc, before.acc);
    assert_eq!(t.last, before.last);
}

#[test]
fn one_full_threshold_down_emits_one_down_tick() {
    let mut t = TouchScroll::new();
    t.init_touch(Position::new(0, 0));
    let ticks = t.add_touch(Position::new(0, 20));
    assert_eq!(ticks, vec![ScrollMotion::Down]);
    assert_eq!(t.acc, 0);
}

#[test]
fn just_under_the_threshold_emits_nothing() {
    let mut t = TouchScroll::new();
    t.init_touch(Position::new(0, 0));
    let ticks = t.add_touch(Position::new(0, 19));
    assert!(ticks.is_empty());
    assert_eq!(t.acc, -19);
}

#[test]
fn upward_motion_emits_up_ticks_with_remainder_carried() {
    let mut t = TouchScroll::new();
    t.init_touch(Position::new(0, 100));
    let ticks = t.add_touch(Position::new(0, 55));
    assert_eq!(ticks, vec![ScrollMotion::Up, ScrollMotion::Up]);
    assert_eq!(t.acc, 5);
    assert_eq!(t.last, Position { x: 0, y: 55 });
}

#[test]
fn remainder_accumulates_across_samples() {
    let mut t = TouchScroll::new();
    t.init_touch(Position::new(0, 0));
    assert!(t.add_touch(Position::new(0, 12)).is_empty());
    assert_eq!(t.acc, -12);
    let ticks = t.add_touch(Position::new(0, 24));
    assert_eq!(ticks, vec![ScrollMotion::Down]);
    assert_eq!(t.acc, -4);
}

#[test]
fn disconnected_sample_is_ignored_outright() {
    let mut t = TouchScroll::new();
    t.init_touch(Position::new(0, 0));
    let ticks = t.add_touch(Position::new(1000, 1000));
    assert!(ticks.is_empty());
    assert_eq!(t.last, Position { x: 0, y: 0 });
    assert_eq!(t.acc, 0);
}

#[test]
fn accumulation_resumes_after_a_wild_sample() {
    let mut t = TouchScroll::new();
    t.init_touch(Position::new(0, 0));
    t.add_touch(Position::new(0, 15));
    assert_eq!(t.acc, -15);
    t.add_touch(Position::new(5000, 5000));
    assert_eq!(t.acc, -15);
    let ticks = t.add_touch(Position::new(0, 30));
    assert_eq!(ticks, vec![ScrollMotion::Down]);
    assert_eq!(t.acc, -10);
}

#[test]
fn connection_threshold_is_a_distance_of_two_hundred() {
    let origin = Position::new(0, 0);
    assert!(origin.is_connected(Position::new(0, 200)));
    assert!(!origin.is_connected(Position::new(0, 201)));
    // 120^2 + 160^2 = 40000: distance exactly 200
    assert!(origin.is_connected(Position::new(120, 160)));
    // 120^2 + 161^2 = 40321: distance just over 200
    assert!(!origin.is_connected(Position::new(120, 161)));
}
