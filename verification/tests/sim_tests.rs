use cellular_automaton::render::background_color;
use cellular_automaton::render::dot_origin;
use cellular_automaton::sim::GRID_Y_SIZE;
use cellular_automaton::sim::Point;
use cellular_automaton::sim::SimContext;
use cellular_automaton::sim::SimulationState;

fn flat(x: usize, y: usize) -> usize {
    x * GRID_Y_SIZE + y
}

#[test]
fn new_starts_paused_with_seed_and_scanner() {
    let c = SimContext::new();
    assert_eq!(c.state, SimulationState::Paused);
    assert_eq!(c.scanner, vec![Point(2, 1), Point(1, 1), Point(0, 1)]);
    assert_eq!(c.points.len(), 101 * 100);
    assert!(c.get_value_at_point(&Point(51, 1)));
    assert!(!c.get_value_at_point(&Point(50, 1)));
    assert!(!c.get_value_at_point(&Point(52, 1)));
    assert!(!c.get_value_at_point(&Point(0, 0)));
    assert!(!c.get_value_at_point(&Point(51, 2)));
}

#[test]
fn toggle_pause_twice_restores_state() {
    let mut c = SimContext::new();
    assert_eq!(c.state, SimulationState::Paused);
    c.toggle_pause();
    assert_eq!(c.state, SimulationState::Playing);
    c.toggle_pause();
    assert_eq!(c.state, SimulationState::Paused);
    // and again from Playing
    c.toggle_pause();
    c.toggle_pause();
    c.toggle_pause();
    assert_eq!(c.state, SimulationState::Playing);
}

#[test]
fn paused_tick_changes_nothing() {
    let mut c = SimContext::new();
    let points_before = c.points.clone();
    let scanner_before = c.scanner.clone();
    let state_before = c.state;
    c.next_tick();
    assert_eq!(c.points, points_before);
    assert_eq!(c.scanner, scanner_before);
    assert_eq!(c.state, state_before);
}

#[test]
fn tick_slides_window_one_column_right() {
    // One Playing tick from the fresh context: the window {(0,1),(1,1),(2,1)}
    // becomes {(1,1),(2,1),(3,1)} — a pure rightward shift, no wrap.
    let mut c = SimContext::new();
    c.toggle_pause();
    c.next_tick();
    assert_eq!(c.scanner, vec![Point(3, 1), Point(2, 1), Point(1, 1)]);
}

#[test]
fn move_scanner_inserts_next_head_in_front() {
    // The reinsertion order is [next head, former first, former second],
    // whatever points the scanner holds.
    let mut c = SimContext::new();
    c.scanner = vec![Point(5, 3), Point(7, 9), Point(1, 2)];
    c.toggle_pause();
    c.move_scanner();
    assert_eq!(c.scanner, vec![Point(6, 3), Point(5, 3), Point(7, 9)]);
}

#[test]
fn move_scanner_is_noop_while_paused() {
    let mut c = SimContext::new();
    c.move_scanner();
    assert_eq!(c.scanner, vec![Point(2, 1), Point(1, 1), Point(0, 1)]);
}

#[test]
fn scanner_head_wraps_at_right_edge() {
    let mut c = SimContext::new();
    c.scanner = vec![Point(100, 1), Point(99, 1), Point(98, 1)];
    c.toggle_pause();
    c.move_scanner();
    assert_eq!(c.scanner[0], Point(0, 2));
    assert_eq!(c.scanner, vec![Point(0, 2), Point(100, 1), Point(99, 1)]);
}

#[test]
fn rule_writes_true_below_middle() {
    // p = false, q = true, r = false: false XOR (true OR false) = true.
    let mut c = SimContext::new();
    c.points[flat(51, 1)] = false;
    c.points[flat(50, 1)] = true;
    c.scanner = vec![Point(49, 1), Point(50, 1), Point(51, 1)];
    c.calculate_state();
    assert!(c.get_value_at_point(&Point(50, 2)));
}

#[test]
fn rule_all_false_stays_false() {
    // p = q = r = false: false XOR (false OR false) = false.
    let mut c = SimContext::new();
    c.scanner = vec![Point(10, 5), Point(11, 5), Point(12, 5)];
    c.calculate_state();
    assert!(!c.get_value_at_point(&Point(11, 6)));
}

#[test]
fn playing_tick_computes_rule_over_seed() {
    // After the move the window is [(51,1),(50,1),(49,1)]; only (51,1) is
    // true, read as r: false XOR (false OR true) = true, written at (50,2).
    let mut c = SimContext::new();
    c.scanner = vec![Point(50, 1), Point(49, 1), Point(48, 1)];
    c.toggle_pause();
    c.next_tick();
    assert_eq!(c.scanner, vec![Point(51, 1), Point(50, 1), Point(49, 1)]);
    assert!(c.get_value_at_point(&Point(50, 2)));
    assert!(!c.get_value_at_point(&Point(49, 2)));
}

#[test]
fn get_value_at_point_is_idempotent() {
    let c = SimContext::new();
    let p = Point(51, 1);
    let first = c.get_value_at_point(&p);
    let second = c.get_value_at_point(&p);
    assert_eq!(first, second);
    let q = Point(0, 0);
    assert_eq!(c.get_value_at_point(&q), c.get_value_at_point(&q));
}

#[test]
fn point_add_is_componentwise() {
    let p = Point(2, 3).add(Point(1, 0));
    assert_eq!(p, Point(3, 3));
    assert_eq!(Point(-4, 7).add(Point(4, -7)), Point(0, 0));
}

#[test]
fn background_color_keyed_by_state() {
    assert_eq!(background_color(SimulationState::Playing), (0, 0, 0));
    assert_eq!(background_color(SimulationState::Paused), (30, 30, 30));
}

#[test]
fn dot_origin_scales_by_dot_size() {
    assert_eq!(dot_origin(&Point(0, 0)), (0, 0));
    assert_eq!(dot_origin(&Point(3, 7)), (15, 35));
    assert_eq!(dot_origin(&Point(100, 99)), (500, 495));
}
