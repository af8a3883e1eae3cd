use viewer_core::gesture::{Direction, GestureState, GESTURE_THRESHOLD};
use viewer_core::nav::NavDirection;

#[test]
fn rightward_stroke_navigates_next() {
    // Gesture determinism: samples moving strictly rightward by at least the
    // threshold each, then release, yield exactly "navigate next".
    let mut g = GestureState::new();
    g.begin(0, 0);
    let mut x = 0;
    for _ in 0..4 {
        x += GESTURE_THRESHOLD;
        g.sample(x, 0);
    }
    assert_eq!(g.directions.as_slice(), &[Direction::Right]);
    assert_eq!(g.resolve(), Some(NavDirection::Next));
    assert!(!g.active);
    assert!(g.directions.is_empty());
}

#[test]
fn leftward_stroke_navigates_prev() {
    let mut g = GestureState::new();
    g.begin(100_000, 0);
    g.sample(100_000 - GESTURE_THRESHOLD, 0);
    assert_eq!(g.resolve(), Some(NavDirection::Prev));
}

#[test]
fn perpendicular_stroke_does_nothing() {
    // A stroke with two perpendicular segments records two directions and
    // resolves to no action.
    let mut g = GestureState::new();
    g.begin(0, 0);
    g.sample(GESTURE_THRESHOLD, 0);
    g.sample(GESTURE_THRESHOLD, GESTURE_THRESHOLD);
    assert_eq!(g.directions.as_slice(), &[Direction::Right, Direction::Down]);
    assert_eq!(g.resolve(), None);
}

#[test]
fn vertical_stroke_does_nothing() {
    let mut g = GestureState::new();
    g.begin(0, 0);
    g.sample(0, GESTURE_THRESHOLD);
    assert_eq!(g.directions.as_slice(), &[Direction::Down]);
    assert_eq!(g.resolve(), None);
    let mut g = GestureState::new();
    g.begin(0, GESTURE_THRESHOLD);
    g.sample(0, 0);
    assert_eq!(g.directions.as_slice(), &[Direction::Up]);
    assert_eq!(g.resolve(), None);
}

#[test]
fn empty_stroke_does_nothing() {
    let mut g = GestureState::new();
    g.begin(0, 0);
    assert_eq!(g.resolve(), None);
}

#[test]
fn jitter_below_threshold_is_ignored() {
    // Sub-threshold movements never advance the anchor, so repeated jitter
    // accumulates no direction.
    let mut g = GestureState::new();
    g.begin(0, 0);
    for _ in 0..100 {
        g.sample(GESTURE_THRESHOLD - 1, 0);
    }
    assert!(g.directions.is_empty());
    assert_eq!(g.last_sample, Some((0, 0)));
    assert_eq!(g.resolve(), None);
}

#[test]
fn no_consecutive_duplicate_directions() {
    let mut g = GestureState::new();
    g.begin(0, 0);
    g.sample(GESTURE_THRESHOLD, 0);
    g.sample(2 * GESTURE_THRESHOLD, 0);
    g.sample(3 * GESTURE_THRESHOLD, 0);
    assert_eq!(g.directions.as_slice(), &[Direction::Right]);
}

#[test]
fn at_most_five_directions_recorded() {
    let mut g = GestureState::new();
    g.begin(0, 0);
    let t = GESTURE_THRESHOLD;
    // zig-zag: right, down, right, down, ... each segment over threshold
    let mut x = 0;
    let mut y = 0;
    for i in 0..8 {
        if i % 2 == 0 {
            x += t;
        } else {
            y += t;
        }
        g.sample(x, y);
    }
    assert_eq!(g.directions.len(), 5);
    assert_eq!(
        g.directions.as_slice(),
        &[Direction::Right, Direction::Down, Direction::Right, Direction::Down, Direction::Right]
    );
    assert_eq!(g.resolve(), None);
}

#[test]
fn diagonal_leans_vertical_on_tie() {
    // |dx| must strictly exceed |dy| to read horizontal: an exact diagonal
    // classifies on the vertical axis.
    let mut g = GestureState::new();
    g.begin(0, 0);
    g.sample(GESTURE_THRESHOLD, GESTURE_THRESHOLD);
    assert_eq!(g.directions.as_slice(), &[Direction::Down]);
}

#[test]
fn sample_while_idle_changes_nothing() {
    let mut g = GestureState::new();
    g.sample(1_000_000, 0);
    assert!(!g.active);
    assert!(g.directions.is_empty());
    assert_eq!(g.last_sample, None);
}
