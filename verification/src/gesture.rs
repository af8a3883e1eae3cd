//! Directional-swipe gesture recognizer.  While the trigger button is held,
//! pointer samples are folded into a short sequence of dominant-axis
//! directions; on release, exactly one recorded `Left` or `Right` resolves to
//! a navigation action and anything else resolves to none.

use vstd::prelude::*;

verus! {

use crate::nav::NavDirection;
use crate::viewport::COORD_LIMIT;

/// Minimum pointer travel (straight-line distance, in thousandths of a
/// pixel) before a sample is classified into a direction: twenty screen
/// pixels.
pub const GESTURE_THRESHOLD: i64 = 20000;

/// At most this many directions are recorded per stroke.
pub const MAX_DIRECTIONS: usize = 5;

/// Dominant axis of one classified pointer movement.
#[derive(Clone, Copy, PartialEq, Eq, Structural, Debug)]
pub enum Direction {
    Left,
    Right,
    Up,
    Down,
}

/// Mathematical model of the recognizer state: whether a stroke is being
/// tracked, the anchor of the next movement delta, and the directions
/// recorded so far.
pub struct GestureModel {
    pub active: bool,
    pub last: Option<(int, int)>,
    pub dirs: Seq<Direction>,
}

/// A movement meets the threshold when its straight-line length does:
/// compared on squares to stay in integers.
pub open spec fn meets_threshold(dx: int, dy: int) -> bool {
    dx * dx + dy * dy >= GESTURE_THRESHOLD * GESTURE_THRESHOLD
}

/// Dominant-axis classification of a movement: strictly more horizontal
/// travel than vertical reads `Left`/`Right`, anything else `Up`/`Down`.
pub open spec fn classify(dx: int, dy: int) -> Direction {
    let adx = if dx < 0 {
        -dx
    } else {
        dx
    };
    let ady = if dy < 0 {
        -dy
    } else {
        dy
    };
    if adx > ady {
        if dx > 0 {
            Direction::Right
        } else {
            Direction::Left
        }
    } else {
        if dy > 0 {
            Direction::Down
        } else {
            Direction::Up
        }
    }
}

/// A direction is recorded only when it differs from the last recorded one
/// and the list is not full.
pub open spec fn can_append(dirs: Seq<Direction>, d: Direction) -> bool {
    dirs.len() < MAX_DIRECTIONS && (dirs.len() == 0 || dirs.last() != d)
}

/// Model of starting a stroke: the trigger button went down at `(px, py)`.
pub open spec fn begin_step(px: int, py: int) -> GestureModel {
    GestureModel { active: true, last: Some((px, py)), dirs: Seq::empty() }
}

/// Model of one pointer sample at `(px, py)` while the trigger button is
/// held.  A movement under the threshold changes nothing (jitter does not
/// advance the anchor); one at or over it advances the anchor and records
/// its direction when `can_append` allows.
pub open spec fn sample_step(m: GestureModel, px: int, py: int) -> GestureModel {
    match m.last {
        Option::None => m,
        Option::Some((lx, ly)) => {
            if !m.active {
                m
            } else {
                let dx = px - lx;
                let dy = py - ly;
                if meets_threshold(dx, dy) {
                    let d = classify(dx, dy);
                    GestureModel {
                        active: true,
                        last: Some((px, py)),
                        dirs: if can_append(m.dirs, d) {
                            m.dirs.push(d)
                        } else {
                            m.dirs
                        },
                    }
                } else {
                    m
                }
            }
        },
    }
}

/// Model of the release decision: exactly one recorded horizontal direction
/// navigates; an empty, longer, or vertical-only record does nothing.
pub open spec fn resolved_action(dirs: Seq<Direction>) -> Option<NavDirection> {
    if dirs.len() == 1 && dirs[0] == Direction::Left {
        Some(NavDirection::Prev)
    } else if dirs.len() == 1 && dirs[0] == Direction::Right {
        Some(NavDirection::Next)
    } else {
        None
    }
}

/// Recognizer state.  Created once per session; `resolve` returns it to the
/// initial inactive state after every stroke.
pub struct GestureState {
    /// Whether the trigger button is held and a stroke is being tracked.
    pub active: bool,
    /// Anchor position for the next movement delta.
    pub last_sample: Option<(i64, i64)>,
    /// Directions recorded so far, exposed for overlay rendering.
    pub directions: Vec<Direction>,
}

impl View for GestureState {
    type V = GestureModel;

    open spec fn view(&self) -> GestureModel {
        GestureModel {
            active: self.active,
            last: match self.last_sample {
                Option::Some((x, y)) => Some((x as int, y as int)),
                Option::None => None,
            },
            dirs: self.directions@,
        }
    }
}

impl GestureState {
    /// No two consecutive recorded directions are equal, at most
    /// `MAX_DIRECTIONS` are recorded, tracking always has an anchor, and an
    /// idle recognizer holds nothing.  The anchor stays within the
    /// coordinate bound fed in by `begin` and `sample`.
    pub open spec fn wf(self) -> bool {
        &&& self.directions@.len() <= MAX_DIRECTIONS
        &&& forall|i: int|
            0 < i < self.directions@.len() ==> #[trigger] self.directions@[i] != self.directions@[i - 1]
        &&& (self.active <==> self.last_sample is Some)
        &&& (!self.active ==> self.directions@.len() == 0)
        &&& (self.last_sample matches Some((x, y)) ==> -COORD_LIMIT <= x <= COORD_LIMIT
            && -COORD_LIMIT <= y <= COORD_LIMIT)
    }

    /// Idle recognizer: no stroke, nothing recorded.
    pub fn new() -> (r: GestureState)
        ensures
            r.wf(),
            !r@.active,
            r@.last is None,
            r@.dirs.len() == 0,
    {
        GestureState { active: false, last_sample: None, directions: Vec::new() }
    }

    /// The trigger button went down: start tracking at the current pointer
    /// position, with no direction recorded yet.
    pub fn begin(&mut self, px: i64, py: i64)
        requires
            -COORD_LIMIT <= px <= COORD_LIMIT,
            -COORD_LIMIT <= py <= COORD_LIMIT,
        ensures
            final(self).wf(),
            final(self)@ == begin_step(px as int, py as int),
    {
        self.active = true;
        self.last_sample = Some((px, py));
        self.directions = Vec::new();
        proof {
            assert(final(self)@.dirs =~= Seq::<Direction>::empty());
        }
    }

    /// One pointer sample while the trigger button is held.
    pub fn sample(&mut self, px: i64, py: i64)
        requires
            old(self).wf(),
            -COORD_LIMIT <= px <= COORD_LIMIT,
            -COORD_LIMIT <= py <= COORD_LIMIT,
        ensures
            final(self).wf(),
            final(self)@ == sample_step(old(self)@, px as int, py as int),
    {
        if !self.active {
            return ;
        }
        if let Some((lx, ly)) = self.last_sample {
            let dx = px - lx;
            let dy = py - ly;
            proof {
                lemma_square_bound(dx as int, 2 * COORD_LIMIT);
                lemma_square_bound(dy as int, 2 * COORD_LIMIT);
            }
            let dist_sq: i128 = (dx as i128) * (dx as i128) + (dy as i128) * (dy as i128);
            let threshold_sq: i128 = 400_000_000;
            proof {
                assert(threshold_sq == GESTURE_THRESHOLD * GESTURE_THRESHOLD);
            }
            if dist_sq >= threshold_sq {
                let adx = if dx < 0 {
                    -dx
                } else {
                    dx
                };
                let ady = if dy < 0 {
                    -dy
                } else {
                    dy
                };
                let d = if adx > ady {
                    if dx > 0 {
                        Direction::Right
                    } else {
                        Direction::Left
                    }
                } else {
                    if dy > 0 {
                        Direction::Down
                    } else {
                        Direction::Up
                    }
                };
                let len = self.directions.len();
                if len < MAX_DIRECTIONS && (len == 0 || self.directions[len - 1] != d) {
                    self.directions.push(d);
                }
                self.last_sample = Some((px, py));
            }
        }
    }

    /// The trigger button was released: decide the navigation action from
    /// the recorded directions, then reset to the idle state.
    pub fn resolve(&mut self) -> (r: Option<NavDirection>)
        requires
            old(self).wf(),
        ensures
            final(self).wf(),
            !final(self)@.active,
            final(self)@.last is None,
            final(self)@.dirs.len() == 0,
            r == resolved_action(old(self)@.dirs),
    {
        let r = if self.directions.len() == 1 {
            match self.directions[0] {
                Direction::Left => Some(NavDirection::Prev),
                Direction::Right => Some(NavDirection::Next),
                Direction::Up => None,
                Direction::Down => None,
            }
        } else {
            None
        };
        self.active = false;
        self.last_sample = None;
        self.directions = Vec::new();
        r
    }
}

/// Folding a whole stroke of samples into the model, front to back.
pub open spec fn run_samples(m: GestureModel, pts: Seq<(int, int)>) -> GestureModel
    decreases pts.len(),
{
    if pts.len() == 0 {
        m
    } else {
        run_samples(sample_step(m, pts[0].0, pts[0].1), pts.skip(1))
    }
}

/// Every sample in `pts` moves strictly rightward from the one before it
/// (or from `prev` for the first): at least the threshold distance along the
/// positive horizontal axis, with no vertical travel.
pub open spec fn strictly_rightward(prev: (int, int), pts: Seq<(int, int)>) -> bool
    decreases pts.len(),
{
    if pts.len() == 0 {
        true
    } else {
        &&& pts[0].1 == prev.1
        &&& pts[0].0 - prev.0 >= GESTURE_THRESHOLD
        &&& strictly_rightward(pts[0], pts.skip(1))
    }
}

/// A square is bounded by the square of a bound on its root.
proof fn lemma_square_bound(a: int, b: int) by (nonlinear_arith)
    requires
        -b <= a <= b,
        0 <= b,
    ensures
        0 <= a * a <= b * b,
{
}

/// A rightward step meets the threshold and classifies as `Right`.
proof fn lemma_rightward_step_classifies(dx: int, dy: int)
    requires
        dx >= GESTURE_THRESHOLD,
        dy == 0,
    ensures
        meets_threshold(dx, dy),
        classify(dx, dy) == Direction::Right,
{
    assert(dx * dx >= GESTURE_THRESHOLD * GESTURE_THRESHOLD) by (nonlinear_arith)
        requires
            dx >= GESTURE_THRESHOLD,
            GESTURE_THRESHOLD > 0;
    assert(dy * dy == 0);
}

/// While tracking with exactly `Right` recorded, a strictly rightward rest
/// of the stroke keeps exactly `Right` recorded.
proof fn lemma_rightward_keeps_right(m: GestureModel, pts: Seq<(int, int)>)
    requires
        m.active,
        m.last is Some,
        strictly_rightward(m.last->0, pts),
        m.dirs =~= seq![Direction::Right],
    ensures
        run_samples(m, pts).dirs =~= seq![Direction::Right],
    decreases pts.len(),
{
    if pts.len() > 0 {
        let (px, py) = pts[0];
        let (lx, ly) = m.last->0;
        lemma_rightward_step_classifies(px - lx, py - ly);
        let m2 = sample_step(m, px, py);
        assert(m2.dirs =~= seq![Direction::Right]);
        lemma_rightward_keeps_right(m2, pts.skip(1));
    }
}

/// Gesture determinism law, perpendicular case: a stroke of two segments
/// that both meet the threshold and classify into different directions
/// records both of them, so its release resolves to no action.
pub proof fn lemma_two_direction_stroke_no_action(p0: (int, int), p1: (int, int), p2: (int, int))
    requires
        meets_threshold(p1.0 - p0.0, p1.1 - p0.1),
        meets_threshold(p2.0 - p1.0, p2.1 - p1.1),
        classify(p1.0 - p0.0, p1.1 - p0.1) != classify(p2.0 - p1.0, p2.1 - p1.1),
    ensures
        resolved_action(run_samples(begin_step(p0.0, p0.1), seq![p1, p2]).dirs) is None,
{
    reveal_with_fuel(run_samples, 4);
    let m0 = begin_step(p0.0, p0.1);
    let d1 = classify(p1.0 - p0.0, p1.1 - p0.1);
    let d2 = classify(p2.0 - p1.0, p2.1 - p1.1);
    let m1 = sample_step(m0, p1.0, p1.1);
    assert(m1.dirs =~= seq![d1]);
    let m2 = sample_step(m1, p2.0, p2.1);
    assert(m2.dirs =~= seq![d1, d2]);
    assert(seq![p1, p2].skip(1) =~= seq![p2]);
    assert(seq![p2].skip(1) =~= Seq::<(int, int)>::empty());
    assert(run_samples(m0, seq![p1, p2]).dirs == m2.dirs);
}

/// Gesture determinism law, rightward case: from the moment the trigger
/// button goes down at `start`, any stroke whose samples each move strictly
/// rightward by at least the threshold resolves, on release, to exactly the
/// "navigate next" action.
pub proof fn lemma_rightward_stroke_navigates_next(start: (int, int), pts: Seq<(int, int)>)
    requires
        pts.len() >= 1,
        strictly_rightward(start, pts),
    ensures
        resolved_action(run_samples(begin_step(start.0, start.1), pts).dirs) == Some(
            NavDirection::Next,
        ),
{
    let m0 = begin_step(start.0, start.1);
    let (px, py) = pts[0];
    lemma_rightward_step_classifies(px - start.0, py - start.1);
    let m1 = sample_step(m0, px, py);
    assert(m1.dirs =~= seq![Direction::Right]);
    lemma_rightward_keeps_right(m1, pts.skip(1));
}

} // verus!
