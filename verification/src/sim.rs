//! The simulation core: the boolean cell grid, the three-cell scanner that
//! sweeps it, and the playing/paused state machine with its per-tick update
//! rule.

use vstd::prelude::*;

verus! {

/// Width of the grid: the automaton's spatial axis (valid x indices are
/// `0 .. GRID_X_SIZE`).
pub const GRID_X_SIZE: usize = 101;

/// Height of the grid: one row per generation (valid y indices are
/// `0 .. GRID_Y_SIZE`).
pub const GRID_Y_SIZE: usize = 100;

/// An (x, y) integer pair, used both for grid coordinates and scanner
/// offsets.
#[derive(Copy, Clone, Debug, PartialEq, Eq, Structural)]
pub struct Point(pub i32, pub i32);

impl Point {
    /// Component-wise addition of two points.
    pub fn add(self, rhs: Point) -> (r: Point)
        requires
            i32::MIN <= self.0 + rhs.0 <= i32::MAX,
            i32::MIN <= self.1 + rhs.1 <= i32::MAX,
        ensures
            r.0 == self.0 + rhs.0,
            r.1 == self.1 + rhs.1,
    {
        Point(self.0 + rhs.0, self.1 + rhs.1)
    }
}

/// Whether `p` denotes a cell of the grid.
pub open spec fn in_grid(p: Point) -> bool {
    &&& 0 <= p.0 < GRID_X_SIZE
    &&& 0 <= p.1 < GRID_Y_SIZE
}

/// Position of the cell `p` in the flat grid buffer (x outer, y inner).
pub open spec fn cell_index(p: Point) -> int {
    p.0 as int * GRID_Y_SIZE as int + p.1 as int
}

/// Whether ticks advance: `Playing` lets `next_tick` act, `Paused` makes it
/// a no-op. Also keys the background tint.
#[derive(Copy, Clone, Debug, PartialEq, Eq, Structural)]
pub enum SimulationState {
    Playing,
    Paused,
}

/// The state that one press of the pause key produces from `s`.
pub open spec fn toggled(s: SimulationState) -> SimulationState {
    match s {
        SimulationState::Playing => SimulationState::Paused,
        SimulationState::Paused => SimulationState::Playing,
    }
}

/// Toggling the pause state twice returns any state to itself.
pub proof fn lemma_toggle_involutive(s: SimulationState)
    ensures
        toggled(toggled(s)) == s,
{
}

/// Two in-range points with the same flat position are the same cell.
pub proof fn lemma_cell_index_injective(p: Point, q: Point)
    requires
        in_grid(p),
        in_grid(q),
        cell_index(p) == cell_index(q),
    ensures
        p == q,
{
}

/// Where the scanner's head moves on one advance: one step right along its
/// row, or, from the right edge, to the start of the next row.
pub open spec fn next_head(p: Point) -> Point {
    if p.0 as int == GRID_X_SIZE as int - 1 {
        Point(0, (p.1 + 1) as i32)
    } else {
        Point((p.0 + 1) as i32, p.1)
    }
}

/// The head coordinates from which an advance computes without overflow.
pub open spec fn head_step_ok(p: Point) -> bool {
    &&& p.0 < i32::MAX
    &&& (p.0 as int == GRID_X_SIZE as int - 1 ==> p.1 < i32::MAX)
}

/// When the head stands on the grid's last column, its successor resets to
/// column 0 one row further down, rather than running past the right edge.
pub proof fn lemma_head_wraps_at_right_edge(p: Point)
    requires
        p.0 as int == GRID_X_SIZE as int - 1,
        p.1 < i32::MAX,
    ensures
        next_head(p).0 == 0,
        next_head(p).1 == p.1 + 1,
{
}

/// Away from the last column the head's successor advances one column and
/// keeps its row.
pub proof fn lemma_head_advances_right(p: Point)
    requires
        0 <= p.0,
        (p.0 as int) < GRID_X_SIZE as int - 1,
    ensures
        next_head(p).0 == p.0 + 1,
        next_head(p).1 == p.1,
{
}

/// The cell directly below `p`: same column, next row.
pub open spec fn point_below(p: Point) -> Point {
    Point(p.0, (p.1 + 1) as i32)
}

/// The three-neighbor update rule: `p XOR (q OR r)`, for p, q, r the values
/// under the scanner's third, second and first point.
pub open spec fn rule(p: bool, q: bool, r: bool) -> bool {
    p != (q || r)
}

/// The whole simulation: the cell grid (a flat buffer of
/// `GRID_X_SIZE * GRID_Y_SIZE` booleans, x outer and y inner), the scanner
/// (an ordered sequence of exactly three points), and the playing/paused
/// state.
pub struct SimContext {
    pub points: Vec<bool>,
    pub scanner: Vec<Point>,
    pub state: SimulationState,
}

impl SimContext {
    /// Structural invariant: the grid buffer covers every cell and the
    /// scanner holds exactly three points.
    pub open spec fn wf(self) -> bool {
        &&& self.points@.len() == GRID_X_SIZE * GRID_Y_SIZE
        &&& self.scanner@.len() == 3
    }

    /// The grid value at point `p`.
    pub open spec fn cell(self, p: Point) -> bool {
        self.points@[cell_index(p)]
    }

    /// A fresh simulation: every cell false but one seed cell just past the
    /// horizontal center of row 1, the scanner covering the three leftmost
    /// cells of row 1 in its sweeping order (newest first), and the state
    /// paused.
    pub fn new() -> (r: SimContext)
        ensures
            r.wf(),
            r.state is Paused,
            r.scanner@ == seq![Point(2, 1), Point(1, 1), Point(0, 1)],
            forall|p: Point|
                in_grid(p) ==> r.cell(p) == (p.0 as int == (GRID_X_SIZE as int + 1) / 2
                    && p.1 == 1),
    {
        let total: usize = GRID_X_SIZE * GRID_Y_SIZE;
        let mut cells: Vec<bool> = Vec::new();
        while cells.len() < total
            invariant
                cells@.len() <= total,
                forall|i: int| 0 <= i < cells@.len() ==> !cells@[i],
            decreases total - cells@.len(),
        {
            cells.push(false);
        }
        let seed_x: usize = (GRID_X_SIZE + 1) / 2;
        cells.set(seed_x * GRID_Y_SIZE + 1, true);

        let mut scanner: Vec<Point> = Vec::new();
        scanner.push(Point(2, 1));
        scanner.push(Point(1, 1));
        scanner.push(Point(0, 1));

        let r = SimContext { points: cells, scanner, state: SimulationState::Paused };

        proof {
            let seed = Point(seed_x as i32, 1);
            assert(r.scanner@ =~= seq![Point(2, 1), Point(1, 1), Point(0, 1)]);
            assert forall|p: Point| in_grid(p) implies r.cell(p) == (p.0 as int == (
            GRID_X_SIZE as int + 1) / 2 && p.1 == 1) by {
                if cell_index(p) == cell_index(seed) {
                    lemma_cell_index_injective(p, seed);
                }
            }
        }
        r
    }

    /// Pure lookup of the grid value at `point`; in-range coordinates are
    /// demanded, as an out-of-range access is a fatal condition.
    pub fn get_value_at_point(&self, point: &Point) -> (r: bool)
        requires
            self.wf(),
            in_grid(*point),
        ensures
            r == self.cell(*point),
    {
        let point_x = point.0 as usize;
        let point_y = point.1 as usize;

        self.points[point_x * GRID_Y_SIZE + point_y]
    }

    /// Slides the scanner one step: the previous tail is dropped and the
    /// head's successor is inserted at the front, so the order afterwards is
    /// [next head, former first, former second]. At the right edge the new
    /// head wraps to the start of the next row. A no-op while paused.
    pub fn move_scanner(&mut self)
        requires
            old(self).wf(),
            old(self).state is Playing ==> head_step_ok(old(self).scanner@[0]),
        ensures
            final(self).wf(),
            old(self).state is Paused ==> *final(self) == *old(self),
            old(self).state is Playing ==> {
                &&& final(self).scanner@ == seq![
                    next_head(old(self).scanner@[0]),
                    old(self).scanner@[0],
                    old(self).scanner@[1],
                ]
                &&& final(self).points == old(self).points
                &&& final(self).state == old(self).state
            },
    {
        if let SimulationState::Paused = self.state {
            return ;
        }
        let head_position: Point = self.scanner[0];

        let mut next_head_position: Point = head_position.add(Point(1, 0));

        if head_position.0 == (GRID_X_SIZE - 1) as i32 {
            next_head_position = Point(0, head_position.1 + 1);
        }
        self.scanner.pop();
        self.scanner.insert(0, next_head_position);

        proof {
            assert(self.scanner@ =~= seq![
                next_head(old(self).scanner@[0]),
                old(self).scanner@[0],
                old(self).scanner@[1],
            ]);
        }
    }

    /// Reads the three cells under the scanner — p at its third point, q at
    /// its second, r at its first — and writes `rule(p, q, r)` into the cell
    /// directly below the second point. Every scanner point, and the target
    /// cell, must lie on the grid.
    pub fn calculate_state(&mut self)
        requires
            old(self).wf(),
            in_grid(old(self).scanner@[0]),
            in_grid(old(self).scanner@[1]),
            in_grid(old(self).scanner@[2]),
            old(self).scanner@[1].1 + 1 < GRID_Y_SIZE,
        ensures
            final(self).wf(),
            final(self).scanner == old(self).scanner,
            final(self).state == old(self).state,
            final(self).points@ == old(self).points@.update(
                cell_index(point_below(old(self).scanner@[1])),
                rule(
                    old(self).cell(old(self).scanner@[2]),
                    old(self).cell(old(self).scanner@[1]),
                    old(self).cell(old(self).scanner@[0]),
                ),
            ),
    {
        let pp: Point = self.scanner[2];
        let pq: Point = self.scanner[1];
        let pr: Point = self.scanner[0];

        let p = self.get_value_at_point(&pp);
        let q = self.get_value_at_point(&pq);
        let r = self.get_value_at_point(&pr);

        let result = p ^ (q || r);

        let target: usize = (pq.0 as usize) * GRID_Y_SIZE + (pq.1 + 1) as usize;
        self.points.set(target, result);
    }

    /// One simulation step: advance the scanner, then compute and store one
    /// new cell. A no-op while paused. While playing, the scanner's first
    /// two points must lie on the grid with room for a row below the first,
    /// so that every read and the write stay in range.
    pub fn next_tick(&mut self)
        requires
            old(self).wf(),
            old(self).state is Playing ==> {
                &&& in_grid(old(self).scanner@[0])
                &&& in_grid(old(self).scanner@[1])
                &&& old(self).scanner@[0].1 + 1 < GRID_Y_SIZE
            },
        ensures
            final(self).wf(),
            old(self).state is Paused ==> *final(self) == *old(self),
            old(self).state is Playing ==> {
                &&& final(self).state == old(self).state
                &&& final(self).scanner@ == seq![
                    next_head(old(self).scanner@[0]),
                    old(self).scanner@[0],
                    old(self).scanner@[1],
                ]
                &&& final(self).points@ == old(self).points@.update(
                    cell_index(point_below(old(self).scanner@[0])),
                    rule(
                        old(self).cell(old(self).scanner@[1]),
                        old(self).cell(old(self).scanner@[0]),
                        old(self).cell(next_head(old(self).scanner@[0])),
                    ),
                )
            },
    {
        if let SimulationState::Paused = self.state {
            return ;
        }
        self.move_scanner();
        self.calculate_state();
    }

    /// Flips playing to paused and back; the only state transition, with no
    /// effect on the grid or the scanner.
    pub fn toggle_pause(&mut self)
        ensures
            final(self).state == toggled(old(self).state),
            final(self).points == old(self).points,
            final(self).scanner == old(self).scanner,
    {
        self.state = match self.state {
            SimulationState::Playing => SimulationState::Paused,
            SimulationState::Paused => SimulationState::Playing,
        };
    }
}
} // verus!
