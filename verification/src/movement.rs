use vstd::prelude::*;

use crate::GRID_SIZE;
use crate::tiles::{TerrainKind, TileMap, coord_view, spec_is_passable};

verus! {

/// Horizontal component of the direction summed from the triggered keys:
/// left pulls one cell towards negative x, right one cell towards
/// positive x, and together they cancel.
pub open spec fn dir_x(left: bool, right: bool) -> int {
    (if right {
        1int
    } else {
        0int
    }) - (if left {
        1int
    } else {
        0int
    })
}

/// Vertical component of the summed direction: up is positive y, down
/// negative y.
pub open spec fn dir_y(up: bool, down: bool) -> int {
    (if up {
        1int
    } else {
        0int
    }) - (if down {
        1int
    } else {
        0int
    })
}

/// Edge-triggered input: a key counts only on the transition from
/// released to pressed, never while it stays held.
pub open spec fn press_edge(was_pressed: bool, pressed: bool) -> bool {
    pressed && !was_pressed
}

/// The transition rule of the movement state machine. The four inputs are
/// the direction keys triggered in one evaluation; simultaneous triggers
/// combine additively. A zero direction is a no-op; otherwise the single
/// resulting candidate cell is consulted, and the move commits exactly
/// when that cell is passable — a diagonal step is not special-cased
/// against its two orthogonal neighbours.
pub open spec fn move_target(
    m: Map<(int, int), TerrainKind>,
    pos: (int, int),
    up: bool,
    down: bool,
    left: bool,
    right: bool,
) -> (int, int) {
    let dx = dir_x(left, right);
    let dy = dir_y(up, down);
    if dx == 0 && dy == 0 {
        pos
    } else {
        let candidate = (pos.0 + dx, pos.1 + dy);
        if spec_is_passable(m, candidate) {
            candidate
        } else {
            pos
        }
    }
}

/// Whether one evaluation commits a move: the summed direction is nonzero
/// and the candidate cell is passable.
pub open spec fn move_accepted(
    m: Map<(int, int), TerrainKind>,
    pos: (int, int),
    up: bool,
    down: bool,
    left: bool,
    right: bool,
) -> bool {
    let dx = dir_x(left, right);
    let dy = dir_y(up, down);
    !(dx == 0 && dy == 0) && spec_is_passable(m, (pos.0 + dx, pos.1 + dy))
}

/// The candidate coordinate stays within the machine's integer range;
/// each component moves by at most one cell.
pub open spec fn step_fits(pos: (int, int), up: bool, down: bool, left: bool, right: bool) -> bool {
    &&& (dir_x(left, right) > 0 ==> pos.0 < i32::MAX as int)
    &&& (dir_x(left, right) < 0 ==> pos.0 > i32::MIN as int)
    &&& (dir_y(up, down) > 0 ==> pos.1 < i32::MAX as int)
    &&& (dir_y(up, down) < 0 ==> pos.1 > i32::MIN as int)
}

/// Holds the controlled entity's current grid coordinate, mutated only by
/// successful moves; the tile map is read during evaluation and never
/// written by movement.
pub struct MovementController {
    pos: (i32, i32),
}

impl MovementController {
    /// The entity's current coordinate.
    pub closed spec fn position(&self) -> (int, int) {
        coord_view(self.pos)
    }

    /// A controller at the starting coordinate, the grid's center.
    pub fn new() -> (r: Self)
        ensures
            r.position() == (GRID_SIZE as int / 2, GRID_SIZE as int / 2),
    {
        Self { pos: (GRID_SIZE / 2, GRID_SIZE / 2) }
    }

    /// A controller placed at an arbitrary starting coordinate.
    pub fn with_position(pos: (i32, i32)) -> (r: Self)
        ensures
            r.position() == coord_view(pos),
    {
        Self { pos }
    }

    /// The current coordinate, for consumers that draw the entity.
    pub fn current_pos(&self) -> (r: (i32, i32))
        ensures
            coord_view(r) == self.position(),
    {
        self.pos
    }

    /// One evaluation of the movement state machine on edge-triggered key
    /// inputs: sums the triggered directions, validates the single
    /// candidate cell against the map, and commits or silently rejects.
    /// The returned flag says whether a move committed, so a rendering
    /// consumer knows when to emit a position update.
    pub fn step(&mut self, map: &TileMap, up: bool, down: bool, left: bool, right: bool) -> (moved:
        bool)
        requires
            step_fits(old(self).position(), up, down, left, right),
        ensures
            final(self).position() == move_target(
                map@,
                old(self).position(),
                up,
                down,
                left,
                right,
            ),
            moved == move_accepted(map@, old(self).position(), up, down, left, right),
    {
        let mut dx: i32 = 0;
        let mut dy: i32 = 0;
        if up {
            dy = dy + 1;
        }
        if down {
            dy = dy - 1;
        }
        if left {
            dx = dx - 1;
        }
        if right {
            dx = dx + 1;
        }
        if dx != 0 || dy != 0 {
            let candidate = (self.pos.0 + dx, self.pos.1 + dy);
            if map.is_passable(candidate) {
                self.pos = candidate;
                return true;
            }
        }
        false
    }
}

/// Remembers which direction keys were already pressed at the previous
/// evaluation, so that raw held-key levels can be reduced to the
/// edge-triggered pulses the movement state machine consumes.
pub struct InputTracker {
    up: bool,
    down: bool,
    left: bool,
    right: bool,
}

impl InputTracker {
    /// The key levels seen at the previous evaluation (up, down, left,
    /// right).
    pub closed spec fn held(&self) -> (bool, bool, bool, bool) {
        (self.up, self.down, self.left, self.right)
    }

    /// A tracker that has seen no key pressed yet.
    pub fn new() -> (r: Self)
        ensures
            r.held() == (false, false, false, false),
    {
        Self { up: false, down: false, left: false, right: false }
    }

    /// Reduces this evaluation's raw key levels to edge-triggered pulses:
    /// a key fires only if it is pressed now and was not pressed at the
    /// previous evaluation. The levels are then remembered, and are not
    /// queued across evaluations.
    pub fn edges(&mut self, up: bool, down: bool, left: bool, right: bool) -> (e: (
        bool,
        bool,
        bool,
        bool,
    ))
        ensures
            e == (
                press_edge(old(self).held().0, up),
                press_edge(old(self).held().1, down),
                press_edge(old(self).held().2, left),
                press_edge(old(self).held().3, right),
            ),
            final(self).held() == (up, down, left, right),
    {
        let e = (up && !self.up, down && !self.down, left && !self.left, right && !self.right);
        self.up = up;
        self.down = down;
        self.left = left;
        self.right = right;
        e
    }
}

/// One per-frame evaluation fed with raw held-key levels: the tracker
/// turns them into press edges, and the controller steps on those edges.
pub fn move_player(
    controller: &mut MovementController,
    tracker: &mut InputTracker,
    map: &TileMap,
    up: bool,
    down: bool,
    left: bool,
    right: bool,
) -> (moved: bool)
    requires
        step_fits(
            old(controller).position(),
            press_edge(old(tracker).held().0, up),
            press_edge(old(tracker).held().1, down),
            press_edge(old(tracker).held().2, left),
            press_edge(old(tracker).held().3, right),
        ),
    ensures
        final(tracker).held() == (up, down, left, right),
        final(controller).position() == move_target(
            map@,
            old(controller).position(),
            press_edge(old(tracker).held().0, up),
            press_edge(old(tracker).held().1, down),
            press_edge(old(tracker).held().2, left),
            press_edge(old(tracker).held().3, right),
        ),
        moved == move_accepted(
            map@,
            old(controller).position(),
            press_edge(old(tracker).held().0, up),
            press_edge(old(tracker).held().1, down),
            press_edge(old(tracker).held().2, left),
            press_edge(old(tracker).held().3, right),
        ),
{
    let e = tracker.edges(up, down, left, right);
    controller.step(map, e.0, e.1, e.2, e.3)
}

/// A nonzero direction input yields the coordinate `C + d` exactly when
/// that cell is passable at evaluation time; otherwise the coordinate
/// remains `C`.
pub proof fn lemma_move_validated(
    m: Map<(int, int), TerrainKind>,
    pos: (int, int),
    up: bool,
    down: bool,
    left: bool,
    right: bool,
)
    requires
        !(dir_x(left, right) == 0 && dir_y(up, down) == 0),
    ensures
        spec_is_passable(m, (pos.0 + dir_x(left, right), pos.1 + dir_y(up, down)))
            ==> move_target(m, pos, up, down, left, right) == (
            pos.0 + dir_x(left, right),
            pos.1 + dir_y(up, down),
        ),
        !spec_is_passable(m, (pos.0 + dir_x(left, right), pos.1 + dir_y(up, down)))
            ==> move_target(m, pos, up, down, left, right) == pos,
{
}

/// Keys that stay held across evaluations produce no new press edge, and
/// an evaluation whose four edge inputs are all absent leaves the
/// position unchanged — holding a key yields at most the one move of its
/// original press, never continuous movement.
pub proof fn lemma_held_keys_move_nothing(
    m: Map<(int, int), TerrainKind>,
    pos: (int, int),
    up: bool,
    down: bool,
    left: bool,
    right: bool,
)
    ensures
        !press_edge(up, up),
        move_target(
            m,
            pos,
            press_edge(up, up),
            press_edge(down, down),
            press_edge(left, left),
            press_edge(right, right),
        ) == pos,
        !move_accepted(
            m,
            pos,
            press_edge(up, up),
            press_edge(down, down),
            press_edge(left, left),
            press_edge(right, right),
        ),
{
}

} // verus!
