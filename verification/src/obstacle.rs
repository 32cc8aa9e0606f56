//! A gap obstacle: a vertical bar at a fixed world column, with a gap band
//! the player must pass through. The gap narrows as the score rises, and the
//! gap center is drawn at random when the obstacle is created.

use crate::player::Player;
use crate::rng::{new_rng, rng_range};
use crate::{PLAYER_OFFSET, SCREEN_HEIGHT};
use vstd::prelude::*;

verus! {

/// Lowest row (inclusive) the gap center is drawn from.
pub const GAP_CENTER_MIN: i32 = 10;
/// Highest row (exclusive) the gap center is drawn from.
pub const GAP_CENTER_MAX: i32 = 40;
/// Gap size of an obstacle created at score zero.
pub const BASE_GAP_SIZE: i32 = 20;
/// The floor the gap size never narrows below.
pub const MIN_GAP_SIZE: i32 = 2;

pub struct Obstacle {
    /// World column of the obstacle's vertical bar; fixed for its lifetime.
    pub x: i32,
    /// Row of the gap's center.
    pub gap_y: i32,
    /// Height of the gap band, in rows.
    pub size: i32,
}

/// The gap size an obstacle is created with at a given score:
/// `max(MIN_GAP_SIZE, BASE_GAP_SIZE - score)`.
pub open spec fn gap_size(score: int) -> int {
    if BASE_GAP_SIZE - score >= MIN_GAP_SIZE {
        BASE_GAP_SIZE - score
    } else {
        MIN_GAP_SIZE as int
    }
}

/// The gap size is monotonically non-increasing in the score and never goes
/// below its floor.
pub proof fn lemma_gap_size_monotonic(s1: int, s2: int)
    requires
        s1 <= s2,
    ensures
        gap_size(s2) <= gap_size(s1),
        gap_size(s2) >= MIN_GAP_SIZE,
{
}

impl Obstacle {
    /// Every obstacle is created with its gap center inside the fixed range
    /// and its gap size between the floor and the size at score zero.
    pub open spec fn wf(self) -> bool {
        &&& GAP_CENTER_MIN <= self.gap_y < GAP_CENTER_MAX
        &&& MIN_GAP_SIZE <= self.size <= BASE_GAP_SIZE
    }

    /// Whether the player collides with this obstacle: true exactly when the
    /// obstacle's bar is aligned with the player's screen column and the
    /// player's row lies strictly outside the gap band
    /// `[gap_y - size / 2, gap_y + size / 2]`.
    pub open spec fn hits(self, player: Player) -> bool {
        &&& player.x + PLAYER_OFFSET == self.x
        &&& (player.y < self.gap_y - self.size / 2 || player.y > self.gap_y + self.size / 2)
    }

    /// No collision without alignment: whenever the player's world column
    /// plus the fixed screen offset differs from the obstacle's world
    /// column, the obstacle is not hit, whatever the player's row.
    pub proof fn lemma_no_hit_off_column(self, player: Player)
        requires
            player.x + PLAYER_OFFSET != self.x,
        ensures
            !self.hits(player),
    {
    }

    /// Build an obstacle from an already chosen gap center. This is the
    /// deterministic part of obstacle creation; `new` draws the gap center at
    /// random and delegates here.
    pub fn with_gap_center(x: i32, gap_y: i32, score: i32) -> (obstacle: Obstacle)
        requires
            0 <= score,
            GAP_CENTER_MIN <= gap_y < GAP_CENTER_MAX,
        ensures
            obstacle.x == x,
            obstacle.gap_y == gap_y,
            obstacle.size == gap_size(score as int),
            obstacle.wf(),
    {
        let size: i32 = if score >= BASE_GAP_SIZE - MIN_GAP_SIZE {
            MIN_GAP_SIZE
        } else {
            BASE_GAP_SIZE - score
        };
        Obstacle { x, gap_y, size }
    }

    /// Create an obstacle at world column `x` for the given score: the gap
    /// center is drawn uniformly from `[GAP_CENTER_MIN, GAP_CENTER_MAX)` and
    /// the gap size is `gap_size(score)`.
    pub fn new(x: i32, score: i32) -> (obstacle: Obstacle)
        requires
            0 <= score,
        ensures
            obstacle.x == x,
            obstacle.size == gap_size(score as int),
            obstacle.wf(),
    {
        let mut random = new_rng();
        let gap_y = rng_range(&mut random, GAP_CENTER_MIN, GAP_CENTER_MAX);
        Obstacle::with_gap_center(x, gap_y, score)
    }

    /// Collision test: true exactly when the player's world column plus the
    /// fixed screen offset equals the obstacle's world column and the
    /// player's row is strictly outside the gap band.
    pub fn hit_obstacle(&self, player: &Player) -> (hit: bool)
        requires
            self.wf(),
            player.x + PLAYER_OFFSET <= i32::MAX,
        ensures
            hit == self.hits(*player),
    {
        let half_size: i32 = self.size / 2;
        let does_x_match = player.x + PLAYER_OFFSET == self.x;
        let player_above_gap = player.y < self.gap_y - half_size;
        let player_below_gap = player.y > self.gap_y + half_size;
        does_x_match && (player_above_gap || player_below_gap)
    }

    /// The screen column the obstacle is drawn at: its world column relative
    /// to the player's.
    pub fn screen_x(&self, player_x: i32) -> (sx: i32)
        requires
            i32::MIN <= self.x - player_x <= i32::MAX,
        ensures
            sx == self.x - player_x,
    {
        self.x - player_x
    }

    /// The rows of the obstacle's bar, top to bottom: every row of the grid
    /// except the gap band `[gap_y - size / 2, gap_y + size / 2)`.
    pub fn bar_rows(&self) -> (rows: Vec<i32>)
        requires
            self.wf(),
        ensures
            ({
                let top = self.gap_y - self.size / 2;
                let bottom = self.gap_y + self.size / 2;
                &&& rows@.len() == top + (SCREEN_HEIGHT - bottom)
                &&& forall|k: int|
                    0 <= k < top ==> rows@[k] == k
                &&& forall|k: int|
                    top <= k < rows@.len() ==> rows@[k] == bottom + (k - top)
            }),
    {
        let half_size: i32 = self.size / 2;
        let top: i32 = self.gap_y - half_size;
        let bottom: i32 = self.gap_y + half_size;
        let mut rows: Vec<i32> = Vec::new();
        let mut y: i32 = 0;
        while y < top
            invariant
                0 <= y <= top,
                top == self.gap_y - self.size / 2,
                self.wf(),
                rows@.len() == y,
                forall|k: int| 0 <= k < y ==> rows@[k] == k,
            decreases top - y,
        {
            rows.push(y);
            y = y + 1;
        }
        let mut y: i32 = bottom;
        while y < SCREEN_HEIGHT
            invariant
                top == self.gap_y - self.size / 2,
                bottom == self.gap_y + self.size / 2,
                bottom <= y <= SCREEN_HEIGHT || y == bottom,
                self.wf(),
                0 <= top,
                rows@.len() == top + (y - bottom),
                forall|k: int| 0 <= k < top ==> rows@[k] == k,
                forall|k: int| top <= k < rows@.len() ==> rows@[k] == bottom + (k - top),
            decreases SCREEN_HEIGHT - y,
        {
            rows.push(y);
            y = y + 1;
        }
        rows
    }
}

} // verus!
