//! Toy bounding-radius circuit: checks whether a device coordinate pair lies
//! within a fixed radius of a fixed center point.

use vstd::prelude::*;

verus! {

pub const CENTER_X: u64 = 5000;

pub const CENTER_Y: u64 = 5000;

pub const RADIUS: u64 = 100;

/// Absolute difference of two coordinates, as a mathematical integer.
pub open spec fn coord_dist(a: u64, b: u64) -> int {
    if a > b {
        a - b
    } else {
        b - a
    }
}

#[derive(Clone, Debug, Default)]
pub struct ProximityCircuit {
    pub x: u64,
    pub y: u64,
}

impl ProximityCircuit {
    /// Whether the point lies within `RADIUS` of the center, by squared
    /// Euclidean distance.
    pub open spec fn within_radius(self) -> bool {
        let dx = coord_dist(self.x, CENTER_X);
        let dy = coord_dist(self.y, CENTER_Y);
        dx * dx + dy * dy <= RADIUS * RADIUS
    }

    pub fn new(x: u64, y: u64) -> (c: Self)
        ensures
            c.x == x,
            c.y == y,
    {
        Self { x, y }
    }

    /// Check if the coordinates are within the proximity radius.
    pub fn check_proximity(&self) -> (r: bool)
        ensures
            r == self.within_radius(),
    {
        let dx: u64 = if self.x > CENTER_X {
            self.x - CENTER_X
        } else {
            CENTER_X - self.x
        };
        let dy: u64 = if self.y > CENTER_Y {
            self.y - CENTER_Y
        } else {
            CENTER_Y - self.y
        };
        if dx > RADIUS || dy > RADIUS {
            proof {
                assert(dx > RADIUS ==> dx * dx > RADIUS * RADIUS) by (nonlinear_arith);
                assert(dy > RADIUS ==> dy * dy > RADIUS * RADIUS) by (nonlinear_arith);
                assert(dx * dx >= 0 && dy * dy >= 0) by (nonlinear_arith);
            }
            false
        } else {
            proof {
                assert(dx <= RADIUS && dy <= RADIUS ==> dx * dx <= RADIUS * RADIUS && dy * dy
                    <= RADIUS * RADIUS) by (nonlinear_arith);
            }
            (dx * dx + dy * dy) <= (RADIUS * RADIUS)
        }
    }
}

} // verus!
