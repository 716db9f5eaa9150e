//! Food placement: choosing an arena cell that the snake does not occupy.
//!
//! The routine first rejection-samples random cells, which keeps the choice
//! uniform over the free cells in practice, and then falls back to a
//! deterministic scan so that it terminates and reports a fully occupied
//! arena instead of looping forever.

use vstd::prelude::*;
use rand::Rng;
use std::collections::VecDeque;
use crate::geometry::Point;
use crate::geometry::in_bounds;

verus! {

/// How many random cells are tried before the deterministic scan takes over.
pub const SAMPLE_ATTEMPTS: u32 = 64;

/// Relies on rand's `Rng::gen_range` over the range `0..n`: the sample lies
/// in that range. The call panics only on an empty range, which the
/// precondition rules out.
#[verifier::external_body]
fn random_below(n: i32) -> (r: i32)
    requires
        1 <= n,
    ensures
        0 <= r < n,
{
    rand::thread_rng().gen_range(0..n)
}

/// Whether a cell appears among the snake's segments.
pub fn contains_point(segments: &VecDeque<Point>, p: Point) -> (r: bool)
    ensures
        r == segments@.contains(p),
{
    let n = segments.len();
    let mut i: usize = 0;
    while i < n
        invariant
            0 <= i <= n,
            n == segments@.len(),
            forall|j: int| 0 <= j < i ==> segments@[j] != p,
        decreases n - i,
    {
        if segments[i] == p {
            return true;
        }
        i += 1;
    }
    false
}

/// Picks a cell of the `width x height` arena that is not occupied by any
/// segment, or reports that no such cell exists. Random candidates are
/// tried first; a full scan then settles the matter either way.
pub fn place_food(width: i32, height: i32, occupied: &VecDeque<Point>) -> (r: Option<Point>)
    requires
        1 <= width,
        1 <= height,
    ensures
        match r {
            Some(p) => in_bounds(p, width as int, height as int) && !occupied@.contains(p),
            None => forall|q: Point|
                in_bounds(q, width as int, height as int) ==> occupied@.contains(q),
        },
{
    let mut attempts: u32 = 0;
    while attempts < SAMPLE_ATTEMPTS
        invariant
            1 <= width,
            1 <= height,
        decreases SAMPLE_ATTEMPTS - attempts,
    {
        let candidate = Point { x: random_below(width), y: random_below(height) };
        if !contains_point(occupied, candidate) {
            return Some(candidate);
        }
        attempts += 1;
    }
    let mut y: i32 = 0;
    while y < height
        invariant
            0 <= y <= height,
            1 <= width,
            1 <= height,
            forall|q: Point|
                in_bounds(q, width as int, height as int) && q.y < y ==> occupied@.contains(q),
        decreases height - y,
    {
        let mut x: i32 = 0;
        while x < width
            invariant
                0 <= x <= width,
                0 <= y < height,
                1 <= width,
                1 <= height,
                forall|q: Point|
                    in_bounds(q, width as int, height as int) && q.y < y ==> occupied@.contains(
                        q,
                    ),
                forall|q: Point|
                    in_bounds(q, width as int, height as int) && q.y == y && q.x < x
                        ==> occupied@.contains(q),
            decreases width - x,
        {
            let candidate = Point { x, y };
            if !contains_point(occupied, candidate) {
                return Some(candidate);
            }
            x += 1;
        }
        y += 1;
    }
    None
}

/// Law: over an arena with exactly one free cell, food placement can only
/// return that cell — any cell that is in bounds and off the snake is it.
pub proof fn lemma_single_free_cell(
    w: int,
    h: int,
    occupied: Seq<Point>,
    only_free: Point,
    chosen: Point,
)
    requires
        forall|q: Point| in_bounds(q, w, h) && q != only_free ==> occupied.contains(q),
        in_bounds(chosen, w, h),
        !occupied.contains(chosen),
    ensures
        chosen == only_free,
{
}

} // verus!
