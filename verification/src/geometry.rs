//! Grid positions and the four axis-aligned movement directions.

use vstd::prelude::*;

verus! {

/// A cell of the arena grid, addressed by column `x` and row `y`.
#[derive(Clone, Copy, Debug, PartialEq, Eq, Structural)]
pub struct Point {
    pub x: i32,
    pub y: i32,
}

/// One of the four axis-aligned movement directions.
#[derive(Clone, Copy, Debug, PartialEq, Eq, Structural)]
pub enum Direction {
    Up,
    Down,
    Left,
    Right,
}

impl Direction {
    /// The direction pointing the opposite way.
    pub open spec fn spec_opposite(self) -> Direction {
        match self {
            Direction::Up => Direction::Down,
            Direction::Down => Direction::Up,
            Direction::Left => Direction::Right,
            Direction::Right => Direction::Left,
        }
    }

    /// Returns true if the other direction is opposite to this one.
    pub fn is_opposite(&self, other: &Direction) -> (r: bool)
        ensures
            r == (*other == self.spec_opposite()),
    {
        match (self, other) {
            (Direction::Up, Direction::Down) => true,
            (Direction::Down, Direction::Up) => true,
            (Direction::Left, Direction::Right) => true,
            (Direction::Right, Direction::Left) => true,
            _ => false,
        }
    }
}

/// Where a point ends up after moving one cell along a direction.
pub open spec fn spec_step(p: Point, d: Direction) -> Point {
    match d {
        Direction::Up => Point { x: p.x, y: (p.y - 1) as i32 },
        Direction::Down => Point { x: p.x, y: (p.y + 1) as i32 },
        Direction::Left => Point { x: (p.x - 1) as i32, y: p.y },
        Direction::Right => Point { x: (p.x + 1) as i32, y: p.y },
    }
}

/// A point lies inside the arena `[0, w) x [0, h)`.
pub open spec fn in_bounds(p: Point, w: int, h: int) -> bool {
    &&& 0 <= p.x < w
    &&& 0 <= p.y < h
}

/// Two cells are one step apart along exactly one grid axis.
pub open spec fn adjacent(a: Point, b: Point) -> bool {
    ||| (a.x == b.x && (a.y - b.y == 1 || b.y - a.y == 1))
    ||| (a.y == b.y && (a.x - b.x == 1 || b.x - a.x == 1))
}

/// Growing a connected, duplicate-free, in-bounds body at the head keeps it
/// connected, duplicate-free and in bounds, provided the new head is a fresh
/// in-bounds cell adjacent to the old head.
pub proof fn lemma_grow_head(s: Seq<Point>, p: Point, w: int, h: int)
    requires
        s.len() >= 1,
        s.no_duplicates(),
        !s.contains(p),
        in_bounds(p, w, h),
        adjacent(p, s[0]),
        forall|i: int| 0 <= i < s.len() ==> in_bounds(#[trigger] s[i], w, h),
        forall|i: int| 0 <= i && i + 1 < s.len() ==> adjacent(#[trigger] s[i], s[i + 1]),
    ensures
        (seq![p] + s).len() == s.len() + 1,
        (seq![p] + s).no_duplicates(),
        forall|i: int|
            0 <= i < s.len() + 1 ==> in_bounds(#[trigger] (seq![p] + s)[i], w, h),
        forall|i: int|
            0 <= i && i + 1 < s.len() + 1 ==> adjacent(#[trigger] (seq![p] + s)[i], (seq![p] + s)[i + 1]),
{
    let g = seq![p] + s;
    assert forall|i: int| 0 <= i < g.len() implies #[trigger] g[i] == (if i == 0 {
        p
    } else {
        s[i - 1]
    }) by {}
    assert forall|i: int, j: int|
        0 <= i < g.len() && 0 <= j < g.len() && i != j implies g[i] != g[j] by {
        if i == 0 {
            if g[0] == g[j] {
                assert(s[j - 1] == p);
                assert(s.contains(p));
            }
        } else if j == 0 {
            if g[0] == g[i] {
                assert(s[i - 1] == p);
                assert(s.contains(p));
            }
        } else {
            assert(s[i - 1] != s[j - 1]);
        }
    }
    assert forall|i: int| 0 <= i && i + 1 < g.len() implies adjacent(
        #[trigger] g[i],
        g[i + 1],
    ) by {
        if i == 0 {
            assert(g[0] == p && g[1] == s[0]);
        } else {
            assert(g[i] == s[i - 1] && g[i + 1] == s[i]);
            assert(adjacent(s[i - 1], s[i]));
        }
    }
}

/// Law: a `w x h` arena has only `w * h` cells, so a sequence of pairwise
/// distinct in-bounds points can never be longer than that.
pub proof fn lemma_distinct_points_fit(s: Seq<Point>, w: int, h: int)
    requires
        1 <= w,
        1 <= h,
        s.no_duplicates(),
        forall|i: int| 0 <= i < s.len() ==> in_bounds(#[trigger] s[i], w, h),
    ensures
        s.len() <= w * h,
{
    broadcast use vstd::seq_lib::seq_to_set_is_finite;

    let cell_id = |p: Point| p.y * w + p.x;
    let occ = s.to_set();
    assert forall|p: Point| occ.contains(p) implies in_bounds(p, w, h) by {
        let i = choose|i: int| 0 <= i < s.len() && s[i] == p;
        assert(in_bounds(s[i], w, h));
    }
    s.unique_seq_to_set();
    assert forall|p1: Point, p2: Point|
        occ.contains(p1) && occ.contains(p2) && #[trigger] cell_id(p1) == #[trigger] cell_id(
            p2,
        ) implies p1 == p2 by {
        assert(p1.x == p2.x && p1.y == p2.y) by (nonlinear_arith)
            requires
                p1.y * w + p1.x == p2.y * w + p2.x,
                0 <= p1.x < w,
                0 <= p2.x < w,
                0 <= p1.y < h,
                0 <= p2.y < h,
        ;
    }
    let ids = occ.map(cell_id);
    vstd::set_lib::lemma_map_size(occ, ids, cell_id);
    assert forall|k: int| ids.contains(k) implies vstd::set_lib::set_int_range(
        0,
        w * h,
    ).contains(k) by {
        let p = choose|p: Point| occ.contains(p) && cell_id(p) == k;
        assert(0 <= p.y * w + p.x < w * h) by (nonlinear_arith)
            requires
                0 <= p.x < w,
                0 <= p.y < h,
        ;
    }
    vstd::set_lib::lemma_int_range(0, w * h);
    vstd::set_lib::lemma_len_subset(ids, vstd::set_lib::set_int_range(0, w * h));
}

} // verus!
