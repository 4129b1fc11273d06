//! The pathfinder: a search over the tiles of the world that yields the
//! waypoints from one tile to another, or finds that there is no way.

use vstd::prelude::*;
use vstd::set_lib::{lemma_int_range, lemma_len_subset, set_int_range};

verus! {

/// One waypoint: a tile of the world.
#[derive(Debug, Clone, Copy, PartialEq, Eq, Structural)]
pub struct Node {
    pub x: u32,
    pub y: u32,
}

/// The grid of the world: for each tile, whether a bot can stand in it.
#[derive(Debug, Clone)]
pub struct AStar {
    pub width: u32,
    pub height: u32,
    pub grid: Vec<Vec<bool>>,
}

/// What the search knows of a tile: whether it was reached, where it stands
/// in the order of reaching, from which place in that order it was reached,
/// and in how many steps.
#[derive(Clone, Copy)]
struct Mark {
    seen: bool,
    pos: usize,
    from: usize,
    cost: usize,
}

spec fn cost_at(marks: Seq<Vec<Mark>>, queue: Seq<(u32, u32)>, k: int) -> int {
    mark_at(marks, tile(queue, k).0, tile(queue, k).1).cost as int
}

/// Whether two tiles share a side.
pub open spec fn adjacent(a: (int, int), b: (int, int)) -> bool {
    ||| (a.0 == b.0 && (a.1 == b.1 + 1 || b.1 == a.1 + 1))
    ||| (a.1 == b.1 && (a.0 == b.0 + 1 || b.0 == a.0 + 1))
}

/// The tiles of a sequence of waypoints.
pub open spec fn cells(path: Seq<Node>) -> Seq<(int, int)> {
    Seq::new(path.len(), |i: int| (path[i].x as int, path[i].y as int))
}

spec fn mark_at(marks: Seq<Vec<Mark>>, x: int, y: int) -> Mark {
    marks[y]@[x]
}

spec fn back_step(tiles: Seq<(int, int)>, i: int) -> bool {
    adjacent(tiles[i + 1], tiles[i])
}

spec fn tile(queue: Seq<(u32, u32)>, k: int) -> (int, int) {
    (queue[k].0 as int, queue[k].1 as int)
}

impl AStar {
    /// The grid has `height` rows of `width` tiles.
    pub open spec fn wf(&self) -> bool {
        &&& self.grid@.len() == self.height
        &&& forall|y: int| 0 <= y < self.height ==> (#[trigger] self.grid@[y])@.len() == self.width
    }

    /// Whether the tile lies inside the grid.
    pub open spec fn inside(&self, c: (int, int)) -> bool {
        0 <= c.0 < self.width && 0 <= c.1 < self.height
    }

    /// Whether the tile lies inside the grid and a bot can stand in it.
    pub open spec fn walkable(&self, c: (int, int)) -> bool {
        self.inside(c) && self.grid@[c.1]@[c.0]
    }

    /// Whether `path` leads from `start` tile by tile: each waypoint can be
    /// stood in and shares a side with the one before it, the first with
    /// `start`.
    pub open spec fn is_chain(&self, start: (int, int), path: Seq<(int, int)>) -> bool {
        forall|i: int| 0 <= i < path.len() ==> #[trigger] self.is_step(start, path, i)
    }

    /// Whether the waypoint at `i` can be stood in and shares a side with the
    /// one before it, the first with `start`.
    pub open spec fn is_step(&self, start: (int, int), path: Seq<(int, int)>, i: int) -> bool {
        self.walkable(path[i]) && adjacent(
            if i == 0 {
                start
            } else {
                path[i - 1]
            },
            path[i],
        )
    }

    /// Whether `path` is a way from `start` to `goal`: a chain from `start`
    /// whose last waypoint is `goal`. The way from a tile to itself is empty.
    pub open spec fn is_path(&self, start: (int, int), goal: (int, int), path: Seq<(int, int)>) -> bool {
        &&& self.inside(start)
        &&& self.is_chain(start, path)
        &&& if path.len() == 0 {
            start == goal
        } else {
            path.last() == goal
        }
    }

    #[verifier::opaque]
    spec fn searching(&self, marks: Seq<Vec<Mark>>, queue: Seq<(u32, u32)>, head: int) -> bool {
        &&& self.wf()
        &&& marks.len() == self.height
        &&& forall|y: int| 0 <= y < self.height ==> (#[trigger] marks[y])@.len() == self.width
        &&& 0 <= head <= queue.len()
        &&& queue.len() >= 1
        &&& forall|k: int|
            0 <= k < queue.len() ==> {
                let c = #[trigger] tile(queue, k);
                &&& self.inside(c)
                &&& mark_at(marks, c.0, c.1).seen
                &&& mark_at(marks, c.0, c.1).pos == k
                &&& mark_at(marks, c.0, c.1).cost <= k
                &&& k == 0 ==> mark_at(marks, c.0, c.1).cost == 0
                &&& k >= 1 ==> {
                    let f = mark_at(marks, c.0, c.1).from;
                    &&& f < k
                    &&& adjacent(tile(queue, f as int), c)
                    &&& self.walkable(c)
                    &&& mark_at(marks, c.0, c.1).cost == cost_at(marks, queue, f as int) + 1
                }
            }
        &&& forall|i: int, j: int|
            #![trigger cost_at(marks, queue, i), cost_at(marks, queue, j)]
            0 <= i <= j < queue.len() ==> cost_at(marks, queue, i) <= cost_at(marks, queue, j)
        &&& forall|j: int|
            0 <= j < queue.len() && head < queue.len() ==> #[trigger] cost_at(marks, queue, j)
                <= cost_at(marks, queue, head) + 1
        &&& forall|x: int, y: int|
            0 <= x < self.width && 0 <= y < self.height && (#[trigger] mark_at(marks, x, y)).seen ==> {
                &&& mark_at(marks, x, y).pos < queue.len()
                &&& tile(queue, mark_at(marks, x, y).pos as int) == (x, y)
            }
        &&& forall|k: int, x: int, y: int|
            0 <= k < head && adjacent(#[trigger] tile(queue, k), (x, y)) && self.walkable((x, y))
                ==> (#[trigger] mark_at(marks, x, y)).seen && mark_at(marks, x, y).cost
                <= cost_at(marks, queue, k) + 1
    }

    /// A grid of the given size in which a bot can stand in every tile.
    pub fn new(width: u32, height: u32) -> (r: AStar)
        ensures
            r.wf(),
            r.width == width,
            r.height == height,
            forall|x: int, y: int| 0 <= x < width && 0 <= y < height ==> r.walkable((x, y)),
    {
        let mut grid: Vec<Vec<bool>> = Vec::new();
        let mut y: u32 = 0;
        while y < height
            invariant
                y <= height,
                grid@.len() == y,
                forall|j: int| 0 <= j < y ==> (#[trigger] grid@[j])@.len() == width,
                forall|i: int, j: int| 0 <= i < width && 0 <= j < y ==> grid@[j]@[i],
            decreases height - y,
        {
            let mut row: Vec<bool> = Vec::new();
            let mut x: u32 = 0;
            while x < width
                invariant
                    x <= width,
                    row@.len() == x,
                    forall|i: int| 0 <= i < x ==> row@[i],
                decreases width - x,
            {
                row.push(true);
                x += 1;
            }
            grid.push(row);
            y += 1;
        }
        AStar { width, height, grid }
    }

    /// Sets whether a bot can stand in the tile at `(x, y)`. A tile outside
    /// the grid is left alone.
    pub fn set_walkable(&mut self, x: u32, y: u32, walkable: bool)
        requires
            old(self).wf(),
        ensures
            final(self).wf(),
            final(self).width == old(self).width,
            final(self).height == old(self).height,
            old(self).inside((x as int, y as int)) ==> final(self).walkable((x as int, y as int))
                == walkable,
            forall|c: (int, int)|
                c != (x as int, y as int) ==> final(self).walkable(c) == old(self).walkable(c),
            !old(self).inside((x as int, y as int)) ==> final(self).grid == old(self).grid,
    {
        if x < self.width && y < self.height {
            self.grid[y as usize][x as usize] = walkable;
        }
    }

    /// Whether a bot can stand in the tile at `(x, y)`.
    pub fn can_walk(&self, x: u32, y: u32) -> (r: bool)
        requires
            self.wf(),
        ensures
            r == self.walkable((x as int, y as int)),
    {
        x < self.width && y < self.height && self.grid[y as usize][x as usize]
    }

    fn blank_marks(&self) -> (marks: Vec<Vec<Mark>>)
        requires
            self.wf(),
        ensures
            marks@.len() == self.height,
            forall|y: int| 0 <= y < self.height ==> (#[trigger] marks@[y])@.len() == self.width,
            forall|x: int, y: int|
                0 <= x < self.width && 0 <= y < self.height ==> !(#[trigger] mark_at(
                    marks@,
                    x,
                    y,
                )).seen,
    {
        let mut marks: Vec<Vec<Mark>> = Vec::new();
        let mut y: u32 = 0;
        while y < self.height
            invariant
                y <= self.height,
                marks@.len() == y,
                forall|j: int| 0 <= j < y ==> (#[trigger] marks@[j])@.len() == self.width,
                forall|i: int, j: int|
                    0 <= i < self.width && 0 <= j < y ==> !(#[trigger] mark_at(marks@, i, j)).seen,
            decreases self.height - y,
        {
            let mut row: Vec<Mark> = Vec::new();
            let mut x: u32 = 0;
            while x < self.width
                invariant
                    x <= self.width,
                    row@.len() == x,
                    forall|i: int| 0 <= i < x ==> !row@[i].seen,
                decreases self.width - x,
            {
                row.push(Mark { seen: false, pos: 0, from: 0, cost: 0 });
                x += 1;
            }
            let ghost before = marks@;
            marks.push(row);
            proof {
                assert forall|i: int, j: int| 0 <= i < self.width && 0 <= j < y + 1 implies !(
                #[trigger] mark_at(marks@, i, j)).seen by {
                    if j < y {
                        assert(marks@[j] == before[j]);
                        assert(!mark_at(before, i, j).seen);
                    }
                }
            }
            y += 1;
        }
        marks
    }

    /// Reaches the tile `(x, y)` from the tile that stands at `head` in the
    /// order, unless it was reached before or cannot be stood in.
    fn visit(&self, marks: &mut Vec<Vec<Mark>>, queue: &mut Vec<(u32, u32)>, head: usize, x: u32, y: u32)
        requires
            self.searching(old(marks)@, old(queue)@, head as int),
            head < old(queue)@.len(),
            self.inside((x as int, y as int)),
            adjacent(tile(old(queue)@, head as int), (x as int, y as int)),
        ensures
            self.searching(final(marks)@, final(queue)@, head as int),
            final(queue)@.len() >= old(queue)@.len(),
            final(queue)@.subrange(0, old(queue)@.len() as int) == old(queue)@,
            forall|i: int, j: int|
                0 <= i < self.width && 0 <= j < self.height && (#[trigger] mark_at(
                    old(marks)@,
                    i,
                    j,
                )).seen ==> mark_at(final(marks)@, i, j) == mark_at(old(marks)@, i, j),
            self.walkable((x as int, y as int)) ==> mark_at(final(marks)@, x as int, y as int).seen,
    {
        proof {
            reveal(AStar::searching);
        }
        if self.grid[y as usize][x as usize] && !marks[y as usize][x as usize].seen {
            let pos: usize = queue.len();
            let (hx, hy) = queue[head];
            assert(tile(queue@, head as int) == (hx as int, hy as int));
            let cost: usize = marks[hy as usize][hx as usize].cost + 1;
            marks[y as usize][x as usize] = Mark { seen: true, pos, from: head, cost };
            queue.push((x, y));
            proof {
                let q0 = old(queue)@;
                let q1 = queue@;
                let m0 = old(marks)@;
                let m1 = marks@;
                assert(q1.subrange(0, q0.len() as int) =~= q0);
                assert forall|i: int, j: int|
                    0 <= i < self.width && 0 <= j < self.height implies #[trigger] mark_at(m1, i, j)
                    == (if (i, j) == (x as int, y as int) {
                    Mark { seen: true, pos, from: head, cost }
                } else {
                    mark_at(m0, i, j)
                }) by {}
                assert forall|k: int| 0 <= k < q0.len() implies #[trigger] cost_at(m1, q1, k)
                    == cost_at(m0, q0, k) by {
                    assert(tile(q1, k) == tile(q0, k));
                    let c = tile(q0, k);
                    assert(mark_at(m0, c.0, c.1).seen);
                }
                assert(cost_at(m1, q1, q0.len() as int) == cost_at(m0, q0, head as int) + 1);
                assert forall|k: int| 0 <= k < q1.len() implies ({
                    let c = #[trigger] tile(q1, k);
                    &&& self.inside(c)
                    &&& mark_at(m1, c.0, c.1).seen
                    &&& mark_at(m1, c.0, c.1).pos == k
                    &&& mark_at(m1, c.0, c.1).cost <= k
                    &&& k == 0 ==> mark_at(m1, c.0, c.1).cost == 0
                    &&& k >= 1 ==> {
                        let f = mark_at(m1, c.0, c.1).from;
                        &&& f < k
                        &&& adjacent(tile(q1, f as int), c)
                        &&& self.walkable(c)
                        &&& mark_at(m1, c.0, c.1).cost == cost_at(m1, q1, f as int) + 1
                    }
                }) by {
                    if k < q0.len() {
                        assert(tile(q1, k) == tile(q0, k));
                        let c = tile(q0, k);
                        assert(mark_at(m0, c.0, c.1).seen);
                        assert(cost_at(m1, q1, k) == cost_at(m0, q0, k));
                        if k >= 1 {
                            let f = mark_at(m0, c.0, c.1).from;
                            assert(tile(q1, f as int) == tile(q0, f as int));
                            assert(cost_at(m1, q1, f as int) == cost_at(m0, q0, f as int));
                        }
                    } else {
                        assert(tile(q1, head as int) == tile(q0, head as int));
                        assert(cost_at(m1, q1, head as int) == cost_at(m0, q0, head as int));
                        assert(cost_at(m0, q0, head as int) <= head);
                    }
                }
                assert forall|i: int, j: int|
                    #![trigger cost_at(m1, q1, i), cost_at(m1, q1, j)]
                    0 <= i <= j < q1.len() implies cost_at(m1, q1, i) <= cost_at(m1, q1, j) by {
                    if j < q0.len() {
                        assert(cost_at(m0, q0, i) <= cost_at(m0, q0, j));
                    } else if i < q0.len() {
                        assert(cost_at(m0, q0, i) <= cost_at(m0, q0, head as int) + 1);
                    }
                }
                assert forall|j: int| 0 <= j < q1.len() && head < q1.len() implies #[trigger] cost_at(
                    m1,
                    q1,
                    j,
                ) <= cost_at(m1, q1, head as int) + 1 by {
                    assert(cost_at(m1, q1, head as int) == cost_at(m0, q0, head as int));
                    if j < q0.len() {
                        assert(cost_at(m0, q0, j) <= cost_at(m0, q0, head as int) + 1);
                    }
                }
                assert forall|i: int, j: int|
                    0 <= i < self.width && 0 <= j < self.height && (#[trigger] mark_at(
                        m1,
                        i,
                        j,
                    )).seen implies mark_at(m1, i, j).pos < q1.len() && tile(
                    q1,
                    mark_at(m1, i, j).pos as int,
                ) == (i, j) by {
                    if (i, j) != (x as int, y as int) {
                        assert(mark_at(m0, i, j).seen);
                        assert(tile(q1, mark_at(m0, i, j).pos as int) == tile(
                            q0,
                            mark_at(m0, i, j).pos as int,
                        ));
                    }
                }
                assert forall|k: int, i: int, j: int|
                    0 <= k < head && adjacent(#[trigger] tile(q1, k), (i, j)) && self.walkable(
                        (i, j),
                    ) implies (#[trigger] mark_at(m1, i, j)).seen && mark_at(m1, i, j).cost
                    <= cost_at(m1, q1, k) + 1 by {
                    assert(tile(q1, k) == tile(q0, k));
                    assert(mark_at(m0, i, j).seen);
                    assert(cost_at(m1, q1, k) == cost_at(m0, q0, k));
                }
            }
        }
    }

    /// The waypoints of a shortest way from the tile `(from_x, from_y)` to
    /// the tile `(to_x, to_y)`, the first one next to the start and the last
    /// one the goal; `None` where no way leads there.
    pub fn find_path(&self, from_x: u32, from_y: u32, to_x: u32, to_y: u32) -> (r: Option<Vec<Node>>)
        requires
            self.wf(),
        ensures
            match r {
                Some(path) => {
                    &&& self.is_path(
                        (from_x as int, from_y as int),
                        (to_x as int, to_y as int),
                        cells(path@),
                    )
                    &&& forall|p: Seq<(int, int)>|
                        self.is_path((from_x as int, from_y as int), (to_x as int, to_y as int), p)
                            ==> path@.len() <= p.len()
                },
                None => forall|p: Seq<(int, int)>|
                    !self.is_path((from_x as int, from_y as int), (to_x as int, to_y as int), p),
            },
    {
        let ghost start = (from_x as int, from_y as int);
        let ghost goal = (to_x as int, to_y as int);
        if from_x >= self.width || from_y >= self.height {
            return None;
        }
        if to_x >= self.width || to_y >= self.height {
            proof {
                assert forall|p: Seq<(int, int)>| !self.is_path(start, goal, p) by {
                    if self.is_path(start, goal, p) && p.len() > 0 {
                        assert(self.is_step(start, p, p.len() - 1));
                    }
                }
            }
            return None;
        }
        if from_x == to_x && from_y == to_y {
            let path: Vec<Node> = Vec::new();
            assert(cells(path@).len() == 0);
            return Some(path);
        }
        let mut marks = self.blank_marks();
        let mut queue: Vec<(u32, u32)> = Vec::new();
        let ghost blank = marks@;
        marks[from_y as usize][from_x as usize] = Mark { seen: true, pos: 0, from: 0, cost: 0 };
        queue.push((from_x, from_y));
        let mut head: usize = 0;
        proof {
            reveal(AStar::searching);
            assert(tile(queue@, 0) == start);
            assert forall|x: int, y: int|
                0 <= x < self.width && 0 <= y < self.height implies (#[trigger] mark_at(
                marks@,
                x,
                y,
            )).seen == ((x, y) == start) by {
                assert(!mark_at(blank, x, y).seen);
            }
            assert(self.searching(marks@, queue@, 0));
        }
        while head < queue.len()
            invariant
                self.wf(),
                self.searching(marks@, queue@, head as int),
                tile(queue@, 0) == start,
                self.inside(goal),
                !mark_at(marks@, goal.0, goal.1).seen,
                goal == (to_x as int, to_y as int),
                start != goal,
                start == (from_x as int, from_y as int),
                head <= queue@.len(),
            decreases self.width * self.height - head,
        {
            proof {
                lemma_queue_bound(self, marks@, queue@, head as int);
                lemma_in_order(self, marks@, queue@, head as int, head as int);
            }
            let (cx, cy) = queue[head];
            let ghost c = tile(queue@, head as int);
            assert(c == (cx as int, cy as int));
            if cx > 0 {
                self.visit(&mut marks, &mut queue, head, cx - 1, cy);
                assert(tile(queue@, head as int) == c);
                assert(tile(queue@, 0) == start);
            }
            let ghost m1 = marks@;
            if cx < self.width - 1 {
                self.visit(&mut marks, &mut queue, head, cx + 1, cy);
                assert(tile(queue@, head as int) == c);
                assert(tile(queue@, 0) == start);
            }
            let ghost m2 = marks@;
            if cy > 0 {
                self.visit(&mut marks, &mut queue, head, cx, cy - 1);
                assert(tile(queue@, head as int) == c);
                assert(tile(queue@, 0) == start);
            }
            let ghost m3 = marks@;
            if cy < self.height - 1 {
                self.visit(&mut marks, &mut queue, head, cx, cy + 1);
                assert(tile(queue@, head as int) == c);
                assert(tile(queue@, 0) == start);
            }
            proof {
                assert forall|x: int, y: int| adjacent(c, (x, y)) && self.walkable((x, y)) implies (
                #[trigger] mark_at(marks@, x, y)).seen by {
                    if y == c.1 && x == c.0 - 1 {
                        assert(mark_at(m1, x, y).seen);
                        assert(mark_at(m2, x, y).seen);
                        assert(mark_at(m3, x, y).seen);
                    } else if y == c.1 && x == c.0 + 1 {
                        assert(mark_at(m2, x, y).seen);
                        assert(mark_at(m3, x, y).seen);
                    } else if x == c.0 && y == c.1 - 1 {
                        assert(mark_at(m3, x, y).seen);
                    } else {
                        assert(x == c.0 && y == c.1 + 1);
                    }
                }
                if mark_at(marks@, goal.0, goal.1).seen {
                    lemma_cost_bound(self, marks@, queue@, head as int, goal);
                }
                lemma_advance(self, marks@, queue@, head as int);
            }
            head += 1;
            proof {
                lemma_in_order(self, marks@, queue@, head as int, 0);
            }
            if marks[to_y as usize][to_x as usize].seen {
                let path = self.trace(&marks, &queue, Ghost(head as int), Ghost(start), to_x, to_y);
                proof {
                    assert forall|p: Seq<(int, int)>| self.is_path(start, goal, p) implies path@.len()
                        <= p.len() by {
                        lemma_shortest(self, marks@, queue@, head as int, start, goal, p);
                    }
                }
                return Some(path);
            }
        }
        proof {
            assert forall|p: Seq<(int, int)>| !self.is_path(start, goal, p) by {
                if self.is_path(start, goal, p) {
                    assert(p.len() > 0);
                    lemma_in_order(self, marks@, queue@, head as int, 0);
                    lemma_all_seen(self, marks@, queue@, start, p, p.len() - 1);
                }
            }
        }
        None
    }

    /// Walks back from the goal to the start along the order of reaching,
    /// and returns the waypoints from the start to the goal.
    fn trace(
        &self,
        marks: &Vec<Vec<Mark>>,
        queue: &Vec<(u32, u32)>,
        Ghost(head): Ghost<int>,
        Ghost(start): Ghost<(int, int)>,
        to_x: u32,
        to_y: u32,
    ) -> (path: Vec<Node>)
        requires
            self.searching(marks@, queue@, head),
            tile(queue@, 0) == start,
            self.inside((to_x as int, to_y as int)),
            mark_at(marks@, to_x as int, to_y as int).seen,
        ensures
            self.is_path(start, (to_x as int, to_y as int), cells(path@)),
            path@.len() == mark_at(marks@, to_x as int, to_y as int).cost,
    {
        let ghost goal = (to_x as int, to_y as int);
        proof {
            lemma_position(self, marks@, queue@, head, goal);
            lemma_in_order(self, marks@, queue@, head, 0);
        }
        let mut rev: Vec<Node> = Vec::new();
        let mut cur: usize = marks[to_y as usize][to_x as usize].pos;
        while cur != 0
            invariant
                self.searching(marks@, queue@, head),
                cur < queue@.len(),
                goal == (to_x as int, to_y as int),
                rev@.len() + cost_at(marks@, queue@, cur as int) == mark_at(
                    marks@,
                    goal.0,
                    goal.1,
                ).cost,
                rev@.len() == 0 ==> tile(queue@, cur as int) == goal,
                rev@.len() > 0 ==> cells(rev@)[0] == goal && adjacent(
                    tile(queue@, cur as int),
                    cells(rev@).last(),
                ),
                forall|i: int| 0 <= i < rev@.len() ==> self.walkable(#[trigger] cells(rev@)[i]),
                forall|i: int| 0 <= i < rev@.len() - 1 ==> #[trigger] back_step(cells(rev@), i),
            decreases cur,
        {
            proof {
                lemma_in_order(self, marks@, queue@, head, cur as int);
                lemma_parent(self, marks@, queue@, head, cur as int);
            }
            let (x, y) = queue[cur];
            let ghost before = rev@;
            let ghost c = tile(queue@, cur as int);
            assert(c == (x as int, y as int));
            rev.push(Node { x, y });
            proof {
                assert(cells(rev@).last() == c);
                assert forall|i: int| 0 <= i < before.len() implies cells(rev@)[i] == cells(
                    before,
                )[i] by {}
                assert forall|i: int| 0 <= i < rev@.len() implies self.walkable(
                    #[trigger] cells(rev@)[i],
                ) by {
                    if i < before.len() {
                        assert(cells(rev@)[i] == cells(before)[i]);
                    }
                }
                assert forall|i: int| 0 <= i < rev@.len() - 1 implies #[trigger] back_step(
                    cells(rev@),
                    i,
                ) by {
                    if i + 1 < before.len() {
                        assert(back_step(cells(before), i));
                        assert(cells(rev@)[i] == cells(before)[i]);
                        assert(cells(rev@)[i + 1] == cells(before)[i + 1]);
                    } else {
                        assert(cells(rev@)[i] == cells(before)[i]);
                        assert(cells(before).last() == cells(before)[i]);
                    }
                }
            }
            cur = marks[y as usize][x as usize].from;
        }
        proof {
            lemma_parent(self, marks@, queue@, head, 0);
        }
        let n: usize = rev.len();
        let mut path: Vec<Node> = Vec::new();
        let mut i: usize = n;
        while i > 0
            invariant
                n == rev@.len(),
                i <= n,
                path@.len() == n - i,
                forall|j: int| 0 <= j < n - i ==> path@[j] == rev@[n - 1 - j],
            decreases i,
        {
            i -= 1;
            path.push(rev[i]);
        }
        proof {
            let p = cells(path@);
            let r = cells(rev@);
            assert forall|j: int| 0 <= j < p.len() implies #[trigger] self.is_step(start, p, j) by {
                assert(p[j] == r[n - 1 - j]);
                if j == 0 {
                    assert(r.last() == r[n - 1]);
                } else {
                    assert(p[j - 1] == r[n - 1 - j + 1]);
                    assert(back_step(r, n - 1 - j));
                }
            }
            if n > 0 {
                assert(p.last() == r[0]);
            }
        }
        path
    }
}

/// The tiles in the order of reaching are all different and all inside the
/// grid, so there are no more of them than the grid has tiles.
proof fn lemma_queue_bound(grid: &AStar, marks: Seq<Vec<Mark>>, queue: Seq<(u32, u32)>, head: int)
    requires
        grid.searching(marks, queue, head),
    ensures
        queue.len() <= grid.width * grid.height,
{
    reveal(AStar::searching);
    let w = grid.width as int;
    let h = grid.height as int;
    let idx = Seq::new(queue.len(), |k: int| tile(queue, k).1 * w + tile(queue, k).0);
    assert forall|i: int, j: int| 0 <= i < idx.len() && 0 <= j < idx.len() && i != j implies idx[i]
        != idx[j] by {
        let a = tile(queue, i);
        let b = tile(queue, j);
        assert(mark_at(marks, a.0, a.1).pos == i);
        assert(mark_at(marks, b.0, b.1).pos == j);
        assert(a != b);
        lemma_cell_index(w, a, b);
    }
    idx.unique_seq_to_set();
    assert(0 <= w * h) by (nonlinear_arith)
        requires
            0 <= w,
            0 <= h,
    ;
    lemma_int_range(0, w * h);
    assert forall|v: int| idx.to_set().contains(v) implies set_int_range(0, w * h).contains(v) by {
        let k = choose|k: int| 0 <= k < idx.len() && idx[k] == v;
        let a = tile(queue, k);
        assert(grid.inside(a));
        lemma_cell_range(w, h, a);
    }
    lemma_len_subset(idx.to_set(), set_int_range(0, w * h));
}

/// Each tile in the order of reaching lies inside the grid and was reached.
proof fn lemma_in_order(grid: &AStar, marks: Seq<Vec<Mark>>, queue: Seq<(u32, u32)>, head: int, k: int)
    requires
        grid.searching(marks, queue, head),
        0 <= k < queue.len(),
    ensures
        grid.inside(tile(queue, k)),
        mark_at(marks, tile(queue, k).0, tile(queue, k).1).seen,
        marks.len() == grid.height,
        forall|y: int| 0 <= y < grid.height ==> (#[trigger] marks[y])@.len() == grid.width,
{
    reveal(AStar::searching);
}

/// Where a reached tile stands in the order of reaching.
proof fn lemma_position(
    grid: &AStar,
    marks: Seq<Vec<Mark>>,
    queue: Seq<(u32, u32)>,
    head: int,
    c: (int, int),
)
    requires
        grid.searching(marks, queue, head),
        grid.inside(c),
        mark_at(marks, c.0, c.1).seen,
    ensures
        mark_at(marks, c.0, c.1).pos < queue.len(),
        tile(queue, mark_at(marks, c.0, c.1).pos as int) == c,
{
    reveal(AStar::searching);
}

/// From where the tile at `k` in the order of reaching was reached: from a
/// tile that stands earlier in the order, shares a side with it and took
/// one step less. The first tile took no step.
proof fn lemma_parent(grid: &AStar, marks: Seq<Vec<Mark>>, queue: Seq<(u32, u32)>, head: int, k: int)
    requires
        grid.searching(marks, queue, head),
        0 <= k < queue.len(),
    ensures
        k == 0 ==> cost_at(marks, queue, 0) == 0,
        k >= 1 ==> {
            let c = tile(queue, k);
            let f = mark_at(marks, c.0, c.1).from;
            &&& f < k
            &&& adjacent(tile(queue, f as int), c)
            &&& grid.walkable(c)
            &&& cost_at(marks, queue, k) == cost_at(marks, queue, f as int) + 1
        },
{
    reveal(AStar::searching);
}

/// When every neighbour of the tile at `head` that can be stood in was
/// reached, the search is done with that tile.
proof fn lemma_advance(grid: &AStar, marks: Seq<Vec<Mark>>, queue: Seq<(u32, u32)>, head: int)
    requires
        grid.searching(marks, queue, head),
        head < queue.len(),
        forall|x: int, y: int|
            adjacent(tile(queue, head), (x, y)) && grid.walkable((x, y)) ==> (#[trigger] mark_at(
                marks,
                x,
                y,
            )).seen,
    ensures
        grid.searching(marks, queue, head + 1),
{
    reveal(AStar::searching);
    assert forall|j: int| 0 <= j < queue.len() && head + 1 < queue.len() implies #[trigger] cost_at(
        marks,
        queue,
        j,
    ) <= cost_at(marks, queue, head + 1) + 1 by {
        assert(cost_at(marks, queue, j) <= cost_at(marks, queue, head) + 1);
        assert(cost_at(marks, queue, head) <= cost_at(marks, queue, head + 1));
    }
    assert forall|k: int, x: int, y: int|
        0 <= k < head + 1 && adjacent(#[trigger] tile(queue, k), (x, y)) && grid.walkable(
            (x, y),
        ) implies (#[trigger] mark_at(marks, x, y)).seen && mark_at(marks, x, y).cost <= cost_at(
        marks,
        queue,
        k,
    ) + 1 by {
        if k == head {
            let p = mark_at(marks, x, y).pos as int;
            assert(tile(queue, p) == (x, y));
            assert(cost_at(marks, queue, p) <= cost_at(marks, queue, head) + 1);
        }
    }
}

/// No tile in the order of reaching took more than one step more than the
/// tile at `head`.
proof fn lemma_cost_bound(
    grid: &AStar,
    marks: Seq<Vec<Mark>>,
    queue: Seq<(u32, u32)>,
    head: int,
    c: (int, int),
)
    requires
        grid.searching(marks, queue, head),
        head < queue.len(),
        grid.inside(c),
        mark_at(marks, c.0, c.1).seen,
    ensures
        mark_at(marks, c.0, c.1).cost <= cost_at(marks, queue, head) + 1,
{
    reveal(AStar::searching);
    let p = mark_at(marks, c.0, c.1).pos as int;
    assert(tile(queue, p) == c);
    assert(cost_at(marks, queue, p) <= cost_at(marks, queue, head) + 1);
}

/// Along a chain from the start, as long as it is shorter than the goal's
/// number of steps, each tile was reached in no more steps than the chain
/// takes to it.
proof fn lemma_cost_along(
    grid: &AStar,
    marks: Seq<Vec<Mark>>,
    queue: Seq<(u32, u32)>,
    head: int,
    start: (int, int),
    limit: int,
    path: Seq<(int, int)>,
    i: int,
)
    requires
        grid.searching(marks, queue, head),
        head >= 1,
        tile(queue, 0) == start,
        limit <= cost_at(marks, queue, head - 1) + 1,
        grid.is_chain(start, path),
        0 <= i < path.len(),
        i + 1 < limit,
    ensures
        mark_at(marks, path[i].0, path[i].1).seen,
        mark_at(marks, path[i].0, path[i].1).cost <= i + 1,
    decreases i,
{
    reveal(AStar::searching);
    assert(grid.is_step(start, path, i));
    if i == 0 {
        assert(adjacent(tile(queue, 0), path[0]));
        assert(cost_at(marks, queue, 0) == 0);
    } else {
        lemma_cost_along(grid, marks, queue, head, start, limit, path, i - 1);
        let before = path[i - 1];
        assert(grid.is_step(start, path, i - 1));
        let p = mark_at(marks, before.0, before.1).pos as int;
        assert(tile(queue, p) == before);
        assert(cost_at(marks, queue, p) <= i);
        if p >= head {
            assert(cost_at(marks, queue, head - 1) <= cost_at(marks, queue, p));
        }
        assert(adjacent(tile(queue, p), path[i]));
    }
}

/// No way to the goal is shorter than the number of steps in which the
/// search reached it.
proof fn lemma_shortest(
    grid: &AStar,
    marks: Seq<Vec<Mark>>,
    queue: Seq<(u32, u32)>,
    head: int,
    start: (int, int),
    goal: (int, int),
    path: Seq<(int, int)>,
)
    requires
        grid.searching(marks, queue, head),
        head >= 1,
        tile(queue, 0) == start,
        start != goal,
        mark_at(marks, goal.0, goal.1).cost <= cost_at(marks, queue, head - 1) + 1,
        grid.is_path(start, goal, path),
    ensures
        mark_at(marks, goal.0, goal.1).cost <= path.len(),
{
    let limit = mark_at(marks, goal.0, goal.1).cost as int;
    if path.len() < limit {
        lemma_cost_along(grid, marks, queue, head, start, limit, path, path.len() - 1);
    }
}

proof fn lemma_cell_index(w: int, a: (int, int), b: (int, int))
    requires
        0 <= a.0 < w,
        0 <= b.0 < w,
        0 <= a.1,
        0 <= b.1,
        a != b,
    ensures
        a.1 * w + a.0 != b.1 * w + b.0,
{
    if a.1 < b.1 {
        assert(a.1 * w + w <= b.1 * w) by (nonlinear_arith)
            requires
                a.1 + 1 <= b.1,
                w > 0,
        ;
    } else if b.1 < a.1 {
        assert(b.1 * w + w <= a.1 * w) by (nonlinear_arith)
            requires
                b.1 + 1 <= a.1,
                w > 0,
        ;
    }
}

proof fn lemma_cell_range(w: int, h: int, a: (int, int))
    requires
        0 <= a.0 < w,
        0 <= a.1 < h,
    ensures
        0 <= a.1 * w + a.0 < w * h,
{
    assert(a.1 * w + w <= h * w && a.1 * w >= 0 && h * w == w * h) by (nonlinear_arith)
        requires
            0 <= a.1,
            a.1 + 1 <= h,
            w > 0,
    ;
}

/// Once every reached tile has had its neighbours reached, every tile of a
/// chain from a reached tile is reached.
proof fn lemma_all_seen(
    grid: &AStar,
    marks: Seq<Vec<Mark>>,
    queue: Seq<(u32, u32)>,
    start: (int, int),
    path: Seq<(int, int)>,
    i: int,
)
    requires
        grid.searching(marks, queue, queue.len() as int),
        grid.inside(start),
        mark_at(marks, start.0, start.1).seen,
        grid.is_chain(start, path),
        0 <= i < path.len(),
    ensures
        mark_at(marks, path[i].0, path[i].1).seen,
    decreases i,
{
    reveal(AStar::searching);
    let before = if i == 0 {
        start
    } else {
        path[i - 1]
    };
    if i > 0 {
        lemma_all_seen(grid, marks, queue, start, path, i - 1);
        assert(grid.is_step(start, path, i - 1));
    }
    assert(grid.is_step(start, path, i));
    let k = mark_at(marks, before.0, before.1).pos as int;
    assert(tile(queue, k) == before);
}

} // verus!
