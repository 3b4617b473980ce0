//! Routing over the walkable network: a breadth-first search, verified to
//! return a shortest route and to report "no route" exactly when none
//! exists within the step budget.

use vstd::prelude::*;
use crate::coaster::manhattan_adjacent;
use crate::state::grid_wf;
use crate::tile::Tile;
use crate::tile::spec_is_walkable;

verus! {

/// The point lies inside a square grid of side `n`.
pub open spec fn in_grid(n: int, p: (i32, i32)) -> bool {
    0 <= p.0 < n && 0 <= p.1 < n
}

/// The row-major cell number of a point.
pub open spec fn cell_idx(n: int, p: (i32, i32)) -> int {
    p.1 * n + p.0
}

/// The point is inside the grid and visitors may stand on its tile.
pub open spec fn walk_ok(grid: Seq<Vec<Tile>>, n: int, p: (i32, i32)) -> bool {
    in_grid(n, p) && spec_is_walkable(grid[p.1 as int]@[p.0 as int])
}

/// A route from `a` to `b`: it starts at `a`, ends at `b`, every step
/// moves to a Manhattan-adjacent cell, and every cell after the first is
/// walkable. Its hop count is its length less one.
pub open spec fn is_route(
    grid: Seq<Vec<Tile>>,
    n: int,
    s: Seq<(i32, i32)>,
    a: (i32, i32),
    b: (i32, i32),
) -> bool {
    &&& s.len() >= 1
    &&& s[0] == a
    &&& s[s.len() - 1] == b
    &&& forall|i: int|
        1 <= i < s.len() ==> manhattan_adjacent(s[i - 1], #[trigger] s[i]) && walk_ok(grid, n, s[i])
}

/// Cell numbers are distinct for distinct in-grid points.
proof fn lemma_cell_idx_injective(n: int, p: (i32, i32), q: (i32, i32))
    requires
        n >= 1,
        in_grid(n, p),
        in_grid(n, q),
        cell_idx(n, p) == cell_idx(n, q),
    ensures
        p == q,
{
    vstd::arithmetic::div_mod::lemma_fundamental_div_mod_converse_mod(
        cell_idx(n, p),
        n,
        p.1 as int,
        p.0 as int,
    );
    vstd::arithmetic::div_mod::lemma_fundamental_div_mod_converse_mod(
        cell_idx(n, q),
        n,
        q.1 as int,
        q.0 as int,
    );
    assert(p.0 == q.0);
    assert(p.1 * n == q.1 * n);
    assert(p.1 == q.1) by (nonlinear_arith)
        requires
            p.1 * n == q.1 * n,
            n >= 1,
    {}
    assert(p == (p.0, p.1));
    assert(q == (q.0, q.1));
}

/// Cell numbers of in-grid points lie below `n * n`.
proof fn lemma_cell_idx_range(n: int, p: (i32, i32))
    requires
        n >= 1,
        in_grid(n, p),
    ensures
        0 <= cell_idx(n, p) < n * n,
{
    assert(0 <= p.1 * n + p.0 < n * n) by (nonlinear_arith)
        requires
            0 <= p.0 < n,
            0 <= p.1 < n,
    {}
}

/// A duplicate-free sequence of in-grid points is no longer than the grid
/// has cells.
proof fn lemma_queue_len_bound(n: int, queue: Seq<(i32, i32)>)
    requires
        n >= 1,
        forall|k: int| 0 <= k < queue.len() ==> in_grid(n, #[trigger] queue[k]),
        forall|k1: int, k2: int| 0 <= k1 < k2 < queue.len() ==> queue[k1] != queue[k2],
    ensures
        queue.len() <= n * n,
{
    let idxs = queue.map_values(|p: (i32, i32)| cell_idx(n, p));
    assert forall|k1: int, k2: int| 0 <= k1 < k2 < idxs.len() implies idxs[k1] != idxs[k2] by {
        if idxs[k1] == idxs[k2] {
            lemma_cell_idx_injective(n, queue[k1], queue[k2]);
        }
    }
    assert(idxs.no_duplicates());
    idxs.unique_seq_to_set();
    let range = vstd::set_lib::set_int_range(0, n * n);
    vstd::set_lib::lemma_int_range(0, n * n);
    assert forall|c: int| idxs.to_set().contains(c) implies range.contains(c) by {
        let k = choose|k: int| 0 <= k < idxs.len() && idxs[k] == c;
        lemma_cell_idx_range(n, queue[k]);
    }
    assert(idxs.to_set().subset_of(range));
    vstd::set_lib::lemma_len_subset(idxs.to_set(), range);
}

/// What holds of each visited cell `p` during the search: its recorded
/// distance is within budget, only the start has distance zero, a cell at
/// positive distance has a visited parent one step closer whose record
/// witnesses a route, and every visited cell is in the queue.
pub open spec fn bfs_node_inv(
    grid: Seq<Vec<Tile>>,
    n: int,
    start: (i32, i32),
    max_steps: int,
    visited: Seq<bool>,
    dist: Seq<usize>,
    parent: Seq<(i32, i32)>,
    queue: Seq<(i32, i32)>,
    p: (i32, i32),
) -> bool {
    let c = cell_idx(n, p);
    &&& dist[c] <= max_steps
    &&& (dist[c] == 0 ==> p == start)
    &&& (dist[c] > 0 ==> {
        let pp = parent[c];
        &&& in_grid(n, pp)
        &&& visited[cell_idx(n, pp)]
        &&& dist[cell_idx(n, pp)] == dist[c] - 1
        &&& manhattan_adjacent(pp, p)
        &&& walk_ok(grid, n, p)
    })
    &&& exists|k: int| 0 <= k < queue.len() && queue[k] == p
}

/// A dequeued cell has been expanded: unless its distance already exhausts
/// the budget, every walkable neighbor is visited at a distance at most
/// one greater.
pub open spec fn bfs_expanded(
    grid: Seq<Vec<Tile>>,
    n: int,
    max_steps: int,
    visited: Seq<bool>,
    dist: Seq<usize>,
    queue: Seq<(i32, i32)>,
    k: int,
) -> bool {
    dist[cell_idx(n, queue[k])] < max_steps ==> forall|m: (i32, i32)|
        walk_ok(grid, n, m) && manhattan_adjacent(queue[k], m) ==> visited[cell_idx(n, m)]
            && dist[#[trigger] cell_idx(n, m)] <= dist[cell_idx(n, queue[k])] + 1
}

/// The search invariant: well-formed arrays; the start visited at distance
/// zero; every visited cell satisfying its node invariant; the queue made
/// of distinct visited in-grid cells in non-decreasing distance order,
/// never more than one above the front; and every dequeued cell, none of
/// which is the target, expanded.
pub open spec fn bfs_inv(
    grid: Seq<Vec<Tile>>,
    n: int,
    start: (i32, i32),
    target: (i32, i32),
    max_steps: int,
    visited: Seq<bool>,
    dist: Seq<usize>,
    parent: Seq<(i32, i32)>,
    queue: Seq<(i32, i32)>,
    head: int,
) -> bool {
    &&& 1 <= n <= 0x10000
    &&& grid_wf(grid, n)
    &&& in_grid(n, start)
    &&& visited.len() == n * n
    &&& dist.len() == n * n
    &&& parent.len() == n * n
    &&& 0 <= head <= queue.len()
    &&& visited[cell_idx(n, start)]
    &&& dist[cell_idx(n, start)] == 0
    &&& forall|p: (i32, i32)|
        in_grid(n, p) && #[trigger] visited[cell_idx(n, p)] ==> bfs_node_inv(
            grid,
            n,
            start,
            max_steps,
            visited,
            dist,
            parent,
            queue,
            p,
        )
    &&& forall|k: int|
        0 <= k < queue.len() ==> in_grid(n, #[trigger] queue[k]) && visited[cell_idx(
            n,
            queue[k],
        )]
    &&& forall|k1: int, k2: int|
        0 <= k1 <= k2 < queue.len() ==> dist[cell_idx(n, #[trigger] queue[k1])] <= dist[cell_idx(
            n,
            #[trigger] queue[k2],
        )]
    &&& (head < queue.len() ==> forall|k: int|
        0 <= k < queue.len() ==> dist[cell_idx(n, #[trigger] queue[k])] <= dist[cell_idx(
            n,
            queue[head],
        )] + 1)
    &&& forall|k1: int, k2: int| 0 <= k1 < k2 < queue.len() ==> queue[k1] != queue[k2]
    &&& forall|k: int|
        0 <= k < head ==> #[trigger] queue[k] != target && bfs_expanded(
            grid,
            n,
            max_steps,
            visited,
            dist,
            queue,
            k,
        )
}

/// Any route out of the start is at least as long as the search's records
/// say: a visited endpoint is no closer than its recorded distance; an
/// unvisited endpoint is no closer than the queue's front, or out of
/// budget altogether once the queue is exhausted.
proof fn lemma_route_bound(
    grid: Seq<Vec<Tile>>,
    n: int,
    start: (i32, i32),
    target: (i32, i32),
    max_steps: int,
    visited: Seq<bool>,
    dist: Seq<usize>,
    parent: Seq<(i32, i32)>,
    queue: Seq<(i32, i32)>,
    head: int,
    s: Seq<(i32, i32)>,
    x: (i32, i32),
)
    requires
        bfs_inv(grid, n, start, target, max_steps, visited, dist, parent, queue, head),
        is_route(grid, n, s, start, x),
    ensures
        in_grid(n, x) && visited[cell_idx(n, x)] ==> s.len() - 1 >= dist[cell_idx(n, x)],
        !(in_grid(n, x) && visited[cell_idx(n, x)]) && head < queue.len() ==> s.len() - 1
            >= dist[cell_idx(n, queue[head])],
        !(in_grid(n, x) && visited[cell_idx(n, x)]) && head == queue.len() ==> s.len() - 1
            >= max_steps + 1,
    decreases s.len(),
{
    if s.len() == 1 {
        assert(x == start);
    } else {
        let p = s[s.len() - 2];
        let s2 = s.drop_last();
        assert(s2[0] == start);
        assert(s2[s2.len() - 1] == p);
        assert forall|i: int|
            1 <= i < s2.len() implies manhattan_adjacent(s2[i - 1], #[trigger] s2[i]) && walk_ok(
            grid,
            n,
            s2[i],
        ) by {
            assert(manhattan_adjacent(s[i - 1], s[i]) && walk_ok(grid, n, s[i]));
        }
        lemma_route_bound(
            grid,
            n,
            start,
            target,
            max_steps,
            visited,
            dist,
            parent,
            queue,
            head,
            s2,
            p,
        );
        assert(manhattan_adjacent(s[s.len() - 2], s[s.len() - 1]) && walk_ok(
            grid,
            n,
            s[s.len() - 1],
        ));
        assert(in_grid(n, x));
        let cx = cell_idx(n, x);
        // `p` is in the grid: it is either the start or an interior cell of
        // the route, which is walkable.
        if s.len() == 2 {
            assert(p == start);
        } else {
            assert(manhattan_adjacent(s[s.len() - 3], s[s.len() - 2]) && walk_ok(
                grid,
                n,
                s[s.len() - 2],
            ));
        }
        assert(in_grid(n, p));
        let cp = cell_idx(n, p);
        if visited[cx] {
            // The endpoint is visited: show the route has at least its
            // recorded distance in hops.
            assert(bfs_node_inv(grid, n, start, max_steps, visited, dist, parent, queue, x));
            let kx = choose|k: int| 0 <= k < queue.len() && queue[k] == x;
            if visited[cp] {
                assert(bfs_node_inv(grid, n, start, max_steps, visited, dist, parent, queue, p));
                let kp = choose|k: int| 0 <= k < queue.len() && queue[k] == p;
                if kp < head {
                    if dist[cp] < max_steps {
                        assert(bfs_expanded(grid, n, max_steps, visited, dist, queue, kp));
                        assert(dist[cx] <= dist[cp] + 1);
                    } else {
                        assert(dist[cx] <= max_steps <= dist[cp]);
                    }
                } else {
                    assert(head < queue.len());
                    assert(dist[cell_idx(n, queue[head])] <= dist[cp]);
                    assert(dist[cx] <= dist[cell_idx(n, queue[head])] + 1);
                }
            } else {
                if head < queue.len() {
                    assert(s2.len() - 1 >= dist[cell_idx(n, queue[head])]);
                    assert(dist[cx] <= dist[cell_idx(n, queue[head])] + 1);
                } else {
                    assert(s2.len() - 1 >= max_steps + 1);
                    assert(dist[cx] <= max_steps);
                }
            }
        } else {
            // The endpoint is unvisited: show the route reaches at least
            // the frontier, or exceeds the budget once the queue is done.
            if visited[cp] {
                assert(bfs_node_inv(grid, n, start, max_steps, visited, dist, parent, queue, p));
                let kp = choose|k: int| 0 <= k < queue.len() && queue[k] == p;
                if kp < head {
                    // `x` is an unvisited walkable neighbor of an expanded
                    // cell, so that cell's distance exhausts the budget.
                    assert(dist[cp] >= max_steps) by {
                        if dist[cp] < max_steps {
                            assert(bfs_expanded(grid, n, max_steps, visited, dist, queue, kp));
                            assert(visited[cx]);
                        }
                    }
                    assert(s2.len() - 1 >= dist[cp]);
                    if head < queue.len() {
                        assert(dist[cell_idx(n, queue[head])] <= max_steps);
                    }
                } else {
                    assert(head < queue.len());
                    assert(dist[cell_idx(n, queue[head])] <= dist[cp]);
                    assert(s2.len() - 1 >= dist[cp]);
                }
            } else {
                // Both unvisited: one hop more than the recursive bound.
            }
        }
    }
}

} // verus!

verus! {

/// The row-major cell number of an in-grid point, as an index.
fn cidx(n: usize, p: (i32, i32)) -> (r: usize)
    requires
        1 <= n <= 0x10000,
        in_grid(n as int, p),
    ensures
        r == cell_idx(n as int, p),
        r < n * n,
{
    proof {
        lemma_cell_idx_range(n as int, p);
        assert((p.1 as int) * (n as int) + (p.0 as int) < 0x1_0000_0000) by (nonlinear_arith)
            requires
                0 <= p.0 < n,
                0 <= p.1 < n,
                n <= 0x10000,
        {}
    }
    (p.1 as usize) * n + (p.0 as usize)
}

/// Every neighbor of a cell is one of its four orthogonal offsets.
proof fn lemma_adjacent_enum(c: (i32, i32), m: (i32, i32))
    requires
        manhattan_adjacent(c, m),
        -0x8000_0000 <= c.0 + 1 <= 0x7fff_ffff,
        -0x8000_0000 <= c.0 - 1 <= 0x7fff_ffff,
        -0x8000_0000 <= c.1 + 1 <= 0x7fff_ffff,
        -0x8000_0000 <= c.1 - 1 <= 0x7fff_ffff,
    ensures
        m == ((c.0 + 1) as i32, c.1) || m == ((c.0 - 1) as i32, c.1) || m == (c.0, (c.1 + 1) as i32)
            || m == (c.0, (c.1 - 1) as i32),
{
    assert(m == (m.0, m.1));
}

/// Considers one neighbor `nb` of the dequeued cell `cur`: if it is a
/// walkable, not yet visited grid cell, it is visited now, one step
/// farther than `cur`, with `cur` as its parent, and joins the queue.
#[verifier::rlimit(100)]
fn visit_neighbor(
    grid: &Vec<Vec<Tile>>,
    n: usize,
    start: Ghost<(i32, i32)>,
    target: Ghost<(i32, i32)>,
    max_steps: usize,
    visited: &mut Vec<bool>,
    dist: &mut Vec<usize>,
    parent: &mut Vec<(i32, i32)>,
    queue: &mut Vec<(i32, i32)>,
    head: usize,
    cur: (i32, i32),
    nb: (i32, i32),
)
    requires
        bfs_inv(
            grid@,
            n as int,
            start@,
            target@,
            max_steps as int,
            old(visited)@,
            old(dist)@,
            old(parent)@,
            old(queue)@,
            head as int,
        ),
        head < old(queue)@.len(),
        old(queue)@[head as int] == cur,
        old(dist)@[cell_idx(n as int, cur)] < max_steps,
        manhattan_adjacent(cur, nb),
    ensures
        bfs_inv(
            grid@,
            n as int,
            start@,
            target@,
            max_steps as int,
            final(visited)@,
            final(dist)@,
            final(parent)@,
            final(queue)@,
            head as int,
        ),
        final(visited)@.len() == old(visited)@.len(),
        forall|c: int|
            0 <= c < old(visited)@.len() && old(visited)@[c] ==> (#[trigger] final(visited)@[c])
                && final(dist)@[c] == old(dist)@[c] && final(parent)@[c] == old(parent)@[c],
        final(queue)@.len() >= old(queue)@.len(),
        forall|k: int| 0 <= k < old(queue)@.len() ==> final(queue)@[k] == #[trigger] old(queue)@[k],
        walk_ok(grid@, n as int, nb) ==> final(visited)@[cell_idx(n as int, nb)]
            && final(dist)@[cell_idx(n as int, nb)] <= old(dist)@[cell_idx(n as int, cur)] + 1,
{
    let ghost gn = n as int;
    if nb.0 < 0 || nb.1 < 0 || nb.0 >= n as i32 || nb.1 >= n as i32 {
        return;
    }
    let tile = &grid[nb.1 as usize][nb.0 as usize];
    if !tile.is_walkable() {
        return;
    }
    let ni = cidx(n, nb);
    if visited[ni] {
        // Already reached: its distance is within one of the frontier.
        proof {
            assert(old(dist)@[cell_idx(gn, nb)] <= old(dist)@[cell_idx(gn, cur)] + 1);
        }
        return;
    }
    let ci = cidx(n, cur);
    let d = dist[ci];
    visited.set(ni, true);
    dist.set(ni, d + 1);
    parent.set(ni, cur);
    let ghost prev_queue = queue@;
    queue.push(nb);
    proof {
        let vi = visited@;
        let di = dist@;
        let pa = parent@;
        let qu = queue@;
        lemma_cell_idx_range(gn, nb);
        lemma_cell_idx_range(gn, cur);
        assert(qu[qu.len() - 1] == nb);
        assert(forall|k: int| 0 <= k < prev_queue.len() ==> qu[k] == #[trigger] prev_queue[k]);
        // the queue stays duplicate-free: the new cell was unvisited
        assert forall|k1: int, k2: int| 0 <= k1 < k2 < qu.len() implies qu[k1] != qu[k2] by {
            if k2 == qu.len() - 1 {
                lemma_cell_idx_range(gn, qu[k1]);
                if cell_idx(gn, qu[k1]) == ni {
                    lemma_cell_idx_injective(gn, qu[k1], nb);
                }
            }
        }
        // every queue entry is a visited in-grid cell
        assert forall|k: int| 0 <= k < qu.len() implies in_grid(gn, #[trigger] qu[k])
            && vi[cell_idx(gn, qu[k])] by {
            lemma_cell_idx_range(gn, qu[k]);
        }
        // every visited cell still satisfies its node invariant
        assert forall|p: (i32, i32)| in_grid(gn, p) && #[trigger] vi[cell_idx(gn, p)] implies
            bfs_node_inv(grid@, gn, start@, max_steps as int, vi, di, pa, qu, p) by {
            lemma_cell_idx_range(gn, p);
            if cell_idx(gn, p) == ni {
                lemma_cell_idx_injective(gn, p, nb);
                assert(qu[qu.len() - 1] == p);
            } else {
                assert(old(visited)@[cell_idx(gn, p)]);
                assert(bfs_node_inv(
                    grid@,
                    gn,
                    start@,
                    max_steps as int,
                    old(visited)@,
                    old(dist)@,
                    old(parent)@,
                    prev_queue,
                    p,
                ));
                let k = choose|k: int| 0 <= k < prev_queue.len() && prev_queue[k] == p;
                assert(qu[k] == p);
                if old(dist)@[cell_idx(gn, p)] > 0 {
                    let pp = old(parent)@[cell_idx(gn, p)];
                    lemma_cell_idx_range(gn, pp);
                }
            }
        }
        // distances along the queue stay sorted, and within one of the front
        assert forall|k1: int, k2: int| 0 <= k1 <= k2 < qu.len() implies di[cell_idx(
            gn,
            #[trigger] qu[k1],
        )] <= di[cell_idx(gn, #[trigger] qu[k2])] by {
            lemma_cell_idx_range(gn, qu[k1]);
            lemma_cell_idx_range(gn, qu[k2]);
            if k2 == qu.len() - 1 {
                if cell_idx(gn, qu[k1]) == ni {
                    lemma_cell_idx_injective(gn, qu[k1], nb);
                }
                if k1 < qu.len() - 1 {
                    assert(old(dist)@[cell_idx(gn, prev_queue[k1])] <= old(dist)@[cell_idx(
                        gn,
                        prev_queue[head as int],
                    )] + 1);
                }
            }
        }
        assert(qu[head as int] == cur);
        assert(di[cell_idx(gn, cur)] == d);
        assert forall|k: int| 0 <= k < qu.len() implies di[cell_idx(gn, #[trigger] qu[k])]
            <= di[cell_idx(gn, qu[head as int])] + 1 by {
            lemma_cell_idx_range(gn, qu[k]);
            if k == qu.len() - 1 {
            } else {
                if cell_idx(gn, qu[k]) == ni {
                    lemma_cell_idx_injective(gn, qu[k], nb);
                }
                assert(old(dist)@[cell_idx(gn, prev_queue[k])] <= old(dist)@[cell_idx(
                    gn,
                    prev_queue[head as int],
                )] + 1);
            }
        }
        // dequeued cells remain expanded
        assert forall|k: int| 0 <= k < head implies #[trigger] qu[k] != target@ && bfs_expanded(
            grid@,
            gn,
            max_steps as int,
            vi,
            di,
            qu,
            k,
        ) by {
            assert(qu[k] == prev_queue[k]);
            lemma_cell_idx_range(gn, qu[k]);
            if cell_idx(gn, qu[k]) == ni {
                lemma_cell_idx_injective(gn, qu[k], nb);
            }
            assert(bfs_expanded(
                grid@,
                gn,
                max_steps as int,
                old(visited)@,
                old(dist)@,
                prev_queue,
                k,
            ));
            if di[cell_idx(gn, qu[k])] < max_steps {
                assert forall|m: (i32, i32)|
                    walk_ok(grid@, gn, m) && manhattan_adjacent(qu[k], m) implies vi[cell_idx(
                    gn,
                    m,
                )] && di[#[trigger] cell_idx(gn, m)] <= di[cell_idx(gn, qu[k])] + 1 by {
                    lemma_cell_idx_range(gn, m);
                    if cell_idx(gn, m) == ni {
                        lemma_cell_idx_injective(gn, m, nb);
                    }
                }
            }
        }
        lemma_cell_idx_range(gn, start@);
        assert(vi[cell_idx(gn, start@)] && di[cell_idx(gn, start@)] == 0);
    }
}

} // verus!

verus! {

/// Rebuilds the route the parent records witness, from the start to `x`,
/// with exactly the recorded number of hops.
fn reconstruct(
    grid: &Vec<Vec<Tile>>,
    n: usize,
    start: Ghost<(i32, i32)>,
    target: Ghost<(i32, i32)>,
    max_steps: usize,
    visited: &Vec<bool>,
    dist: &Vec<usize>,
    parent: &Vec<(i32, i32)>,
    queue: Ghost<Seq<(i32, i32)>>,
    head: Ghost<int>,
    x: (i32, i32),
) -> (r: Vec<(i32, i32)>)
    requires
        bfs_inv(
            grid@,
            n as int,
            start@,
            target@,
            max_steps as int,
            visited@,
            dist@,
            parent@,
            queue@,
            head@,
        ),
        in_grid(n as int, x),
        visited@[cell_idx(n as int, x)],
    ensures
        is_route(grid@, n as int, r@, start@, x),
        r@.len() == dist@[cell_idx(n as int, x)] + 1,
{
    let ghost gn = n as int;
    let mut rev: Vec<(i32, i32)> = Vec::new();
    let mut cur = x;
    rev.push(cur);
    proof {
        lemma_cell_idx_range(gn, x);
    }
    let mut dc = dist[cidx(n, cur)];
    #[verifier::loop_isolation(false)]
    while dc > 0
        invariant
            in_grid(gn, cur),
            visited@[cell_idx(gn, cur)],
            dc == dist@[cell_idx(gn, cur)],
            rev@.len() >= 1,
            rev@[0] == x,
            rev@[rev@.len() - 1] == cur,
            rev@.len() == dist@[cell_idx(gn, x)] - dc + 1,
            forall|i: int|
                1 <= i < rev@.len() ==> manhattan_adjacent(#[trigger] rev@[i], rev@[i - 1])
                    && walk_ok(grid@, gn, rev@[i - 1]),
        decreases dc,
    {
        proof {
            lemma_cell_idx_range(gn, cur);
            assert(bfs_node_inv(
                grid@,
                gn,
                start@,
                max_steps as int,
                visited@,
                dist@,
                parent@,
                queue@,
                cur,
            ));
        }
        let pp = parent[cidx(n, cur)];
        rev.push(pp);
        cur = pp;
        dc = dist[cidx(n, cur)];
    }
    proof {
        assert(bfs_node_inv(
            grid@,
            gn,
            start@,
            max_steps as int,
            visited@,
            dist@,
            parent@,
            queue@,
            cur,
        ));
        assert(cur == start@);
    }
    let mut path: Vec<(i32, i32)> = Vec::new();
    let mut i = rev.len();
    #[verifier::loop_isolation(false)]
    while i > 0
        invariant
            i <= rev@.len(),
            path@.len() == rev@.len() - i,
            forall|j: int| 0 <= j < path@.len() ==> #[trigger] path@[j] == rev@[rev@.len() - 1 - j],
        decreases i,
    {
        i -= 1;
        path.push(rev[i]);
    }
    proof {
        let l = rev@.len() as int;
        assert(path@[0] == rev@[l - 1]);
        assert(path@[path@.len() - 1] == rev@[0]);
        assert forall|k: int|
            1 <= k < path@.len() implies manhattan_adjacent(path@[k - 1], #[trigger] path@[k])
            && walk_ok(grid@, gn, path@[k]) by {
            assert(path@[k] == rev@[l - 1 - k]);
            assert(path@[k - 1] == rev@[l - k]);
            assert(manhattan_adjacent(rev@[l - k], rev@[l - k - 1]) && walk_ok(
                grid@,
                gn,
                rev@[l - k - 1],
            ));
        }
    }
    path
}

/// Wraps up a successful search the moment the target is dequeued: the
/// reconstructed route is shortest, and its hops fit the budget.
#[verifier::rlimit(100)]
fn finish_at_target(
    grid: &Vec<Vec<Tile>>,
    n: usize,
    start: Ghost<(i32, i32)>,
    max_steps: usize,
    visited: &Vec<bool>,
    dist: &Vec<usize>,
    parent: &Vec<(i32, i32)>,
    queue: Ghost<Seq<(i32, i32)>>,
    head: usize,
    target: (i32, i32),
) -> (r: Vec<(i32, i32)>)
    requires
        bfs_inv(
            grid@,
            n as int,
            start@,
            target,
            max_steps as int,
            visited@,
            dist@,
            parent@,
            queue@,
            head as int,
        ),
        head < queue@.len(),
        queue@[head as int] == target,
    ensures
        r@.len() > 0,
        is_route(grid@, n as int, r@, start@, target),
        r@.len() - 1 <= max_steps,
        forall|s: Seq<(i32, i32)>|
            is_route(grid@, n as int, s, start@, target) ==> s.len() >= r@.len(),
{
    let ghost gn = n as int;
    proof {
        lemma_cell_idx_range(gn, target);
    }
    let r = reconstruct(
        grid,
        n,
        start,
        Ghost(target),
        max_steps,
        visited,
        dist,
        parent,
        queue,
        Ghost(head as int),
        target,
    );
    proof {
        assert forall|s: Seq<(i32, i32)>|
            is_route(grid@, gn, s, start@, target) implies s.len() >= r@.len() by {
            lemma_route_bound(
                grid@,
                gn,
                start@,
                target,
                max_steps as int,
                visited@,
                dist@,
                parent@,
                queue@,
                head as int,
                s,
                target,
            );
        }
    }
    r
}

/// Breadth-first search over the walkable tiles from `start` to `target`,
/// expanding the four orthogonal neighbors in a fixed order.
///
/// The result is a shortest route, start and target included, when one of
/// at most `max_steps` hops exists; otherwise it is empty. A search from a
/// start tile outside the grid finds only the trivial route to itself.
#[verifier::rlimit(100)]
pub fn find_path(
    grid: &Vec<Vec<Tile>>,
    start: (i32, i32),
    target: (i32, i32),
    max_steps: usize,
) -> (r: Vec<(i32, i32)>)
    requires
        grid@.len() <= 0xffff,
        grid_wf(grid@, grid@.len() as int),
    ensures
        r@.len() > 0 ==> is_route(grid@, grid@.len() as int, r@, start, target) && r@.len() - 1
            <= max_steps,
        r@.len() > 0 ==> forall|s: Seq<(i32, i32)>|
            is_route(grid@, grid@.len() as int, s, start, target) ==> s.len() >= r@.len(),
        r@.len() == 0 && in_grid(grid@.len() as int, start) ==> forall|s: Seq<(i32, i32)>|
            is_route(grid@, grid@.len() as int, s, start, target) ==> s.len() - 1 > max_steps,
{
    let ghost gn = grid@.len() as int;
    if start.0 == target.0 && start.1 == target.1 {
        let mut r: Vec<(i32, i32)> = Vec::new();
        r.push(target);
        proof {
            assert(start == target);
            assert(r@[0] == start);
        }
        return r;
    }
    let n = grid.len();
    if n == 0 || start.0 < 0 || start.1 < 0 || start.0 >= n as i32 || start.1 >= n as i32 {
        proof {
            assert(!in_grid(gn, start));
        }
        return Vec::new();
    }
    proof {
        assert(n * n < 0x1_0000_0000) by (nonlinear_arith)
            requires
                n <= 0xffff,
        {}
    }
    let nn = n * n;
    let mut visited: Vec<bool> = Vec::new();
    let mut dist: Vec<usize> = Vec::new();
    let mut parent: Vec<(i32, i32)> = Vec::new();
    #[verifier::loop_isolation(false)]
    while visited.len() < nn
        invariant
            visited@.len() == dist@.len() == parent@.len() <= nn,
            forall|c: int| 0 <= c < visited@.len() ==> !(#[trigger] visited@[c]),
        decreases nn - visited.len(),
    {
        visited.push(false);
        dist.push(0);
        parent.push((0, 0));
    }
    let mut queue: Vec<(i32, i32)> = Vec::new();
    let mut head: usize = 0;
    let si = cidx(n, start);
    visited.set(si, true);
    dist.set(si, 0);
    queue.push(start);
    proof {
        assert forall|p: (i32, i32)| in_grid(gn, p) && #[trigger] visited@[cell_idx(gn, p)] implies
            bfs_node_inv(
            grid@,
            gn,
            start,
            max_steps as int,
            visited@,
            dist@,
            parent@,
            queue@,
            p,
        ) by {
            lemma_cell_idx_range(gn, p);
            if cell_idx(gn, p) == si {
                lemma_cell_idx_injective(gn, p, start);
                assert(queue@[0] == p);
            }
        }
        assert(bfs_inv(
            grid@,
            gn,
            start,
            target,
            max_steps as int,
            visited@,
            dist@,
            parent@,
            queue@,
            head as int,
        ));
    }
    while head < queue.len()
        invariant
            n == grid@.len(),
            gn == n as int,
            nn == n * n,
            bfs_inv(
                grid@,
                gn,
                start,
                target,
                max_steps as int,
                visited@,
                dist@,
                parent@,
                queue@,
                head as int,
            ),
            queue@.len() <= nn,
        decreases nn - head,
    {
        let cur = queue[head];
        if cur.0 == target.0 && cur.1 == target.1 {
            proof {
                assert(cur == target);
            }
            let r = finish_at_target(
                grid,
                n,
                Ghost(start),
                max_steps,
                &visited,
                &dist,
                &parent,
                Ghost(queue@),
                head,
                cur,
            );
            return r;
        }
        let ci = cidx(n, cur);
        let dc = dist[ci];
        if dc < max_steps {
            let nb1 = (cur.0 + 1, cur.1);
            let nb2 = (cur.0 - 1, cur.1);
            let nb3 = (cur.0, cur.1 + 1);
            let nb4 = (cur.0, cur.1 - 1);
            visit_neighbor(
                grid, n, Ghost(start), Ghost(target), max_steps,
                &mut visited, &mut dist, &mut parent, &mut queue, head, cur, nb1,
            );
            visit_neighbor(
                grid, n, Ghost(start), Ghost(target), max_steps,
                &mut visited, &mut dist, &mut parent, &mut queue, head, cur, nb2,
            );
            visit_neighbor(
                grid, n, Ghost(start), Ghost(target), max_steps,
                &mut visited, &mut dist, &mut parent, &mut queue, head, cur, nb3,
            );
            visit_neighbor(
                grid, n, Ghost(start), Ghost(target), max_steps,
                &mut visited, &mut dist, &mut parent, &mut queue, head, cur, nb4,
            );
            proof {
                assert(dist@[cell_idx(gn, cur)] == dc);
                assert forall|m: (i32, i32)|
                    walk_ok(grid@, gn, m) && manhattan_adjacent(cur, m) implies visited@[cell_idx(
                    gn,
                    m,
                )] && dist@[#[trigger] cell_idx(gn, m)] <= dc + 1 by {
                    lemma_adjacent_enum(cur, m);
                    lemma_cell_idx_range(gn, m);
                }
            }
        }
        head = head + 1;
        proof {
            assert forall|k: int| 0 <= k < head implies #[trigger] queue@[k] != target
                && bfs_expanded(
                grid@,
                gn,
                max_steps as int,
                visited@,
                dist@,
                queue@,
                k,
            ) by {
                lemma_cell_idx_range(gn, queue@[k]);
            }
            lemma_queue_len_bound(gn, queue@);
        }
    }
    proof {
        if in_grid(gn, target) && visited@[cell_idx(gn, target)] {
            lemma_cell_idx_range(gn, target);
            assert(bfs_node_inv(
                grid@,
                gn,
                start,
                max_steps as int,
                visited@,
                dist@,
                parent@,
                queue@,
                target,
            ));
            let k = choose|k: int| 0 <= k < queue@.len() && queue@[k] == target;
            assert(queue@[k] != target);
        }
        assert forall|s: Seq<(i32, i32)>| is_route(grid@, gn, s, start, target) implies s.len() - 1
            > max_steps by {
            lemma_route_bound(
                grid@,
                gn,
                start,
                target,
                max_steps as int,
                visited@,
                dist@,
                parent@,
                queue@,
                head as int,
                s,
                target,
            );
        }
    }
    Vec::new()
}

} // verus!

verus! {

/// Some route of at most `max_steps` hops reaches `t` from `start`.
pub open spec fn spec_within_budget(
    grid: Seq<Vec<Tile>>,
    n: int,
    start: (i32, i32),
    t: (i32, i32),
    max_steps: int,
) -> bool {
    exists|s: Seq<(i32, i32)>| is_route(grid, n, s, start, t) && s.len() - 1 <= max_steps
}

/// The `k`-th orthogonal neighbor of a cell, in the fixed probe order
/// east, west, south, north.
pub open spec fn spec_nbr(p: (i32, i32), k: int) -> (i32, i32) {
    if k == 0 {
        (((p.0 + 1) as i32), p.1)
    } else if k == 1 {
        (((p.0 - 1) as i32), p.1)
    } else if k == 2 {
        (p.0, ((p.1 + 1) as i32))
    } else {
        (p.0, ((p.1 - 1) as i32))
    }
}

/// The cell's coordinates are far from the representation's edge, so its
/// neighbors' coordinates are exact.
pub open spec fn spec_nbr_exact(p: (i32, i32)) -> bool {
    -0x20000 <= p.0 <= 0x20000 && -0x20000 <= p.1 <= 0x20000
}

/// Routes from `start` to any walkable orthogonal neighbor of the
/// structure at `building_pos`, trying the four neighbors in the fixed
/// order east, west, south, north, and returning the first route found.
///
/// A non-empty result is a shortest route, within the step budget, to a
/// walkable neighbor of the structure — the first one, in the fixed
/// order, that is reachable within the budget; an empty result means no
/// walkable neighbor is reachable within the budget.
pub fn find_path_to_building(
    grid: &Vec<Vec<Tile>>,
    start: (i32, i32),
    building_pos: (i32, i32),
    max_steps: usize,
) -> (r: Vec<(i32, i32)>)
    requires
        grid@.len() <= 0xffff,
        grid_wf(grid@, grid@.len() as int),
    ensures
        r@.len() > 0 ==> exists|t: (i32, i32)|
            {
                &&& manhattan_adjacent(building_pos, t)
                &&& walk_ok(grid@, grid@.len() as int, t)
                &&& #[trigger] is_route(grid@, grid@.len() as int, r@, start, t)
                &&& r@.len() - 1 <= max_steps
                &&& forall|s: Seq<(i32, i32)>|
                    is_route(grid@, grid@.len() as int, s, start, t) ==> s.len() >= r@.len()
            },
        r@.len() == 0 && in_grid(grid@.len() as int, start) ==> forall|
            t: (i32, i32),
            s: Seq<(i32, i32)>,
        |
            manhattan_adjacent(building_pos, t) && walk_ok(grid@, grid@.len() as int, t)
                && #[trigger] is_route(grid@, grid@.len() as int, s, start, t) ==> s.len() - 1
                > max_steps,
        // The route ends on the first neighbor, in the fixed order, that
        // is walkable and reachable within the budget.
        r@.len() > 0 && in_grid(grid@.len() as int, start) && spec_nbr_exact(building_pos) ==> ({
            let gw = grid@;
            let gn = grid@.len() as int;
            if walk_ok(gw, gn, spec_nbr(building_pos, 0)) && spec_within_budget(
                gw,
                gn,
                start,
                spec_nbr(building_pos, 0),
                max_steps as int,
            ) {
                r@[r@.len() - 1] == spec_nbr(building_pos, 0)
            } else if walk_ok(gw, gn, spec_nbr(building_pos, 1)) && spec_within_budget(
                gw,
                gn,
                start,
                spec_nbr(building_pos, 1),
                max_steps as int,
            ) {
                r@[r@.len() - 1] == spec_nbr(building_pos, 1)
            } else if walk_ok(gw, gn, spec_nbr(building_pos, 2)) && spec_within_budget(
                gw,
                gn,
                start,
                spec_nbr(building_pos, 2),
                max_steps as int,
            ) {
                r@[r@.len() - 1] == spec_nbr(building_pos, 2)
            } else if walk_ok(gw, gn, spec_nbr(building_pos, 3)) && spec_within_budget(
                gw,
                gn,
                start,
                spec_nbr(building_pos, 3),
                max_steps as int,
            ) {
                r@[r@.len() - 1] == spec_nbr(building_pos, 3)
            } else {
                false
            }
        }),
{
    let ghost gn = grid@.len() as int;
    let n = grid.len();
    let bx = building_pos.0 as i64;
    let by = building_pos.1 as i64;
    let mut k: usize = 0;
    #[verifier::loop_isolation(false)]
    while k < 4
        invariant
            k <= 4,
            forall|t: (i32, i32), s: Seq<(i32, i32)>|
                manhattan_adjacent(building_pos, t) && walk_ok(grid@, gn, t) && #[trigger] is_route(
                    grid@,
                    gn,
                    s,
                    start,
                    t,
                ) && in_grid(gn, start) && ((k > 0 && t == spec_nbr(building_pos, 0)) || (k > 1
                && t == spec_nbr(building_pos, 1)) || (k > 2 && t == spec_nbr(building_pos, 2))
                || (k > 3 && t == spec_nbr(building_pos, 3))) ==> s.len() - 1 > max_steps,
            forall|j: int|
                0 <= j < k && in_grid(gn, start) && spec_nbr_exact(building_pos) ==> !(walk_ok(
                    grid@,
                    gn,
                    #[trigger] spec_nbr(building_pos, j),
                ) && spec_within_budget(
                    grid@,
                    gn,
                    start,
                    spec_nbr(building_pos, j),
                    max_steps as int,
                )),
        decreases 4 - k,
    {
        let (dx, dy): (i64, i64) = if k == 0 {
            (1, 0)
        } else if k == 1 {
            (-1, 0)
        } else if k == 2 {
            (0, 1)
        } else {
            (0, -1)
        };
        let ax = bx + dx;
        let ay = by + dy;
        proof {
            if spec_nbr_exact(building_pos) {
                assert(spec_nbr(building_pos, k as int) == ((ax as i32), (ay as i32)));
            }
        }
        if ax >= 0 && ay >= 0 && ax < n as i64 && ay < n as i64 {
            let t = (ax as i32, ay as i32);
            let tile = &grid[ay as usize][ax as usize];
            if tile.is_walkable() {
                let path = find_path(grid, start, t, max_steps);
                if path.len() > 0 {
                    proof {
                        assert(manhattan_adjacent(building_pos, t));
                        assert(walk_ok(grid@, gn, t));
                        assert(is_route(grid@, gn, path@, start, t));
                        assert(spec_within_budget(grid@, gn, start, t, max_steps as int));
                        assert(path@[path@.len() - 1] == t);
                    }
                    return path;
                }
                proof {
                    if !in_grid(gn, start) {
                        if start.0 == t.0 && start.1 == t.1 {
                            assert(walk_ok(grid@, gn, start));
                            assert(false);
                        }
                    } else {
                        assert(!spec_within_budget(grid@, gn, start, t, max_steps as int)) by {
                            if spec_within_budget(grid@, gn, start, t, max_steps as int) {
                                let s2 = choose|s2: Seq<(i32, i32)>|
                                    is_route(grid@, gn, s2, start, t) && s2.len() - 1
                                        <= max_steps;
                                assert(s2.len() - 1 > max_steps);
                            }
                        }
                    }
                }
            } else {
                proof {
                    assert(!spec_is_walkable(grid@[ay as int]@[ax as int]));
                    assert(!walk_ok(grid@, gn, t));
                }
            }
        } else {
            proof {
                if spec_nbr_exact(building_pos) {
                    assert(!in_grid(gn, spec_nbr(building_pos, k as int)));
                }
            }
        }
        k += 1;
    }
    proof {
        assert forall|t: (i32, i32), s: Seq<(i32, i32)>|
            manhattan_adjacent(building_pos, t) && walk_ok(grid@, gn, t) && #[trigger] is_route(
                grid@,
                gn,
                s,
                start,
                t,
            ) && in_grid(gn, start) implies s.len() - 1 > max_steps by {
            lemma_adjacent_enum(building_pos, t);
        }
    }
    Vec::new()
}

} // verus!

verus! {

/// The Manhattan distance between two cells.
pub open spec fn mdist(a: (i32, i32), b: (i32, i32)) -> int {
    (if a.0 >= b.0 {
        a.0 - b.0
    } else {
        b.0 - a.0
    }) + (if a.1 >= b.1 {
        a.1 - b.1
    } else {
        b.1 - a.1
    })
}

/// A route over the grid alone: every step moves to an adjacent cell and
/// stays inside the grid; walkability plays no part.
pub open spec fn is_free_route(n: int, s: Seq<(i32, i32)>, a: (i32, i32), b: (i32, i32)) -> bool {
    &&& s.len() >= 1
    &&& s[0] == a
    &&& s[s.len() - 1] == b
    &&& forall|i: int|
        1 <= i < s.len() ==> manhattan_adjacent(s[i - 1], #[trigger] s[i]) && in_grid(n, s[i])
}

/// No route beats the Manhattan distance: every step changes it by at
/// most one.
proof fn lemma_free_route_lower(n: int, s: Seq<(i32, i32)>, a: (i32, i32), b: (i32, i32))
    requires
        is_free_route(n, s, a, b),
    ensures
        s.len() - 1 >= mdist(a, b),
    decreases s.len(),
{
    if s.len() > 1 {
        let p = s[s.len() - 2];
        let s2 = s.drop_last();
        assert(manhattan_adjacent(s[s.len() - 2], s[s.len() - 1]));
        assert forall|i: int|
            1 <= i < s2.len() implies manhattan_adjacent(s2[i - 1], #[trigger] s2[i]) && in_grid(
            n,
            s2[i],
        ) by {
            assert(manhattan_adjacent(s[i - 1], s[i]) && in_grid(n, s[i]));
        }
        lemma_free_route_lower(n, s2, a, p);
    }
}

/// A route of exactly the Manhattan distance exists between any two grid
/// cells: walk the horizontal gap, then the vertical one.
proof fn lemma_mdist_route_exists(n: int, a: (i32, i32), b: (i32, i32))
    requires
        in_grid(n, a),
        in_grid(n, b),
    ensures
        exists|s: Seq<(i32, i32)>|
            is_free_route(n, s, a, b) && s.len() == mdist(a, b) + 1,
    decreases mdist(a, b),
{
    if a == b {
        let s = seq![a];
        assert(is_free_route(n, s, a, b));
    } else {
        let bp: (i32, i32) = if a.0 < b.0 {
            (((b.0 - 1) as i32), b.1)
        } else if a.0 > b.0 {
            (((b.0 + 1) as i32), b.1)
        } else if a.1 < b.1 {
            (b.0, ((b.1 - 1) as i32))
        } else {
            (b.0, ((b.1 + 1) as i32))
        };
        assert(a != b ==> a.0 != b.0 || a.1 != b.1);
        assert(in_grid(n, bp));
        assert(mdist(a, bp) == mdist(a, b) - 1);
        lemma_mdist_route_exists(n, a, bp);
        let s2 = choose|s2: Seq<(i32, i32)>|
            is_free_route(n, s2, a, bp) && s2.len() == mdist(a, bp) + 1;
        let s = s2.push(b);
        assert(s[s.len() - 1] == b);
        assert forall|i: int|
            1 <= i < s.len() implies manhattan_adjacent(s[i - 1], #[trigger] s[i]) && in_grid(
            n,
            s[i],
        ) by {
            if i < s.len() - 1 {
                assert(manhattan_adjacent(s2[i - 1], s2[i]) && in_grid(n, s2[i]));
            } else {
                assert(s[i - 1] == bp);
                assert(manhattan_adjacent(bp, b));
            }
        }
        assert(is_free_route(n, s, a, b) && s.len() == mdist(a, b) + 1);
    }
}

/// What holds of each visited cell of the outward search: its recorded
/// distance is within the probe depth, only the start has distance zero,
/// a route of exactly the recorded length reaches it, and it is in the
/// queue.
pub open spec fn probe_node_inv(
    n: int,
    start: (i32, i32),
    max_d: int,
    dist: Seq<usize>,
    queue: Seq<(i32, i32)>,
    p: (i32, i32),
) -> bool {
    let c = cell_idx(n, p);
    &&& dist[c] <= max_d
    &&& (dist[c] == 0 ==> p == start)
    &&& (exists|s: Seq<(i32, i32)>|
        is_free_route(n, s, start, p) && s.len() == dist[c] + 1)
    &&& exists|k: int| 0 <= k < queue.len() && queue[k] == p
}

/// A dequeued cell of the outward search has been expanded, unless its
/// distance already exhausts the probe depth.
pub open spec fn probe_expanded(
    n: int,
    max_d: int,
    visited: Seq<bool>,
    dist: Seq<usize>,
    queue: Seq<(i32, i32)>,
    k: int,
) -> bool {
    dist[cell_idx(n, queue[k])] < max_d ==> forall|m: (i32, i32)|
        in_grid(n, m) && manhattan_adjacent(queue[k], m) ==> visited[cell_idx(n, m)]
            && dist[#[trigger] cell_idx(n, m)] <= dist[cell_idx(n, queue[k])] + 1
}

/// The outward search invariant, the unrestricted twin of the route
/// search's: well-formed arrays, the start visited at distance zero,
/// every visited cell satisfying its node invariant, the queue made of
/// distinct visited in-grid cells in non-decreasing distance order, never
/// more than one above the front, and every dequeued cell expanded.
pub open spec fn probe_inv(
    n: int,
    start: (i32, i32),
    max_d: int,
    visited: Seq<bool>,
    dist: Seq<usize>,
    queue: Seq<(i32, i32)>,
    head: int,
) -> bool {
    &&& 1 <= n <= 0xffff
    &&& in_grid(n, start)
    &&& visited.len() == n * n
    &&& dist.len() == n * n
    &&& 0 <= head <= queue.len()
    &&& visited[cell_idx(n, start)]
    &&& dist[cell_idx(n, start)] == 0
    &&& forall|p: (i32, i32)|
        in_grid(n, p) && #[trigger] visited[cell_idx(n, p)] ==> probe_node_inv(
            n,
            start,
            max_d,
            dist,
            queue,
            p,
        )
    &&& forall|k: int|
        0 <= k < queue.len() ==> in_grid(n, #[trigger] queue[k]) && visited[cell_idx(
            n,
            queue[k],
        )]
    &&& forall|k1: int, k2: int|
        0 <= k1 <= k2 < queue.len() ==> dist[cell_idx(n, #[trigger] queue[k1])] <= dist[cell_idx(
            n,
            #[trigger] queue[k2],
        )]
    &&& (head < queue.len() ==> forall|k: int|
        0 <= k < queue.len() ==> dist[cell_idx(n, #[trigger] queue[k])] <= dist[cell_idx(
            n,
            queue[head],
        )] + 1)
    &&& forall|k1: int, k2: int| 0 <= k1 < k2 < queue.len() ==> queue[k1] != queue[k2]
    &&& forall|k: int|
        0 <= k < head ==> #[trigger] probe_expanded(n, max_d, visited, dist, queue, k)
}

/// Any route out of the start is at least as long as the outward search's
/// records say; the unrestricted twin of the route search's bound.
proof fn lemma_probe_route_bound(
    n: int,
    start: (i32, i32),
    max_d: int,
    visited: Seq<bool>,
    dist: Seq<usize>,
    queue: Seq<(i32, i32)>,
    head: int,
    s: Seq<(i32, i32)>,
    x: (i32, i32),
)
    requires
        probe_inv(n, start, max_d, visited, dist, queue, head),
        is_free_route(n, s, start, x),
    ensures
        in_grid(n, x) && visited[cell_idx(n, x)] ==> s.len() - 1 >= dist[cell_idx(n, x)],
        !(in_grid(n, x) && visited[cell_idx(n, x)]) && head < queue.len() ==> s.len() - 1
            >= dist[cell_idx(n, queue[head])],
        !(in_grid(n, x) && visited[cell_idx(n, x)]) && head == queue.len() ==> s.len() - 1
            >= max_d + 1,
    decreases s.len(),
{
    if s.len() == 1 {
        assert(x == start);
    } else {
        let p = s[s.len() - 2];
        let s2 = s.drop_last();
        assert(s2[0] == start);
        assert(s2[s2.len() - 1] == p);
        assert forall|i: int|
            1 <= i < s2.len() implies manhattan_adjacent(s2[i - 1], #[trigger] s2[i]) && in_grid(
            n,
            s2[i],
        ) by {
            assert(manhattan_adjacent(s[i - 1], s[i]) && in_grid(n, s[i]));
        }
        lemma_probe_route_bound(n, start, max_d, visited, dist, queue, head, s2, p);
        assert(manhattan_adjacent(s[s.len() - 2], s[s.len() - 1]) && in_grid(n, s[s.len() - 1]));
        assert(in_grid(n, x));
        let cx = cell_idx(n, x);
        if s.len() == 2 {
            assert(p == start);
        } else {
            assert(manhattan_adjacent(s[s.len() - 3], s[s.len() - 2]) && in_grid(
                n,
                s[s.len() - 2],
            ));
        }
        assert(in_grid(n, p));
        let cp = cell_idx(n, p);
        if visited[cx] {
            assert(probe_node_inv(n, start, max_d, dist, queue, x));
            let kx = choose|k: int| 0 <= k < queue.len() && queue[k] == x;
            if visited[cp] {
                assert(probe_node_inv(n, start, max_d, dist, queue, p));
                let kp = choose|k: int| 0 <= k < queue.len() && queue[k] == p;
                if kp < head {
                    assert(probe_expanded(n, max_d, visited, dist, queue, kp));
                    if dist[cp] < max_d {
                        assert(dist[cx] <= dist[cp] + 1);
                    } else {
                        assert(dist[cx] <= max_d <= dist[cp]);
                    }
                } else {
                    assert(head < queue.len());
                    assert(dist[cell_idx(n, queue[head])] <= dist[cp]);
                    assert(dist[cx] <= dist[cell_idx(n, queue[head])] + 1);
                }
            } else {
                if head < queue.len() {
                    assert(s2.len() - 1 >= dist[cell_idx(n, queue[head])]);
                    assert(dist[cx] <= dist[cell_idx(n, queue[head])] + 1);
                } else {
                    assert(s2.len() - 1 >= max_d + 1);
                    assert(dist[cx] <= max_d);
                }
            }
        } else {
            if visited[cp] {
                assert(probe_node_inv(n, start, max_d, dist, queue, p));
                let kp = choose|k: int| 0 <= k < queue.len() && queue[k] == p;
                if kp < head {
                    assert(probe_expanded(n, max_d, visited, dist, queue, kp));
                    assert(dist[cp] >= max_d) by {
                        if dist[cp] < max_d {
                            assert(visited[cx]);
                        }
                    }
                    assert(s2.len() - 1 >= dist[cp]);
                    if head < queue.len() {
                        assert(dist[cell_idx(n, queue[head])] <= max_d);
                    }
                } else {
                    assert(head < queue.len());
                    assert(dist[cell_idx(n, queue[head])] <= dist[cp]);
                    assert(s2.len() - 1 >= dist[cp]);
                }
            }
        }
    }
}

/// A visited cell's recorded distance is exactly its Manhattan distance
/// from the start: the witnessing route gives one direction, the route
/// bound the other.
proof fn lemma_probe_dist_is_mdist(
    n: int,
    start: (i32, i32),
    max_d: int,
    visited: Seq<bool>,
    dist: Seq<usize>,
    queue: Seq<(i32, i32)>,
    head: int,
    p: (i32, i32),
)
    requires
        probe_inv(n, start, max_d, visited, dist, queue, head),
        in_grid(n, p),
        visited[cell_idx(n, p)],
    ensures
        dist[cell_idx(n, p)] == mdist(start, p),
{
    assert(probe_node_inv(n, start, max_d, dist, queue, p));
    let w = choose|s: Seq<(i32, i32)>|
        is_free_route(n, s, start, p) && s.len() == dist[cell_idx(n, p)] + 1;
    lemma_free_route_lower(n, w, start, p);
    lemma_mdist_route_exists(n, start, p);
    let m = choose|s: Seq<(i32, i32)>|
        is_free_route(n, s, start, p) && s.len() == mdist(start, p) + 1;
    lemma_probe_route_bound(n, start, max_d, visited, dist, queue, head, m, p);
}

} // verus!

verus! {

/// Considers one neighbor `nb` of the dequeued cell `cur` of the outward
/// search: an in-grid cell not yet visited is visited now, one step
/// farther than `cur`, and joins the queue.
#[verifier::rlimit(100)]
fn probe_neighbor(
    n: usize,
    start: Ghost<(i32, i32)>,
    max_distance: usize,
    visited: &mut Vec<bool>,
    dist: &mut Vec<usize>,
    queue: &mut Vec<(i32, i32)>,
    head: usize,
    cur: (i32, i32),
    nb: (i32, i32),
)
    requires
        probe_inv(
            n as int,
            start@,
            max_distance as int,
            old(visited)@,
            old(dist)@,
            old(queue)@,
            head as int,
        ),
        head < old(queue)@.len(),
        old(queue)@[head as int] == cur,
        old(dist)@[cell_idx(n as int, cur)] < max_distance,
        manhattan_adjacent(cur, nb),
    ensures
        probe_inv(
            n as int,
            start@,
            max_distance as int,
            final(visited)@,
            final(dist)@,
            final(queue)@,
            head as int,
        ),
        final(visited)@.len() == old(visited)@.len(),
        forall|c: int|
            0 <= c < old(visited)@.len() && old(visited)@[c] ==> (#[trigger] final(visited)@[c])
                && final(dist)@[c] == old(dist)@[c],
        final(queue)@.len() >= old(queue)@.len(),
        forall|k: int| 0 <= k < old(queue)@.len() ==> final(queue)@[k] == #[trigger] old(queue)@[k],
        in_grid(n as int, nb) ==> final(visited)@[cell_idx(n as int, nb)]
            && final(dist)@[cell_idx(n as int, nb)] <= old(dist)@[cell_idx(n as int, cur)] + 1,
{
    let ghost gn = n as int;
    if nb.0 < 0 || nb.1 < 0 || nb.0 >= n as i32 || nb.1 >= n as i32 {
        return;
    }
    let ni = cidx(n, nb);
    if visited[ni] {
        proof {
            assert(old(dist)@[cell_idx(gn, nb)] <= old(dist)@[cell_idx(gn, cur)] + 1);
        }
        return;
    }
    let ci = cidx(n, cur);
    let d = dist[ci];
    visited.set(ni, true);
    dist.set(ni, d + 1);
    let ghost prev_queue = queue@;
    queue.push(nb);
    proof {
        let vi = visited@;
        let di = dist@;
        let qu = queue@;
        lemma_cell_idx_range(gn, nb);
        lemma_cell_idx_range(gn, cur);
        assert(qu[qu.len() - 1] == nb);
        assert(forall|k: int| 0 <= k < prev_queue.len() ==> qu[k] == #[trigger] prev_queue[k]);
        assert forall|k1: int, k2: int| 0 <= k1 < k2 < qu.len() implies qu[k1] != qu[k2] by {
            if k2 == qu.len() - 1 {
                lemma_cell_idx_range(gn, qu[k1]);
                if cell_idx(gn, qu[k1]) == ni {
                    lemma_cell_idx_injective(gn, qu[k1], nb);
                }
            }
        }
        assert forall|k: int| 0 <= k < qu.len() implies in_grid(gn, #[trigger] qu[k])
            && vi[cell_idx(gn, qu[k])] by {
            lemma_cell_idx_range(gn, qu[k]);
        }
        // the new cell's witnessing route: the one to `cur`, extended
        assert(probe_node_inv(gn, start@, max_distance as int, old(dist)@, prev_queue, cur));
        let w = choose|s: Seq<(i32, i32)>|
            is_free_route(gn, s, start@, cur) && s.len() == old(dist)@[cell_idx(gn, cur)] + 1;
        let wnb = w.push(nb);
        assert(wnb[wnb.len() - 1] == nb);
        assert forall|i: int|
            1 <= i < wnb.len() implies manhattan_adjacent(wnb[i - 1], #[trigger] wnb[i])
            && in_grid(gn, wnb[i]) by {
            if i < wnb.len() - 1 {
                assert(manhattan_adjacent(w[i - 1], w[i]) && in_grid(gn, w[i]));
            } else {
                assert(wnb[i - 1] == cur);
            }
        }
        assert(is_free_route(gn, wnb, start@, nb) && wnb.len() == di[ni as int] + 1);
        assert forall|p: (i32, i32)| in_grid(gn, p) && #[trigger] vi[cell_idx(gn, p)] implies
            probe_node_inv(gn, start@, max_distance as int, di, qu, p) by {
            lemma_cell_idx_range(gn, p);
            if cell_idx(gn, p) == ni {
                lemma_cell_idx_injective(gn, p, nb);
                assert(p == nb);
                assert(qu[qu.len() - 1] == p);
            } else {
                assert(old(visited)@[cell_idx(gn, p)]);
                assert(probe_node_inv(
                    gn,
                    start@,
                    max_distance as int,
                    old(dist)@,
                    prev_queue,
                    p,
                ));
                let k = choose|k: int| 0 <= k < prev_queue.len() && prev_queue[k] == p;
                assert(qu[k] == p);
            }
        }
        assert forall|k1: int, k2: int| 0 <= k1 <= k2 < qu.len() implies di[cell_idx(
            gn,
            #[trigger] qu[k1],
        )] <= di[cell_idx(gn, #[trigger] qu[k2])] by {
            lemma_cell_idx_range(gn, qu[k1]);
            lemma_cell_idx_range(gn, qu[k2]);
            if cell_idx(gn, qu[k1]) == ni {
                lemma_cell_idx_injective(gn, qu[k1], nb);
            }
            if k2 == qu.len() - 1 {
                if k1 < qu.len() - 1 {
                    assert(old(dist)@[cell_idx(gn, prev_queue[k1])] <= old(dist)@[cell_idx(
                        gn,
                        prev_queue[head as int],
                    )] + 1);
                }
            }
        }
        assert(qu[head as int] == cur);
        assert(di[cell_idx(gn, cur)] == d);
        assert forall|k: int| 0 <= k < qu.len() implies di[cell_idx(gn, #[trigger] qu[k])]
            <= di[cell_idx(gn, qu[head as int])] + 1 by {
            lemma_cell_idx_range(gn, qu[k]);
            if k == qu.len() - 1 {
            } else {
                if cell_idx(gn, qu[k]) == ni {
                    lemma_cell_idx_injective(gn, qu[k], nb);
                }
                assert(old(dist)@[cell_idx(gn, prev_queue[k])] <= old(dist)@[cell_idx(
                    gn,
                    prev_queue[head as int],
                )] + 1);
            }
        }
        assert forall|k: int| 0 <= k < head implies #[trigger] probe_expanded(
            gn,
            max_distance as int,
            vi,
            di,
            qu,
            k,
        ) by {
            assert(qu[k] == prev_queue[k]);
            lemma_cell_idx_range(gn, qu[k]);
            if cell_idx(gn, qu[k]) == ni {
                lemma_cell_idx_injective(gn, qu[k], nb);
            }
            assert(probe_expanded(
                gn,
                max_distance as int,
                old(visited)@,
                old(dist)@,
                prev_queue,
                k + 0,
            ));
            if di[cell_idx(gn, qu[k])] < max_distance {
                assert forall|m: (i32, i32)|
                    in_grid(gn, m) && manhattan_adjacent(qu[k], m) implies vi[cell_idx(gn, m)]
                    && di[#[trigger] cell_idx(gn, m)] <= di[cell_idx(gn, qu[k])] + 1 by {
                    lemma_cell_idx_range(gn, m);
                    if cell_idx(gn, m) == ni {
                        lemma_cell_idx_injective(gn, m, nb);
                    }
                }
            }
        }
        lemma_cell_idx_range(gn, start@);
        assert(vi[cell_idx(gn, start@)] && di[cell_idx(gn, start@)] == 0);
    }
}

} // verus!

verus! {

/// When a cell within the probe depth is dequeued, every strictly nearer
/// cell has already been dequeued.
#[verifier::rlimit(100)]
proof fn lemma_probe_nearer_processed(
    n: int,
    start: (i32, i32),
    max_d: int,
    visited: Seq<bool>,
    dist: Seq<usize>,
    queue: Seq<(i32, i32)>,
    head: int,
    cur: (i32, i32),
)
    requires
        probe_inv(n, start, max_d, visited, dist, queue, head),
        head < queue.len(),
        queue[head] == cur,
        dist[cell_idx(n, cur)] < max_d,
    ensures
        mdist(start, cur) == dist[cell_idx(n, cur)],
        forall|u: (i32, i32)|
            in_grid(n, u) && u != start && mdist(start, u) < mdist(start, cur) ==> exists|k: int|
                0 <= k < head && (#[trigger] queue[k]) == u && dist[cell_idx(n, u)] < max_d,
{
    lemma_cell_idx_range(n, cur);
    lemma_probe_dist_is_mdist(n, start, max_d, visited, dist, queue, head, cur);
    assert forall|u: (i32, i32)|
        in_grid(n, u) && u != start && mdist(start, u) < mdist(start, cur) implies exists|k: int|
            0 <= k < head && (#[trigger] queue[k]) == u && dist[cell_idx(n, u)] < max_d by {
        lemma_cell_idx_range(n, u);
        lemma_mdist_route_exists(n, start, u);
        let m = choose|s: Seq<(i32, i32)>|
            is_free_route(n, s, start, u) && s.len() == mdist(start, u) + 1;
        if !visited[cell_idx(n, u)] {
            lemma_probe_route_bound(n, start, max_d, visited, dist, queue, head, m, u);
            assert(false);
        }
        lemma_probe_dist_is_mdist(n, start, max_d, visited, dist, queue, head, u);
        assert(probe_node_inv(n, start, max_d, dist, queue, u));
        let k = choose|k: int| 0 <= k < queue.len() && queue[k] == u;
        if k > head {
            assert(dist[cell_idx(n, queue[head])] <= dist[cell_idx(n, queue[k])]);
            assert(false);
        }
        assert(k < head);
        assert(0 <= k < head && queue[k] == u && dist[cell_idx(n, u)] < max_d);
    }
}

/// Once the queue is exhausted, every cell within the probe depth has
/// been dequeued.
#[verifier::rlimit(100)]
proof fn lemma_probe_exhausted(
    n: int,
    start: (i32, i32),
    max_d: int,
    visited: Seq<bool>,
    dist: Seq<usize>,
    queue: Seq<(i32, i32)>,
    head: int,
)
    requires
        probe_inv(n, start, max_d, visited, dist, queue, head),
        head == queue.len(),
    ensures
        forall|u: (i32, i32)|
            in_grid(n, u) && u != start && mdist(start, u) < max_d ==> exists|k: int|
                0 <= k < head && (#[trigger] queue[k]) == u && dist[cell_idx(n, u)] < max_d,
{
    assert forall|u: (i32, i32)|
        in_grid(n, u) && u != start && mdist(start, u) < max_d implies exists|k: int|
            0 <= k < head && (#[trigger] queue[k]) == u && dist[cell_idx(n, u)] < max_d by {
        lemma_cell_idx_range(n, u);
        lemma_mdist_route_exists(n, start, u);
        let m = choose|s: Seq<(i32, i32)>|
            is_free_route(n, s, start, u) && s.len() == mdist(start, u) + 1;
        if !visited[cell_idx(n, u)] {
            lemma_probe_route_bound(n, start, max_d, visited, dist, queue, head, m, u);
            assert(false);
        }
        lemma_probe_dist_is_mdist(n, start, max_d, visited, dist, queue, head, u);
        assert(probe_node_inv(n, start, max_d, dist, queue, u));
        let k = choose|k: int| 0 <= k < queue.len() && queue[k] == u;
        assert(0 <= k < head && queue[k] == u && dist[cell_idx(n, u)] < max_d);
    }
}

/// Expands the dequeued cell `cur` of the outward search: all four
/// orthogonal neighbors are considered, and the cell counts as processed.
#[verifier::rlimit(100)]
fn probe_expand(
    n: usize,
    start: Ghost<(i32, i32)>,
    max_distance: usize,
    visited: &mut Vec<bool>,
    dist: &mut Vec<usize>,
    queue: &mut Vec<(i32, i32)>,
    head: usize,
    cur: (i32, i32),
)
    requires
        probe_inv(
            n as int,
            start@,
            max_distance as int,
            old(visited)@,
            old(dist)@,
            old(queue)@,
            head as int,
        ),
        head < old(queue)@.len(),
        old(queue)@[head as int] == cur,
        old(dist)@[cell_idx(n as int, cur)] < max_distance,
    ensures
        probe_inv(
            n as int,
            start@,
            max_distance as int,
            final(visited)@,
            final(dist)@,
            final(queue)@,
            head as int + 1,
        ),
        probe_inv(
            n as int,
            start@,
            max_distance as int,
            final(visited)@,
            final(dist)@,
            final(queue)@,
            head as int,
        ),
        final(queue)@.len() <= n * n,
        final(visited)@.len() == old(visited)@.len(),
        forall|c: int|
            0 <= c < old(visited)@.len() && old(visited)@[c] ==> (#[trigger] final(visited)@[c])
                && final(dist)@[c] == old(dist)@[c],
        forall|k: int| 0 <= k < old(queue)@.len() ==> final(queue)@[k] == #[trigger] old(queue)@[k],
        final(queue)@.len() >= old(queue)@.len(),
{
    let ghost gn = n as int;
    let ci = cidx(n, cur);
    let dc = dist[ci];
    let nb1 = (cur.0 + 1, cur.1);
    let nb2 = (cur.0 - 1, cur.1);
    let nb3 = (cur.0, cur.1 + 1);
    let nb4 = (cur.0, cur.1 - 1);
    probe_neighbor(n, start, max_distance, visited, dist, queue, head, cur, nb1);
    probe_neighbor(n, start, max_distance, visited, dist, queue, head, cur, nb2);
    probe_neighbor(n, start, max_distance, visited, dist, queue, head, cur, nb3);
    probe_neighbor(n, start, max_distance, visited, dist, queue, head, cur, nb4);
    proof {
        assert(dist@[cell_idx(gn, cur)] == dc);
        assert forall|m: (i32, i32)|
            in_grid(gn, m) && manhattan_adjacent(cur, m) implies visited@[cell_idx(gn, m)]
            && dist@[#[trigger] cell_idx(gn, m)] <= dc + 1 by {
            lemma_adjacent_enum(cur, m);
            lemma_cell_idx_range(gn, m);
        }
        assert forall|k: int| 0 <= k < head as int + 1 implies #[trigger] probe_expanded(
            gn,
            max_distance as int,
            visited@,
            dist@,
            queue@,
            k,
        ) by {
            lemma_cell_idx_range(gn, queue@[k]);
        }
        lemma_queue_len_bound(gn, queue@);
    }
}

/// The bookkeeping of one dequeue of the outward search: a cell within
/// the probe depth is expanded and reported testable; one at the depth or
/// beyond is merely skipped.
#[verifier::rlimit(100)]
fn probe_admin(
    n: usize,
    start: Ghost<(i32, i32)>,
    max_distance: usize,
    visited: &mut Vec<bool>,
    dist: &mut Vec<usize>,
    queue: &mut Vec<(i32, i32)>,
    head: usize,
) -> (tested: bool)
    requires
        probe_inv(
            n as int,
            start@,
            max_distance as int,
            old(visited)@,
            old(dist)@,
            old(queue)@,
            head as int,
        ),
        head < old(queue)@.len(),
    ensures
        tested == (old(dist)@[cell_idx(n as int, old(queue)@[head as int])] < max_distance),
        probe_inv(
            n as int,
            start@,
            max_distance as int,
            final(visited)@,
            final(dist)@,
            final(queue)@,
            head as int + 1,
        ),
        probe_inv(
            n as int,
            start@,
            max_distance as int,
            final(visited)@,
            final(dist)@,
            final(queue)@,
            head as int,
        ),
        final(queue)@.len() <= n * n,
        final(visited)@.len() == old(visited)@.len(),
        forall|c: int|
            0 <= c < old(visited)@.len() && old(visited)@[c] ==> (#[trigger] final(visited)@[c])
                && final(dist)@[c] == old(dist)@[c],
        forall|k: int| 0 <= k < old(queue)@.len() ==> final(queue)@[k] == #[trigger] old(queue)@[k],
        final(queue)@.len() >= old(queue)@.len(),
{
    let ghost gn = n as int;
    let cur = queue[head];
    let ci = cidx(n, cur);
    let dc = dist[ci];
    if dc >= max_distance {
        proof {
            assert forall|k: int| 0 <= k < head as int + 1 implies #[trigger] probe_expanded(
                gn,
                max_distance as int,
                visited@,
                dist@,
                queue@,
                k,
            ) by {
                lemma_cell_idx_range(gn, queue@[k]);
            }
            lemma_queue_len_bound(gn, queue@);
        }
        return false;
    }
    probe_expand(n, start, max_distance, visited, dist, queue, head, cur);
    true
}

/// At a hit within the probe depth, every strictly nearer cell was
/// already tested and rejected.
#[verifier::rlimit(100)]
proof fn lemma_probe_hit<F: Fn(&Tile) -> bool>(
    grid: Seq<Vec<Tile>>,
    n: int,
    start: (i32, i32),
    max_d: int,
    visited: Seq<bool>,
    dist: Seq<usize>,
    queue: Seq<(i32, i32)>,
    head: int,
    cur: (i32, i32),
    predicate: &F,
)
    requires
        probe_inv(n, start, max_d, visited, dist, queue, head),
        head < queue.len(),
        queue[head] == cur,
        dist[cell_idx(n, cur)] < max_d,
        forall|k: int|
            0 <= k < head && (#[trigger] queue[k]) != start && dist[cell_idx(n, queue[k])]
                < max_d ==> predicate.ensures(
                (&grid[queue[k].1 as int]@[queue[k].0 as int],),
                false,
            ),
    ensures
        mdist(start, cur) == dist[cell_idx(n, cur)],
        forall|u: (i32, i32)|
            in_grid(n, u) && u != start && mdist(start, u) < mdist(start, cur)
                ==> predicate.ensures((&grid[u.1 as int]@[u.0 as int],), false),
{
    lemma_probe_nearer_processed(n, start, max_d, visited, dist, queue, head, cur);
    assert forall|u: (i32, i32)|
        in_grid(n, u) && u != start && mdist(start, u) < mdist(start, cur) implies
        predicate.ensures((&grid[u.1 as int]@[u.0 as int],), false) by {
        assert(exists|k: int|
            0 <= k < head && (#[trigger] queue[k]) == u && dist[cell_idx(n, u)] < max_d);
        let k = choose|k: int|
            0 <= k < head && (#[trigger] queue[k]) == u && dist[cell_idx(n, u)] < max_d;
        assert(queue[k] == u);
    }
}

/// Once every queued cell has been dequeued without a hit, every cell
/// within the probe depth was tested and rejected.
#[verifier::rlimit(100)]
proof fn lemma_probe_none<F: Fn(&Tile) -> bool>(
    grid: Seq<Vec<Tile>>,
    n: int,
    start: (i32, i32),
    max_d: int,
    visited: Seq<bool>,
    dist: Seq<usize>,
    queue: Seq<(i32, i32)>,
    head: int,
    predicate: &F,
)
    requires
        probe_inv(n, start, max_d, visited, dist, queue, head),
        head == queue.len(),
        forall|k: int|
            0 <= k < head && (#[trigger] queue[k]) != start && dist[cell_idx(n, queue[k])]
                < max_d ==> predicate.ensures(
                (&grid[queue[k].1 as int]@[queue[k].0 as int],),
                false,
            ),
    ensures
        forall|u: (i32, i32)|
            in_grid(n, u) && u != start && mdist(start, u) < max_d ==> predicate.ensures(
                (&grid[u.1 as int]@[u.0 as int],),
                false,
            ),
{
    lemma_probe_exhausted(n, start, max_d, visited, dist, queue, head);
    assert forall|u: (i32, i32)|
        in_grid(n, u) && u != start && mdist(start, u) < max_d implies predicate.ensures(
        (&grid[u.1 as int]@[u.0 as int],),
        false,
    ) by {
        assert(exists|k: int|
            0 <= k < head && (#[trigger] queue[k]) == u && dist[cell_idx(n, u)] < max_d);
        let k = choose|k: int|
            0 <= k < head && (#[trigger] queue[k]) == u && dist[cell_idx(n, u)] < max_d;
        assert(queue[k] == u);
    }
}

/// Breadth-first search outward from `start`, over all tiles of the grid
/// (walkable or not), for the nearest tile the predicate accepts, the
/// start itself excluded; cells at `max_distance` steps or farther are
/// never tested.
///
/// A hit is a cell the predicate accepted, nearer in Manhattan distance
/// than every other cell it could have accepted: every strictly nearer
/// cell was tested and rejected. `None` means every cell within the probe
/// depth was tested and rejected.
#[verifier::rlimit(100)]
pub fn find_nearest<F: Fn(&Tile) -> bool>(
    grid: &Vec<Vec<Tile>>,
    start: (i32, i32),
    max_distance: usize,
    predicate: F,
) -> (r: Option<(i32, i32)>)
    requires
        grid@.len() <= 0xffff,
        grid_wf(grid@, grid@.len() as int),
        in_grid(grid@.len() as int, start),
        forall|t: &Tile| predicate.requires((t,)),
    ensures
        match r {
            Some(p) => {
                &&& in_grid(grid@.len() as int, p)
                &&& p != start
                &&& predicate.ensures((&grid@[p.1 as int]@[p.0 as int],), true)
                &&& mdist(start, p) < max_distance
                &&& forall|u: (i32, i32)|
                    in_grid(grid@.len() as int, u) && u != start && mdist(start, u) < mdist(
                        start,
                        p,
                    ) ==> predicate.ensures((&grid@[u.1 as int]@[u.0 as int],), false)
            },
            None => forall|u: (i32, i32)|
                in_grid(grid@.len() as int, u) && u != start && mdist(start, u) < max_distance
                    ==> predicate.ensures((&grid@[u.1 as int]@[u.0 as int],), false),
        },
{
    let ghost gn = grid@.len() as int;
    let n = grid.len();
    proof {
        assert(n * n < 0x1_0000_0000) by (nonlinear_arith)
            requires
                n <= 0xffff,
        {}
    }
    let nn = n * n;
    let mut visited: Vec<bool> = Vec::new();
    let mut dist: Vec<usize> = Vec::new();
    #[verifier::loop_isolation(false)]
    while visited.len() < nn
        invariant
            visited@.len() == dist@.len() <= nn,
            forall|c: int| 0 <= c < visited@.len() ==> !(#[trigger] visited@[c]),
        decreases nn - visited.len(),
    {
        visited.push(false);
        dist.push(0);
    }
    let mut queue: Vec<(i32, i32)> = Vec::new();
    let mut head: usize = 0;
    let si = cidx(n, start);
    visited.set(si, true);
    dist.set(si, 0);
    queue.push(start);
    proof {
        assert forall|p: (i32, i32)| in_grid(gn, p) && #[trigger] visited@[cell_idx(gn, p)] implies
            probe_node_inv(gn, start, max_distance as int, dist@, queue@, p) by {
            lemma_cell_idx_range(gn, p);
            if cell_idx(gn, p) == si {
                lemma_cell_idx_injective(gn, p, start);
                assert(queue@[0] == p);
                let w = seq![start];
                assert(is_free_route(gn, w, start, start) && w.len() == dist@[cell_idx(
                    gn,
                    p,
                )] + 1);
            }
        }
        assert(probe_inv(gn, start, max_distance as int, visited@, dist@, queue@, head as int));
    }
    while head < queue.len()
        invariant
            n == grid@.len(),
            gn == n as int,
            nn == n * n,
            grid_wf(grid@, gn),
            probe_inv(gn, start, max_distance as int, visited@, dist@, queue@, head as int),
            queue@.len() <= nn,
            forall|t: &Tile| predicate.requires((t,)),
            forall|k: int|
                0 <= k < head && (#[trigger] queue@[k]) != start && dist@[cell_idx(
                    gn,
                    queue@[k],
                )] < max_distance ==> predicate.ensures(
                    (&grid@[queue@[k].1 as int]@[queue@[k].0 as int],),
                    false,
                ),
        decreases nn - head,
    {
        let cur = queue[head];
        proof {
            lemma_cell_idx_range(gn, cur);
        }
        let ghost q0 = queue@;
        let ghost d0 = dist@;
        let tested = probe_admin(
            n, Ghost(start), max_distance, &mut visited, &mut dist, &mut queue, head,
        );
        proof {
            // What was tested and rejected before this dequeue stays so:
            // the queue only grew and the recorded distances of visited
            // cells are unchanged.
            assert forall|k: int|
                0 <= k < head && ((#[trigger] queue@[k]) != start) && dist@[cell_idx(
                    gn,
                    queue@[k],
                )] < max_distance implies predicate.ensures(
                (&grid@[queue@[k].1 as int]@[queue@[k].0 as int],),
                false,
            ) by {
                assert(queue@[k] == q0[k]);
                lemma_cell_idx_range(gn, q0[k]);
                assert(dist@[cell_idx(gn, q0[k])] == d0[cell_idx(gn, q0[k])]);
            }
        }
        if tested {
            let tile = &grid[cur.1 as usize][cur.0 as usize];
            let hit = predicate(tile);
            if hit && !(cur.0 == start.0 && cur.1 == start.1) {
                proof {
                    lemma_probe_hit(
                        grid@,
                        gn,
                        start,
                        max_distance as int,
                        visited@,
                        dist@,
                        queue@,
                        head as int,
                        cur,
                        &predicate,
                    );
                }
                return Some(cur);
            }
            proof {
                if cur != start {
                    assert(predicate.ensures((&grid@[cur.1 as int]@[cur.0 as int],), false));
                }
            }
        }
        head = head + 1;
        proof {
            assert forall|k: int|
                0 <= k < head && (#[trigger] queue@[k]) != start && dist@[cell_idx(
                    gn,
                    queue@[k],
                )] < max_distance implies predicate.ensures(
                (&grid@[queue@[k].1 as int]@[queue@[k].0 as int],),
                false,
            ) by {
                lemma_cell_idx_range(gn, queue@[k]);
            }
        }
    }
    proof {
        lemma_probe_none(
            grid@,
            gn,
            start,
            max_distance as int,
            visited@,
            dist@,
            queue@,
            head as int,
            &predicate,
        );
    }
    None
}

} // verus!
