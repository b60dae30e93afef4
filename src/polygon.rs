use vstd::prelude::*;

verus! {

/// A corner of a prism: a position in 3D space.
#[derive(Clone, Copy, Debug)]
pub struct Vertex<T> {
    pub position: [T; 3],
}

/// The corner `(x, y, z)` as a triple.
pub open spec fn vertex_triple<T>(v: Vertex<T>) -> (T, T, T) {
    (v.position@[0], v.position@[1], v.position@[2])
}

/// The corners of the prism over `points` between heights `lo` and `hi`: for the `i`th point,
/// the corner at `lo` stands at `2 * i` and the corner at `hi` at `2 * i + 1`.
pub open spec fn prism_vertex_model<T>(points: Seq<(T, T)>, lo: T, hi: T) -> Seq<(T, T, T)> {
    Seq::new(
        2 * points.len(),
        |k: int|
            if k % 2 == 0 {
                (points[k / 2].0, points[k / 2].1, lo)
            } else {
                (points[k / 2].0, points[k / 2].1, hi)
            },
    )
}

/// The corners of `vs` as triples.
pub open spec fn vertex_triples<T>(vs: Seq<Vertex<T>>) -> Seq<(T, T, T)> {
    vs.map_values(|v: Vertex<T>| vertex_triple(v))
}

/// The indices that the `i`th point of a ring of `n` points contributes: the two triangles of
/// the side quad from this point to the next, then, for every point but the first and the last,
/// a bottom and a top cap triangle fanned from the first point.
pub open spec fn prism_index_block(n: int, i: int) -> Seq<int> {
    let below = 2 * i;
    let above = below + 1;
    let next_below = 2 * ((i + 1) % n);
    let next_above = next_below + 1;
    let side = seq![below, next_below, above, next_below, next_above, above];
    if i != 0 && i != n - 1 {
        side + seq![0, next_below, below, 1, above, next_above]
    } else {
        side
    }
}

/// The blocks of the first `k` points of a ring of `n` points, in order.
pub open spec fn prism_index_prefix(n: int, k: int) -> Seq<int>
    decreases k,
{
    if k <= 0 {
        seq![]
    } else {
        prism_index_prefix(n, k - 1) + prism_index_block(n, k - 1)
    }
}

/// The triangle indices of the prism over a ring of `n` points.
pub open spec fn prism_index_model(n: int) -> Seq<int> {
    prism_index_prefix(n, n)
}

/// The indices of `s` as integers.
pub open spec fn index_values(s: Seq<u32>) -> Seq<int> {
    s.map_values(|x: u32| x as int)
}

proof fn lemma_prism_index_prefix_bounds(n: int, k: int)
    requires
        0 <= k <= n,
    ensures
        prism_index_prefix(n, k).len() % 3 == 0,
        forall|j: int|
            0 <= j < prism_index_prefix(n, k).len() ==> 0 <= #[trigger] prism_index_prefix(n, k)[j]
                < 2 * n,
    decreases k,
{
    if k > 0 {
        lemma_prism_index_prefix_bounds(n, k - 1);
        let prev = prism_index_prefix(n, k - 1);
        let block = prism_index_block(n, k - 1);
        assert(0 <= (k - 1 + 1) % n < n);
        assert forall|j: int| 0 <= j < block.len() implies 0 <= #[trigger] block[j] < 2 * n by {}
        assert forall|j: int|
            0 <= j < prism_index_prefix(n, k).len() implies 0 <= #[trigger] prism_index_prefix(
                n,
                k,
            )[j] < 2 * n by {
            if j < prev.len() {
                assert(prism_index_prefix(n, k)[j] == prev[j]);
            } else {
                assert(prism_index_prefix(n, k)[j] == block[j - prev.len()]);
            }
        }
    }
}

/// Every index of the prism over a ring of `n` points names one of its `2 * n` corners, and the
/// indices come in whole triangles.
pub proof fn lemma_prism_index_model_bounds(n: int)
    requires
        0 <= n,
    ensures
        prism_index_model(n).len() % 3 == 0,
        forall|j: int|
            0 <= j < prism_index_model(n).len() ==> 0 <= #[trigger] prism_index_model(n)[j] < 2 * n,
{
    lemma_prism_index_prefix_bounds(n, n);
}

/// The normal `(b - a) x (c - a)` of the triangle `(a, b, c)`: its direction tells the
/// triangle's winding.
pub open spec fn triangle_normal(a: (int, int, int), b: (int, int, int), c: (int, int, int)) -> (
    int,
    int,
    int,
) {
    let (ux, uy, uz) = (b.0 - a.0, b.1 - a.1, b.2 - a.2);
    let (vx, vy, vz) = (c.0 - a.0, c.1 - a.1, c.2 - a.2);
    (uy * vz - uz * vy, uz * vx - ux * vz, ux * vy - uy * vx)
}

pub open spec fn negated(v: (int, int, int)) -> (int, int, int) {
    (-v.0, -v.1, -v.2)
}

/// The normal of side triangle `t` (0 or 1) of the quad that the `i`th point of a ring of `n`
/// points contributes, over the prism corners `vertices`.
pub open spec fn side_triangle_normal(vertices: Seq<(int, int, int)>, n: int, i: int, t: int) -> (
    int,
    int,
    int,
) {
    let block = prism_index_block(n, i);
    triangle_normal(vertices[block[3 * t]], vertices[block[3 * t + 1]], vertices[block[3 * t + 2]])
}

/// The normal of a wall along the edge from `a` to `b` between heights `lo` and `hi`: horizontal,
/// on the right of the edge when `lo < hi`.
pub open spec fn wall_normal(a: (int, int), b: (int, int), lo: int, hi: int) -> (int, int, int) {
    ((b.1 - a.1) * (hi - lo), (a.0 - b.0) * (hi - lo), 0)
}

/// The position in a ring of `n` points of the quad that runs along the same edge as quad `i`
/// of the reversed ring.
pub open spec fn mirrored_side(n: int, i: int) -> int {
    if i == n - 1 {
        n - 1
    } else {
        n - 2 - i
    }
}

proof fn lemma_side_triangle_normal(points: Seq<(int, int)>, lo: int, hi: int, i: int, t: int)
    requires
        0 <= i < points.len(),
        0 <= t < 2,
    ensures
        side_triangle_normal(prism_vertex_model(points, lo, hi), points.len() as int, i, t)
            == wall_normal(points[i], points[(i + 1) % (points.len() as int)], lo, hi),
{
    let n = points.len() as int;
    let vs = prism_vertex_model(points, lo, hi);
    let k = (i + 1) % n;
    assert(0 <= k < n);
    let (ax, ay) = points[i];
    let (bx, by) = points[k];
    assert(vs[2 * i] == (ax, ay, lo));
    assert(vs[2 * i + 1] == (ax, ay, hi));
    assert(vs[2 * k] == (bx, by, lo));
    assert(vs[2 * k + 1] == (bx, by, hi));
    let block = prism_index_block(n, i);
    assert(block[0] == 2 * i && block[1] == 2 * k && block[2] == 2 * i + 1);
    assert(block[3] == 2 * k && block[4] == 2 * k + 1 && block[5] == 2 * i + 1);
    let h = hi - lo;
    assert((by - ay) * h - 0 * 0 == (by - ay) * h) by (nonlinear_arith);
    assert(0 * 0 - (bx - ax) * h == (ax - bx) * h) by (nonlinear_arith);
    assert((bx - ax) * 0 - (by - ay) * 0 == 0) by (nonlinear_arith);
    assert(0 * (ay - by + h) - h * (ay - by) == (by - ay) * h) by (nonlinear_arith);
    assert(h * (ax - bx + 0) - 0 * h == (ax - bx) * h) by (nonlinear_arith);
    assert(0 * (ay - by) - 0 * (ax - bx) == 0) by (nonlinear_arith);
}

/// Reversing a ring keeps the number of prism corners and the index pattern, and flips every
/// side triangle: side triangle `t` of quad `i` over the reversed ring has exactly the opposite
/// normal of side triangle `t` of the quad along the same edge over the ring.
pub proof fn lemma_reversed_ring_flips_sides(
    points: Seq<(int, int)>,
    lo: int,
    hi: int,
    i: int,
    t: int,
)
    requires
        2 <= points.len(),
        0 <= i < points.len(),
        0 <= t < 2,
    ensures
        prism_vertex_model(points.reverse(), lo, hi).len() == prism_vertex_model(
            points,
            lo,
            hi,
        ).len(),
        side_triangle_normal(
            prism_vertex_model(points.reverse(), lo, hi),
            points.len() as int,
            i,
            t,
        ) == negated(
            side_triangle_normal(
                prism_vertex_model(points, lo, hi),
                points.len() as int,
                mirrored_side(points.len() as int, i),
                t,
            ),
        ),
{
    let n = points.len() as int;
    let q = points.reverse();
    let j = mirrored_side(n, i);
    assert(q.len() == n);
    lemma_side_triangle_normal(q, lo, hi, i, t);
    lemma_side_triangle_normal(points, lo, hi, j, t);
    let a = points[j];
    let b = points[(j + 1) % n];
    if i == n - 1 {
        vstd::arithmetic::div_mod::lemma_mod_self_0(n);
        assert(q[i] == points[0]);
        assert(q[0] == points[n - 1]);
    } else {
        vstd::arithmetic::div_mod::lemma_small_mod((i + 1) as nat, n as nat);
        vstd::arithmetic::div_mod::lemma_small_mod((j + 1) as nat, n as nat);
        assert(q[i] == points[j + 1]);
        assert(q[i + 1] == points[j]);
    }
    let h = hi - lo;
    assert((a.1 - b.1) * h == -((b.1 - a.1) * h)) by (nonlinear_arith);
    assert((b.0 - a.0) * h == -((a.0 - b.0) * h)) by (nonlinear_arith);
}

/// The closed rectangle ring around `bounds[0]` (x) and `bounds[1]` (y), counter-clockwise from
/// the lower-left corner.
pub open spec fn bounding_ring_model<T>(bounds: [(T, T); 3]) -> Seq<(T, T)> {
    let (x_min, x_max) = bounds@[0];
    let (y_min, y_max) = bounds@[1];
    seq![(x_min, y_min), (x_max, y_min), (x_max, y_max), (x_min, y_max), (x_min, y_min)]
}

/// A polygon with an axis-aligned bounding prism.
#[derive(Clone, Debug)]
pub struct Polygon<T> {
    /// `(min, max)` along x, along y, and the height range.
    pub bounds: [(T, T); 3],
    /// The exterior ring followed by the interior rings.
    pub points: Vec<(T, T)>,
}

impl<T: Copy> Polygon<T> {
    /// The corners of the polyhedron prism: one pair per point, between the height bounds.
    pub open spec fn polyhedron_model(&self) -> Seq<(T, T, T)> {
        prism_vertex_model(self.points@, self.bounds@[2].0, self.bounds@[2].1)
    }

    /// The corners of the prism over the bounding rectangle, between the height bounds.
    pub open spec fn bounding_box_model(&self) -> Seq<(T, T, T)> {
        prism_vertex_model(bounding_ring_model(self.bounds), self.bounds@[2].0, self.bounds@[2].1)
    }

    /// A polygon with `bounds` as `[(min_x, max_x), (min_y, max_y), (min_z, max_z)]` and
    /// `points` as an exterior ring followed by any interior rings.
    ///
    /// A ring is closed: its first and last point are equal. The exterior ring goes
    /// counter-clockwise and the interior rings clockwise.
    pub fn new(bounds: [(T, T); 3], points: Vec<(T, T)>) -> (r: Polygon<T>)
        ensures
            r.bounds == bounds,
            r.points@ == points@,
    {
        Polygon { bounds, points }
    }

    /// The corners of the prism over the bounding rectangle.
    pub fn bounding_box_vertices(&self) -> (r: Vec<Vertex<T>>)
        ensures
            vertex_triples(r@) == self.bounding_box_model(),
    {
        let (x_min, x_max) = self.bounds[0];
        let (y_min, y_max) = self.bounds[1];
        let (z_min, z_max) = self.bounds[2];
        let bounding_ring = vec![
            (x_min, y_min),
            (x_max, y_min),
            (x_max, y_max),
            (x_min, y_max),
            (x_min, y_min),
        ];
        assert(bounding_ring@ =~= bounding_ring_model(self.bounds));
        Self::prism_vertices(bounding_ring.as_slice(), z_min, z_max)
    }

    /// The triangles of the prism over the bounding rectangle, a closed ring of five points.
    pub fn bounding_box_indices(&self) -> (r: Vec<u32>)
        ensures
            index_values(r@) == prism_index_model(5),
    {
        Self::prism_indices(5)
    }

    /// The corners of the prism over the polygon's rings.
    pub fn polyhedron_vertices(&self) -> (r: Vec<Vertex<T>>)
        ensures
            vertex_triples(r@) == self.polyhedron_model(),
    {
        let (z_min, z_max) = self.bounds[2];
        Self::prism_vertices(self.points.as_slice(), z_min, z_max)
    }

    /// The triangles of the prism over the polygon's rings, all points taken as one ring.
    pub fn polyhedron_indices(&self) -> (r: Vec<u32>)
        requires
            self.points@.len() <= 0x8000_0000,
        ensures
            index_values(r@) == prism_index_model(self.points@.len() as int),
    {
        Self::prism_indices(self.points.len() as u32)
    }

    /// For each of `points`, in order, its corner at the lower height and then its corner at
    /// the upper height.
    pub fn prism_vertices(points: &[(T, T)], height_lower_bound: T, height_upper_bound: T) -> (r:
        Vec<Vertex<T>>)
        ensures
            r@.len() == 2 * points@.len(),
            vertex_triples(r@) == prism_vertex_model(points@, height_lower_bound, height_upper_bound),
    {
        let mut r: Vec<Vertex<T>> = Vec::new();
        let mut i: usize = 0;
        while i < points.len()
            invariant
                i <= points@.len(),
                r@.len() == 2 * i,
                vertex_triples(r@) == prism_vertex_model(
                    points@.subrange(0, i as int),
                    height_lower_bound,
                    height_upper_bound,
                ),
            decreases points@.len() - i,
        {
            let (x, y) = points[i];
            let below = Vertex { position: [x, y, height_lower_bound] };
            let above = Vertex { position: [x, y, height_upper_bound] };
            r.push(below);
            r.push(above);
            proof {
                let old_model = prism_vertex_model(
                    points@.subrange(0, i as int),
                    height_lower_bound,
                    height_upper_bound,
                );
                let new_model = prism_vertex_model(
                    points@.subrange(0, i + 1),
                    height_lower_bound,
                    height_upper_bound,
                );
                assert forall|k: int| 0 <= k < 2 * i implies new_model[k] == old_model[k] by {
                    assert(k / 2 < i);
                }
                assert(new_model[2 * i] == (x, y, height_lower_bound));
                assert(new_model[2 * i + 1] == (x, y, height_upper_bound));
                assert(vertex_triples(r@) =~= new_model);
            }
            i = i + 1;
        }
        r
    }

    /// The triangles of the vertical prism over a ring of `num_points` points, as indices into
    /// the corners that `prism_vertices` lays out.
    ///
    /// The caps are a fan from the first point, which covers a convex ring only.
    pub fn prism_indices(num_points: u32) -> (r: Vec<u32>)
        requires
            num_points <= 0x8000_0000,
        ensures
            index_values(r@) == prism_index_model(num_points as int),
            r@.len() % 3 == 0,
            forall|j: int| 0 <= j < r@.len() ==> #[trigger] r@[j] < 2 * num_points,
    {
        let n = num_points;
        let mut r: Vec<u32> = Vec::new();
        let mut index: u32 = 0;
        while index < n
            invariant
                index <= n <= 0x8000_0000,
                index_values(r@) == prism_index_prefix(n as int, index as int),
            decreases n - index,
        {
            let below_index = 2 * index;
            let above_index = below_index + 1;
            let after_below_index = 2 * ((1 + index) % n);
            let after_above_index = after_below_index + 1;

            // On an exterior ring, whose points go counter-clockwise, this face faces outward;
            // on an interior ring, whose points go clockwise, it faces inward.
            r.push(below_index);
            r.push(after_below_index);
            r.push(above_index);
            r.push(after_below_index);
            r.push(after_above_index);
            r.push(above_index);

            if index != 0 && index != n - 1 {
                // The top cap faces upward; the bottom cap, downward.
                r.push(0);
                r.push(after_below_index);
                r.push(below_index);
                r.push(1);
                r.push(above_index);
                r.push(after_above_index);
            }
            assert(index_values(r@) =~= prism_index_prefix(n as int, index + 1));
            index = index + 1;
        }
        proof {
            lemma_prism_index_model_bounds(n as int);
            assert forall|j: int| 0 <= j < r@.len() implies #[trigger] r@[j] < 2 * num_points by {
                assert(index_values(r@)[j] == r@[j] as int);
            }
        }
        r
    }
}

} // verus!
