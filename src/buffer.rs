use vstd::prelude::*;
use crate::polygon::{
    bounding_ring_model, index_values, lemma_prism_index_model_bounds, prism_index_model,
    prism_vertex_model, vertex_triples, Polygon, Vertex,
};

verus! {

/// The indices of `s`, each moved up by `offset`.
pub open spec fn shifted(s: Seq<int>, offset: int) -> Seq<int> {
    s.map_values(|i: int| i + offset)
}

/// What a buffer holds: the corners of the polyhedron pool and of the bounding-box pool.
pub struct PolygonBufferView<T> {
    pub polyhedron: Seq<(T, T, T)>,
    pub bounding_box: Seq<(T, T, T)>,
}

/// What a set of indices holds: the triangle indices into each pool of a buffer.
pub struct PolygonBufferIndicesView {
    pub polyhedron: Seq<int>,
    pub bounding_box: Seq<int>,
}

/// The corners that `indices` names in `vertices`, in order: three for each triangle drawn.
pub open spec fn drawn<T>(vertices: Seq<(T, T, T)>, indices: Seq<int>) -> Seq<(T, T, T)> {
    indices.map_values(|i: int| vertices[i])
}

/// A set of indices with no triangle in it.
pub open spec fn empty_indices_view() -> PolygonBufferIndicesView {
    PolygonBufferIndicesView { polyhedron: seq![], bounding_box: seq![] }
}

/// A buffer with no polygon in it.
pub open spec fn empty_buffer_view<T>() -> PolygonBufferView<T> {
    PolygonBufferView { polyhedron: seq![], bounding_box: seq![] }
}

/// Whether every index that adding `polygon` to `buffer` hands out fits a `u32`.
pub open spec fn add_fits<T>(buffer: PolygonBufferView<T>, polygon: Polygon<T>) -> bool {
    &&& polygon.points@.len() <= 0x8000_0000
    &&& buffer.polyhedron.len() + 2 * polygon.points@.len() <= 0x1_0000_0000
    &&& buffer.bounding_box.len() + 10 <= 0x1_0000_0000
}

/// The buffer after `polygon` is added: both prisms appended to their pools.
pub open spec fn added_buffer<T: Copy>(
    buffer: PolygonBufferView<T>,
    polygon: Polygon<T>,
) -> PolygonBufferView<T> {
    PolygonBufferView {
        polyhedron: buffer.polyhedron + polygon.polyhedron_model(),
        bounding_box: buffer.bounding_box + polygon.bounding_box_model(),
    }
}

/// The indices that adding `polygon` to `buffer` hands out: the prisms' own indices, moved up by
/// the length each pool had before.
pub open spec fn added_indices<T>(
    buffer: PolygonBufferView<T>,
    polygon: Polygon<T>,
) -> PolygonBufferIndicesView {
    PolygonBufferIndicesView {
        polyhedron: shifted(
            prism_index_model(polygon.points@.len() as int),
            buffer.polyhedron.len() as int,
        ),
        bounding_box: shifted(prism_index_model(5), buffer.bounding_box.len() as int),
    }
}

/// The union of two sets of indices: `a`'s triangles, then `b`'s.
pub open spec fn extended(
    a: PolygonBufferIndicesView,
    b: PolygonBufferIndicesView,
) -> PolygonBufferIndicesView {
    PolygonBufferIndicesView {
        polyhedron: a.polyhedron + b.polyhedron,
        bounding_box: a.bounding_box + b.bounding_box,
    }
}

/// A collection of polygons that can all be drawn in one call.
///
/// Adding a polygon only appends to the two vertex pools, so the indices handed out for it stay
/// valid for as long as the buffer lives.
#[derive(Clone, Debug)]
pub struct PolygonBuffer<T> {
    polyhedron_vertices: Vec<Vertex<T>>,
    bounding_box_vertices: Vec<Vertex<T>>,
}

impl<T> View for PolygonBuffer<T> {
    type V = PolygonBufferView<T>;

    closed spec fn view(&self) -> PolygonBufferView<T> {
        PolygonBufferView {
            polyhedron: vertex_triples(self.polyhedron_vertices@),
            bounding_box: vertex_triples(self.bounding_box_vertices@),
        }
    }
}

/// A set of triangle indices into a `PolygonBuffer`.
///
/// Sets are merged with `extend` to draw several polygons of one buffer at once.
#[derive(Clone, Debug)]
pub struct PolygonBufferIndices {
    polyhedron_indices: Vec<u32>,
    bounding_box_indices: Vec<u32>,
}

impl View for PolygonBufferIndices {
    type V = PolygonBufferIndicesView;

    closed spec fn view(&self) -> PolygonBufferIndicesView {
        PolygonBufferIndicesView {
            polyhedron: index_values(self.polyhedron_indices@),
            bounding_box: index_values(self.bounding_box_indices@),
        }
    }
}

/// `indices`, each with `offset` added.
fn offset_indices(indices: Vec<u32>, offset: u32) -> (r: Vec<u32>)
    requires
        forall|j: int| 0 <= j < indices@.len() ==> #[trigger] indices@[j] + offset <= u32::MAX,
    ensures
        index_values(r@) == shifted(index_values(indices@), offset as int),
{
    let mut r: Vec<u32> = Vec::new();
    let mut j: usize = 0;
    while j < indices.len()
        invariant
            j <= indices@.len(),
            r@.len() == j,
            forall|k: int| 0 <= k < indices@.len() ==> #[trigger] indices@[k] + offset <= u32::MAX,
            index_values(r@) == shifted(index_values(indices@.subrange(0, j as int)), offset as int),
        decreases indices@.len() - j,
    {
        let ghost prev = r@;
        r.push(indices[j] + offset);
        assert forall|k: int| 0 <= k < j implies #[trigger] index_values(r@)[k] == index_values(
            prev,
        )[k] by {
            assert(r@[k] == prev[k]);
        }
        assert(index_values(r@) =~= shifted(
            index_values(indices@.subrange(0, j + 1)),
            offset as int,
        ));
        j = j + 1;
    }
    assert(indices@.subrange(0, j as int) =~= indices@);
    r
}

impl<T: Copy> PolygonBuffer<T> {
    /// An empty buffer.
    pub fn new() -> (r: PolygonBuffer<T>)
        ensures
            r@ == empty_buffer_view::<T>(),
    {
        let r = PolygonBuffer { polyhedron_vertices: Vec::new(), bounding_box_vertices: Vec::new() };
        assert(r@.polyhedron =~= seq![]);
        assert(r@.bounding_box =~= seq![]);
        r
    }

    /// Adds `polygon` to this buffer and returns the indices that draw it from this buffer.
    pub fn add(&mut self, polygon: &Polygon<T>) -> (r: PolygonBufferIndices)
        requires
            add_fits(old(self)@, *polygon),
        ensures
            final(self)@ == added_buffer(old(self)@, *polygon),
            r@ == added_indices(old(self)@, *polygon),
    {
        let polyhedron_offset = self.polyhedron_vertices.len() as u32;
        let bounding_box_offset = self.bounding_box_vertices.len() as u32;

        let mut polyhedron = polygon.polyhedron_vertices();
        let mut bounding_box = polygon.bounding_box_vertices();
        proof {
            broadcast use vstd::seq_lib::group_seq_properties;
        }
        self.polyhedron_vertices.append(&mut polyhedron);
        self.bounding_box_vertices.append(&mut bounding_box);

        let polyhedron_local = polygon.polyhedron_indices();
        let bounding_box_local = polygon.bounding_box_indices();
        proof {
            lemma_prism_index_model_bounds(polygon.points@.len() as int);
            lemma_prism_index_model_bounds(5);
            assert forall|j: int| 0 <= j < polyhedron_local@.len() implies #[trigger] polyhedron_local@[j]
                + polyhedron_offset <= u32::MAX by {
                assert(index_values(polyhedron_local@)[j] == polyhedron_local@[j] as int);
            }
            assert forall|j: int| 0 <= j < bounding_box_local@.len() implies #[trigger] bounding_box_local@[j]
                + bounding_box_offset <= u32::MAX by {
                assert(index_values(bounding_box_local@)[j] == bounding_box_local@[j] as int);
            }
        }
        let r = PolygonBufferIndices {
            polyhedron_indices: offset_indices(polyhedron_local, polyhedron_offset),
            bounding_box_indices: offset_indices(bounding_box_local, bounding_box_offset),
        };
        proof {
            let n = polygon.points@.len() as int;
            if n > 0 {
                assert(polyhedron_offset as int == old(self)@.polyhedron.len());
            } else {
                assert(prism_index_model(0) =~= seq![]);
                assert(r@.polyhedron =~= added_indices(old(self)@, *polygon).polyhedron);
            }
            assert(r@.polyhedron =~= added_indices(old(self)@, *polygon).polyhedron);
            assert(r@.bounding_box =~= added_indices(old(self)@, *polygon).bounding_box);
        }
        assert(self@.polyhedron =~= added_buffer(old(self)@, *polygon).polyhedron);
        assert(self@.bounding_box =~= added_buffer(old(self)@, *polygon).bounding_box);
        r
    }
}

impl<T> PolygonBuffer<T> {
    /// The corners of the polyhedron pool, in the order that indices name them.
    pub fn polyhedron_vertices(&self) -> (r: &[Vertex<T>])
        ensures
            vertex_triples(r@) == self@.polyhedron,
    {
        self.polyhedron_vertices.as_slice()
    }

    /// The corners of the bounding-box pool, in the order that indices name them.
    pub fn bounding_box_vertices(&self) -> (r: &[Vertex<T>])
        ensures
            vertex_triples(r@) == self@.bounding_box,
    {
        self.bounding_box_vertices.as_slice()
    }
}

impl PolygonBufferIndices {
    /// The triangle indices into the polyhedron pool.
    pub fn polyhedron_indices(&self) -> (r: &[u32])
        ensures
            index_values(r@) == self@.polyhedron,
    {
        self.polyhedron_indices.as_slice()
    }

    /// The triangle indices into the bounding-box pool.
    pub fn bounding_box_indices(&self) -> (r: &[u32])
        ensures
            index_values(r@) == self@.bounding_box,
    {
        self.bounding_box_indices.as_slice()
    }

    /// An empty set of indices: drawing it draws nothing, and extending by it changes nothing.
    pub fn new() -> (r: PolygonBufferIndices)
        ensures
            r@ == empty_indices_view(),
    {
        let r = PolygonBufferIndices { polyhedron_indices: Vec::new(), bounding_box_indices: Vec::new() };
        assert(r@.polyhedron =~= empty_indices_view().polyhedron);
        assert(r@.bounding_box =~= empty_indices_view().bounding_box);
        r
    }

    /// Adds every triangle of `other` to this set, after the ones already in it.
    pub fn extend(&mut self, other: &PolygonBufferIndices)
        ensures
            final(self)@ == extended(old(self)@, other@),
    {
        self.polyhedron_indices.extend_from_slice(other.polyhedron_indices.as_slice());
        self.bounding_box_indices.extend_from_slice(other.bounding_box_indices.as_slice());
        assert(self@.polyhedron =~= old(self)@.polyhedron + other@.polyhedron);
        assert(self@.bounding_box =~= old(self)@.bounding_box + other@.bounding_box);
    }
}

/// One polygon alone in a buffer of its own, with the indices that draw it.
#[derive(Clone, Debug)]
pub struct DrapeablePolygon<T> {
    buffer: PolygonBuffer<T>,
    indices: PolygonBufferIndices,
}

impl<T: Copy> DrapeablePolygon<T> {
    pub closed spec fn buffer_spec(&self) -> PolygonBufferView<T> {
        self.buffer@
    }

    pub closed spec fn indices_spec(&self) -> PolygonBufferIndicesView {
        self.indices@
    }

    /// The polygon of the rings `points` (the exterior ring, then the interior rings) within
    /// `bounds` (`[(min_x, max_x), (min_y, max_y), (min_z, max_z)]`), in a buffer of its own.
    pub fn new_from_points(points: &[(T, T)], bounds: &[(T, T); 3]) -> (r: DrapeablePolygon<T>)
        requires
            points@.len() <= 0x8000_0000,
        ensures
            r.buffer_spec().polyhedron == prism_vertex_model(points@, bounds@[2].0, bounds@[2].1),
            r.buffer_spec().bounding_box == prism_vertex_model(
                bounding_ring_model(*bounds),
                bounds@[2].0,
                bounds@[2].1,
            ),
            r.indices_spec().polyhedron == prism_index_model(points@.len() as int),
            r.indices_spec().bounding_box == prism_index_model(5),
    {
        let polygon = Polygon::new(*bounds, vstd::slice::slice_to_vec(points));
        let mut buffer = PolygonBuffer::new();
        let indices = buffer.add(&polygon);
        proof {
            let n = points@.len() as int;
            assert(shifted(prism_index_model(n), 0) =~= prism_index_model(n));
            assert(shifted(prism_index_model(5), 0) =~= prism_index_model(5));
            assert(buffer@.polyhedron =~= polygon.polyhedron_model());
            assert(buffer@.bounding_box =~= polygon.bounding_box_model());
        }
        DrapeablePolygon { buffer, indices }
    }

    /// The buffer that holds the polygon.
    pub fn buffer(&self) -> (r: &PolygonBuffer<T>)
        ensures
            r@ == self.buffer_spec(),
    {
        &self.buffer
    }

    /// The indices that draw the polygon from its buffer.
    pub fn indices(&self) -> (r: &PolygonBufferIndices)
        ensures
            r@ == self.indices_spec(),
    {
        &self.indices
    }
}

/// The indices that `add` hands out for a polygon draw that polygon's own prisms: the same
/// triangles whether the buffer held other polygons before or was empty.
pub proof fn lemma_add_draws_polygon_alone<T: Copy>(
    batch: PolygonBufferView<T>,
    polygon: Polygon<T>,
)
    requires
        add_fits(batch, polygon),
    ensures
        drawn(added_buffer(batch, polygon).polyhedron, added_indices(batch, polygon).polyhedron)
            == drawn(polygon.polyhedron_model(), prism_index_model(polygon.points@.len() as int)),
        drawn(added_buffer(batch, polygon).bounding_box, added_indices(batch, polygon).bounding_box)
            == drawn(polygon.bounding_box_model(), prism_index_model(5)),
        drawn(added_buffer(batch, polygon).polyhedron, added_indices(batch, polygon).polyhedron)
            == drawn(
            added_buffer(empty_buffer_view(), polygon).polyhedron,
            added_indices(empty_buffer_view(), polygon).polyhedron,
        ),
        drawn(added_buffer(batch, polygon).bounding_box, added_indices(batch, polygon).bounding_box)
            == drawn(
            added_buffer(empty_buffer_view(), polygon).bounding_box,
            added_indices(empty_buffer_view(), polygon).bounding_box,
        ),
{
    let n = polygon.points@.len() as int;
    lemma_prism_index_model_bounds(n);
    lemma_prism_index_model_bounds(5);
    lemma_shifted_draws_appended(batch.polyhedron, polygon.polyhedron_model(), prism_index_model(n));
    lemma_shifted_draws_appended(
        batch.bounding_box,
        polygon.bounding_box_model(),
        prism_index_model(5),
    );
    let empty = empty_buffer_view::<T>();
    lemma_shifted_draws_appended(empty.polyhedron, polygon.polyhedron_model(), prism_index_model(n));
    lemma_shifted_draws_appended(
        empty.bounding_box,
        polygon.bounding_box_model(),
        prism_index_model(5),
    );
}

proof fn lemma_shifted_draws_appended<T>(
    before: Seq<(T, T, T)>,
    appended: Seq<(T, T, T)>,
    local: Seq<int>,
)
    requires
        forall|j: int| 0 <= j < local.len() ==> 0 <= #[trigger] local[j] < appended.len(),
    ensures
        drawn(before + appended, shifted(local, before.len() as int)) == drawn(appended, local),
{
    assert(drawn(before + appended, shifted(local, before.len() as int)) =~= drawn(appended, local));
}

/// Adding a polygon leaves what any earlier indices of the buffer draw unchanged.
pub proof fn lemma_add_keeps_drawn<T: Copy>(
    buffer: PolygonBufferView<T>,
    polygon: Polygon<T>,
    indices: PolygonBufferIndicesView,
)
    requires
        forall|j: int|
            0 <= j < indices.polyhedron.len() ==> 0 <= #[trigger] indices.polyhedron[j]
                < buffer.polyhedron.len(),
        forall|j: int|
            0 <= j < indices.bounding_box.len() ==> 0 <= #[trigger] indices.bounding_box[j]
                < buffer.bounding_box.len(),
    ensures
        drawn(added_buffer(buffer, polygon).polyhedron, indices.polyhedron) == drawn(
            buffer.polyhedron,
            indices.polyhedron,
        ),
        drawn(added_buffer(buffer, polygon).bounding_box, indices.bounding_box) == drawn(
            buffer.bounding_box,
            indices.bounding_box,
        ),
{
    assert(drawn(added_buffer(buffer, polygon).polyhedron, indices.polyhedron) =~= drawn(
        buffer.polyhedron,
        indices.polyhedron,
    ));
    assert(drawn(added_buffer(buffer, polygon).bounding_box, indices.bounding_box) =~= drawn(
        buffer.bounding_box,
        indices.bounding_box,
    ));
}

/// The empty set of indices is an identity for `extend`, on either side.
pub proof fn lemma_extend_identity(a: PolygonBufferIndicesView)
    ensures
        extended(a, empty_indices_view()) == a,
        extended(empty_indices_view(), a) == a,
{
    assert(extended(a, empty_indices_view()).polyhedron =~= a.polyhedron);
    assert(extended(a, empty_indices_view()).bounding_box =~= a.bounding_box);
    assert(extended(empty_indices_view(), a).polyhedron =~= a.polyhedron);
    assert(extended(empty_indices_view(), a).bounding_box =~= a.bounding_box);
}

/// Extending is associative: merging three sets in either grouping gives the same indices, so
/// the same multiset of indices.
pub proof fn lemma_extend_associative(
    a: PolygonBufferIndicesView,
    b: PolygonBufferIndicesView,
    c: PolygonBufferIndicesView,
)
    ensures
        extended(extended(a, b), c) == extended(a, extended(b, c)),
        extended(extended(a, b), c).polyhedron.to_multiset() == extended(
            a,
            extended(b, c),
        ).polyhedron.to_multiset(),
        extended(extended(a, b), c).bounding_box.to_multiset() == extended(
            a,
            extended(b, c),
        ).bounding_box.to_multiset(),
{
    assert(extended(extended(a, b), c).polyhedron =~= extended(a, extended(b, c)).polyhedron);
    assert(extended(extended(a, b), c).bounding_box =~= extended(a, extended(b, c)).bounding_box);
}

/// Extending is commutative up to order: `a` then `b` holds the same multiset of indices as `b`
/// then `a`.
pub proof fn lemma_extend_commutes_as_multiset(
    a: PolygonBufferIndicesView,
    b: PolygonBufferIndicesView,
)
    ensures
        extended(a, b).polyhedron.to_multiset() == extended(b, a).polyhedron.to_multiset(),
        extended(a, b).bounding_box.to_multiset() == extended(b, a).bounding_box.to_multiset(),
{
    vstd::seq_lib::lemma_multiset_commutative(a.polyhedron, b.polyhedron);
    vstd::seq_lib::lemma_multiset_commutative(b.polyhedron, a.polyhedron);
    vstd::seq_lib::lemma_multiset_commutative(a.bounding_box, b.bounding_box);
    vstd::seq_lib::lemma_multiset_commutative(b.bounding_box, a.bounding_box);
}

} // verus!
