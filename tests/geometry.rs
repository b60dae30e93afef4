use gfx_draping::{DrapeablePolygon, Polygon, PolygonBuffer, PolygonBufferIndices, Vertex};

fn square() -> Vec<(f32, f32)> {
    vec![(0.0, 0.0), (1.0, 0.0), (1.0, 1.0), (0.0, 1.0), (0.0, 0.0)]
}

fn positions<T: Copy>(vertices: &[Vertex<T>]) -> Vec<[T; 3]> {
    vertices.iter().map(|v| v.position).collect()
}

fn drawn<T: Copy>(vertices: &[Vertex<T>], indices: &[u32]) -> Vec<[T; 3]> {
    indices.iter().map(|&i| vertices[i as usize].position).collect()
}

fn cross(a: [i64; 3], b: [i64; 3], c: [i64; 3]) -> [i64; 3] {
    let u = [b[0] - a[0], b[1] - a[1], b[2] - a[2]];
    let v = [c[0] - a[0], c[1] - a[1], c[2] - a[2]];
    [u[1] * v[2] - u[2] * v[1], u[2] * v[0] - u[0] * v[2], u[0] * v[1] - u[1] * v[0]]
}

#[test]
fn prism_sizes_for_rings_of_three_or_more() {
    for n in 3u32..12 {
        let points: Vec<(f32, f32)> = (0..n).map(|i| (i as f32, (i * i) as f32)).collect();
        let vertices = Polygon::prism_vertices(&points, -1.0, 2.0);
        assert_eq!(vertices.len(), 2 * n as usize);
        let indices = Polygon::<f32>::prism_indices(n);
        assert_eq!(indices.len() % 3, 0);
        assert!(indices.iter().all(|&i| i < 2 * n));
        assert_eq!(indices.len(), 6 * n as usize + 6 * (n as usize - 2));
    }
}

#[test]
fn square_ring_prism() {
    let vertices = Polygon::prism_vertices(&square(), 0.0, 1.0);
    assert_eq!(
        positions(&vertices),
        vec![
            [0.0, 0.0, 0.0],
            [0.0, 0.0, 1.0],
            [1.0, 0.0, 0.0],
            [1.0, 0.0, 1.0],
            [1.0, 1.0, 0.0],
            [1.0, 1.0, 1.0],
            [0.0, 1.0, 0.0],
            [0.0, 1.0, 1.0],
            [0.0, 0.0, 0.0],
            [0.0, 0.0, 1.0],
        ]
    );
    let indices = Polygon::<f32>::prism_indices(5);
    assert_eq!(
        indices,
        vec![
            0, 2, 1, 2, 3, 1, //
            2, 4, 3, 4, 5, 3, 0, 4, 2, 1, 3, 5, //
            4, 6, 5, 6, 7, 5, 0, 6, 4, 1, 5, 7, //
            6, 8, 7, 8, 9, 7, 0, 8, 6, 1, 7, 9, //
            8, 0, 9, 0, 1, 9,
        ]
    );
    assert_eq!(indices.len(), 48);
}

#[test]
fn prism_of_degenerate_rings() {
    assert!(Polygon::<f32>::prism_indices(0).is_empty());
    assert_eq!(Polygon::<f32>::prism_indices(1), vec![0, 0, 1, 0, 1, 1]);
    assert_eq!(Polygon::<f32>::prism_indices(2), vec![0, 2, 1, 2, 3, 1, 2, 0, 3, 0, 1, 3]);
    assert!(Polygon::prism_vertices(&[] as &[(f32, f32)], 0.0, 1.0).is_empty());
}

#[test]
fn polygon_prisms_use_bounds() {
    let polygon = Polygon::new([(0.0, 2.0), (-1.0, 3.0), (5.0, 7.0)], square());
    assert_eq!(
        positions(&polygon.bounding_box_vertices()),
        vec![
            [0.0, -1.0, 5.0],
            [0.0, -1.0, 7.0],
            [2.0, -1.0, 5.0],
            [2.0, -1.0, 7.0],
            [2.0, 3.0, 5.0],
            [2.0, 3.0, 7.0],
            [0.0, 3.0, 5.0],
            [0.0, 3.0, 7.0],
            [0.0, -1.0, 5.0],
            [0.0, -1.0, 7.0],
        ]
    );
    assert_eq!(polygon.bounding_box_indices(), Polygon::<f32>::prism_indices(5));
    let poly = positions(&polygon.polyhedron_vertices());
    assert_eq!(poly.len(), 10);
    assert_eq!(poly[2], [1.0, 0.0, 5.0]);
    assert_eq!(poly[3], [1.0, 0.0, 7.0]);
    assert_eq!(polygon.polyhedron_indices(), Polygon::<f32>::prism_indices(5));
}

#[test]
fn polygon_with_hole_prisms_all_points() {
    let mut points = vec![(0.0, 0.0), (4.0, 0.0), (4.0, 4.0), (0.0, 4.0), (0.0, 0.0)];
    points.extend(vec![(1.0, 1.0), (1.0, 2.0), (2.0, 2.0), (1.0, 1.0)]);
    let polygon = Polygon::new([(0.0, 4.0), (0.0, 4.0), (0.0, 1.0)], points);
    assert_eq!(polygon.polyhedron_vertices().len(), 18);
    assert_eq!(polygon.polyhedron_indices(), Polygon::<f32>::prism_indices(9));
}

#[test]
fn buffered_alone_or_in_batch_draws_the_same() {
    let first = Polygon::new([(10.0, 12.0), (10.0, 12.0), (0.0, 3.0)], vec![
        (10.0, 10.0),
        (12.0, 10.0),
        (11.0, 12.0),
        (10.0, 10.0),
    ]);
    let second = Polygon::new([(0.0, 1.0), (0.0, 1.0), (-1.0, 1.0)], square());

    let mut alone = PolygonBuffer::new();
    let alone_indices = alone.add(&second);

    let mut batch = PolygonBuffer::new();
    let first_indices = batch.add(&first);
    let batch_indices = batch.add(&second);

    assert_eq!(batch.polyhedron_vertices().len(), 18);
    assert_eq!(batch.bounding_box_vertices().len(), 20);
    assert_eq!(batch_indices.polyhedron_indices()[0], 8);
    assert_eq!(batch_indices.bounding_box_indices()[0], 10);
    assert_eq!(
        drawn(batch.polyhedron_vertices(), batch_indices.polyhedron_indices()),
        drawn(alone.polyhedron_vertices(), alone_indices.polyhedron_indices())
    );
    assert_eq!(
        drawn(batch.bounding_box_vertices(), batch_indices.bounding_box_indices()),
        drawn(alone.bounding_box_vertices(), alone_indices.bounding_box_indices())
    );

    let mut lone_first = PolygonBuffer::new();
    let lone_first_indices = lone_first.add(&first);
    assert_eq!(
        drawn(batch.polyhedron_vertices(), first_indices.polyhedron_indices()),
        drawn(lone_first.polyhedron_vertices(), lone_first_indices.polyhedron_indices())
    );
}

#[test]
fn add_shifts_indices_by_pool_lengths() {
    let polygon = Polygon::new([(0.0, 1.0), (0.0, 1.0), (0.0, 1.0)], square());
    let mut buffer = PolygonBuffer::new();
    let a = buffer.add(&polygon);
    let b = buffer.add(&polygon);
    let local = Polygon::<f32>::prism_indices(5);
    assert_eq!(a.polyhedron_indices(), &local[..]);
    let shifted: Vec<u32> = local.iter().map(|i| i + 10).collect();
    assert_eq!(b.polyhedron_indices(), &shifted[..]);
    assert_eq!(b.bounding_box_indices(), &shifted[..]);
}

#[test]
fn empty_indices_are_identity_for_extend() {
    let polygon = Polygon::new([(0.0, 1.0), (0.0, 1.0), (0.0, 1.0)], square());
    let mut buffer = PolygonBuffer::new();
    let a = buffer.add(&polygon);

    let empty = PolygonBufferIndices::new();
    assert!(empty.polyhedron_indices().is_empty());
    assert!(empty.bounding_box_indices().is_empty());

    let mut right = a.clone();
    right.extend(&PolygonBufferIndices::new());
    assert_eq!(right.polyhedron_indices(), a.polyhedron_indices());
    assert_eq!(right.bounding_box_indices(), a.bounding_box_indices());

    let mut left = PolygonBufferIndices::new();
    left.extend(&a);
    assert_eq!(left.polyhedron_indices(), a.polyhedron_indices());
    assert_eq!(left.bounding_box_indices(), a.bounding_box_indices());
}

#[test]
fn extend_concatenates_and_is_associative() {
    let polygon = Polygon::new([(0.0, 1.0), (0.0, 1.0), (0.0, 1.0)], square());
    let triangle = Polygon::new([(0.0, 1.0), (0.0, 1.0), (0.0, 1.0)], vec![
        (0.0, 0.0),
        (1.0, 0.0),
        (0.0, 1.0),
        (0.0, 0.0),
    ]);
    let mut buffer = PolygonBuffer::new();
    let a = buffer.add(&polygon);
    let b = buffer.add(&triangle);
    let c = buffer.add(&polygon);

    let mut ab = a.clone();
    ab.extend(&b);
    let expected: Vec<u32> =
        a.polyhedron_indices().iter().chain(b.polyhedron_indices()).copied().collect();
    assert_eq!(ab.polyhedron_indices(), &expected[..]);

    let mut ab_c = ab.clone();
    ab_c.extend(&c);
    let mut bc = b.clone();
    bc.extend(&c);
    let mut a_bc = a.clone();
    a_bc.extend(&bc);
    assert_eq!(ab_c.polyhedron_indices(), a_bc.polyhedron_indices());
    assert_eq!(ab_c.bounding_box_indices(), a_bc.bounding_box_indices());

    let mut ba = b.clone();
    ba.extend(&a);
    let mut x = ab.polyhedron_indices().to_vec();
    let mut y = ba.polyhedron_indices().to_vec();
    x.sort();
    y.sort();
    assert_eq!(x, y);
}

#[test]
fn reversed_ring_flips_side_normals() {
    let ring: Vec<(i64, i64)> = vec![(0, 0), (3, 0), (3, 2), (0, 2), (0, 0)];
    let reversed: Vec<(i64, i64)> = ring.iter().rev().copied().collect();
    let n = ring.len();
    let forward = Polygon::prism_vertices(&ring, 0, 5);
    let backward = Polygon::prism_vertices(&reversed, 0, 5);
    assert_eq!(forward.len(), backward.len());
    let indices = Polygon::<i64>::prism_indices(n as u32);

    // The offset of each point's block of indices.
    let mut starts = vec![0usize];
    for i in 0..n {
        let caps = if i != 0 && i != n - 1 { 6 } else { 0 };
        starts.push(starts[i] + 6 + caps);
    }
    let normal = |vertices: &[Vertex<i64>], start: usize, t: usize| {
        let at = |k: usize| vertices[indices[start + 3 * t + k] as usize].position;
        cross(at(0), at(1), at(2))
    };
    for i in 0..n {
        let j = if i == n - 1 { n - 1 } else { n - 2 - i };
        for t in 0..2 {
            let f = normal(&forward, starts[j], t);
            let b = normal(&backward, starts[i], t);
            assert_eq!(b, [-f[0], -f[1], -f[2]]);
        }
    }
    // The wall along the first edge, from (0, 0) to (3, 0), faces away from the interior.
    assert_eq!(normal(&forward, starts[0], 0), [0, -15, 0]);
    assert_eq!(normal(&backward, starts[n - 2], 0), [0, 15, 0]);
}

#[test]
fn drapeable_polygon_holds_one_polygon() {
    let drapeable = DrapeablePolygon::new_from_points(&square(), &[(0.0, 1.0), (0.0, 1.0), (2.0, 3.0)]);
    assert_eq!(drapeable.buffer().polyhedron_vertices().len(), 10);
    assert_eq!(drapeable.buffer().bounding_box_vertices().len(), 10);
    assert_eq!(drapeable.buffer().polyhedron_vertices()[1].position, [0.0, 0.0, 3.0]);
    assert_eq!(drapeable.indices().polyhedron_indices(), &Polygon::<f32>::prism_indices(5)[..]);
    assert_eq!(drapeable.indices().bounding_box_indices(), &Polygon::<f32>::prism_indices(5)[..]);
}
