use tiled_ground::fraction::Fraction;
use tiled_ground::ground::{generate_tile, MapParams};
use tiled_ground::mesh::{ground_mesh, MeshBuffer, GROUND_VERTICES, VERTICES_PER_TILE};
use tiled_ground::point::Point3;
use tiled_ground::tile::{plane_positions_and_uvs, Tile};

fn p(x: i32, y: i32, z: i32) -> Point3 {
    Point3 { x, y, z }
}

fn demo_params() -> MapParams {
    MapParams::new(20, -10).unwrap()
}

#[test]
fn new_mesh_is_empty() {
    let mesh = MeshBuffer::new();
    assert!(mesh.positions.is_empty());
    assert!(mesh.uvs.is_empty());
}

#[test]
fn push_tile_appends_six_and_keeps_the_rest() {
    let first = Tile { a: p(1, 0, 0), b: p(2, 0, 0), c: p(3, 0, 0), d: p(4, 0, 0) };
    let second = Tile { a: p(0, 1, 1), b: p(0, 2, 2), c: p(0, 3, 3), d: p(0, 4, 4) };
    let mut mesh = MeshBuffer::new();
    mesh.push_tile(&first, 20, -10);
    assert_eq!(mesh.positions.len(), 6);
    assert_eq!(mesh.uvs.len(), 6);
    let before = (mesh.positions.clone(), mesh.uvs.clone());
    mesh.push_tile(&second, 20, -10);
    assert_eq!(mesh.positions.len(), 12);
    assert_eq!(mesh.uvs.len(), 12);
    assert_eq!(mesh.positions[..6], before.0[..]);
    assert_eq!(mesh.uvs[..6], before.1[..]);
    let (positions, uvs) =
        plane_positions_and_uvs(second.a, second.b, second.c, second.d, 20, -10);
    assert_eq!(mesh.positions[6..], positions[..]);
    assert_eq!(mesh.uvs[6..], uvs[..]);
}

#[test]
fn ground_has_twenty_four_vertices() {
    let mesh = ground_mesh(&demo_params());
    assert_eq!(mesh.positions.len(), 24);
    assert_eq!(mesh.uvs.len(), 24);
    assert_eq!(GROUND_VERTICES, 24);
    assert_eq!(VERTICES_PER_TILE, 6);
}

#[test]
fn ground_positions_tile_by_tile() {
    let mesh = ground_mesh(&demo_params());
    let expected: Vec<Point3> = vec![
        p(5, 5, -5), p(-5, 0, -5), p(-5, 0, 5),
        p(-5, 0, 5), p(5, 0, 5), p(5, 5, -5),
        p(5, 5, -5), p(5, 0, 5), p(15, 0, 5),
        p(15, 0, 5), p(15, 0, -5), p(5, 5, -5),
        p(15, 0, -15), p(5, 0, -15), p(5, 5, -5),
        p(5, 5, -5), p(15, 0, -5), p(15, 0, -15),
        p(-5, 0, -15), p(-5, 0, -5), p(5, 5, -5),
        p(5, 5, -5), p(5, 0, -15), p(-5, 0, -15),
    ];
    assert_eq!(mesh.positions, expected);
}

#[test]
fn ground_holds_each_tile_as_two_triangles() {
    let params = demo_params();
    let mesh = ground_mesh(&params);
    for index in 0..4usize {
        let t = generate_tile(&params, index).unwrap();
        let at: usize = 6 * index;
        assert_eq!(mesh.positions[at..at + 3], [t.a, t.b, t.c]);
        assert_eq!(mesh.positions[at + 3..at + 6], [t.c, t.d, t.a]);
        let (positions, uvs) = plane_positions_and_uvs(t.a, t.b, t.c, t.d, 20, -10);
        assert_eq!(mesh.positions[at..at + 6], positions[..]);
        assert_eq!(mesh.uvs[at..at + 6], uvs[..]);
    }
}

#[test]
fn ground_uvs_follow_the_positions() {
    let mesh = ground_mesh(&demo_params());
    for i in 0..24usize {
        let position = mesh.positions[i];
        assert_eq!(mesh.uvs[i].u, Fraction { num: position.z as i64 + 10, den: 20 });
        assert_eq!(mesh.uvs[i].v, Fraction { num: position.x as i64 + 10, den: 20 });
    }
}

#[test]
fn ground_uvs_match_the_formula_in_floats() {
    let map_side_len: f32 = 10.0;
    let min_x: f32 = -5.0;
    let mesh = ground_mesh(&demo_params());
    for i in 0..24usize {
        let x: f32 = mesh.positions[i].x as f32 / 2.0;
        let z: f32 = mesh.positions[i].z as f32 / 2.0;
        let u: f32 = mesh.uvs[i].u.num as f32 / mesh.uvs[i].u.den as f32;
        let v: f32 = mesh.uvs[i].v.num as f32 / mesh.uvs[i].v.den as f32;
        assert!((u - (z + min_x.abs()) / map_side_len).abs() <= 1e-6);
        assert!((v - (x + min_x.abs()) / map_side_len).abs() <= 1e-6);
    }
}

#[test]
fn ground_uvs_use_the_magnitude_of_min_x() {
    let below = ground_mesh(&MapParams::new(20, -10).unwrap());
    let above = ground_mesh(&MapParams::new(20, 10).unwrap());
    assert_eq!(below.uvs, above.uvs);
    let shifted = ground_mesh(&MapParams::new(20, -30).unwrap());
    assert_eq!(shifted.positions, below.positions);
    assert_eq!(shifted.uvs[0].u, Fraction { num: 25, den: 20 });
    assert_eq!(shifted.uvs[0].v, Fraction { num: 35, den: 20 });
}

#[test]
fn ground_spans_a_square_as_wide_as_the_map() {
    let params = demo_params();
    let mesh = ground_mesh(&params);
    let min_x: i32 = mesh.positions.iter().map(|q| q.x).min().unwrap();
    let max_x: i32 = mesh.positions.iter().map(|q| q.x).max().unwrap();
    let min_z: i32 = mesh.positions.iter().map(|q| q.z).min().unwrap();
    let max_z: i32 = mesh.positions.iter().map(|q| q.z).max().unwrap();
    assert_eq!((min_x, max_x), (-5, 15));
    assert_eq!((min_z, max_z), (-15, 5));
    assert_eq!(max_x - min_x, params.map_side_len());
    assert_eq!(max_z - min_z, params.map_side_len());
}

#[test]
fn ground_triangles_cover_the_square_once() {
    let mesh = ground_mesh(&demo_params());
    let mut doubled_area: i64 = 0;
    for t in 0..8usize {
        let (a, b, c) = (mesh.positions[3 * t], mesh.positions[3 * t + 1], mesh.positions[3 * t + 2]);
        let (ux, uz) = ((b.x - a.x) as i64, (b.z - a.z) as i64);
        let (vx, vz) = ((c.x - a.x) as i64, (c.z - a.z) as i64);
        let upward: i64 = uz * vx - ux * vz;
        assert!(upward > 0);
        doubled_area += upward;
    }
    assert_eq!(doubled_area, 2 * 20 * 20);
}

#[test]
fn ground_heights_agree_where_tiles_meet() {
    let mesh = ground_mesh(&demo_params());
    for q in mesh.positions.iter() {
        let expected: i32 = if q.x == 5 && q.z == -5 { 5 } else { 0 };
        assert_eq!(q.y, expected);
    }
}

#[test]
fn building_twice_gives_the_same_mesh() {
    let params = demo_params();
    let first = ground_mesh(&params);
    let second = ground_mesh(&params);
    assert_eq!(first, second);
    assert_eq!(first.positions, second.positions);
    assert_eq!(first.uvs, second.uvs);
}

#[test]
fn ground_scales_with_the_side() {
    let small = ground_mesh(&MapParams::new(4, -2).unwrap());
    let large = ground_mesh(&MapParams::new(40, -20).unwrap());
    for i in 0..24usize {
        assert_eq!(large.positions[i].x, 10 * small.positions[i].x);
        assert_eq!(large.positions[i].y, 10 * small.positions[i].y);
        assert_eq!(large.positions[i].z, 10 * small.positions[i].z);
        assert!(large.uvs[i].u.same_value(&small.uvs[i].u));
        assert!(large.uvs[i].v.same_value(&small.uvs[i].v));
    }
}

#[test]
fn ground_in_world_units() {
    let mesh = ground_mesh(&demo_params());
    let positions: Vec<[f32; 3]> = mesh
        .positions
        .iter()
        .map(|q| [q.x as f32 / 2.0, q.y as f32 / 2.0, q.z as f32 / 2.0])
        .collect();
    let uvs: Vec<[f32; 2]> = mesh
        .uvs
        .iter()
        .map(|uv| [uv.u.num as f32 / uv.u.den as f32, uv.v.num as f32 / uv.v.den as f32])
        .collect();
    let expected_positions: Vec<[f32; 3]> = vec![
        [2.5, 2.5, -2.5],
        [-2.5, 0.0, -2.5],
        [-2.5, 0.0, 2.5],
        [-2.5, 0.0, 2.5],
        [2.5, 0.0, 2.5],
        [2.5, 2.5, -2.5],
        [2.5, 2.5, -2.5],
        [2.5, 0.0, 2.5],
        [7.5, 0.0, 2.5],
        [7.5, 0.0, 2.5],
        [7.5, 0.0, -2.5],
        [2.5, 2.5, -2.5],
        [7.5, 0.0, -7.5],
        [2.5, 0.0, -7.5],
        [2.5, 2.5, -2.5],
        [2.5, 2.5, -2.5],
        [7.5, 0.0, -2.5],
        [7.5, 0.0, -7.5],
        [-2.5, 0.0, -7.5],
        [-2.5, 0.0, -2.5],
        [2.5, 2.5, -2.5],
        [2.5, 2.5, -2.5],
        [2.5, 0.0, -7.5],
        [-2.5, 0.0, -7.5],
    ];
    let expected_uvs: Vec<[f32; 2]> = vec![
        [0.25, 0.75],
        [0.25, 0.25],
        [0.75, 0.25],
        [0.75, 0.25],
        [0.75, 0.75],
        [0.25, 0.75],
        [0.25, 0.75],
        [0.75, 0.75],
        [0.75, 1.25],
        [0.75, 1.25],
        [0.25, 1.25],
        [0.25, 0.75],
        [-0.25, 1.25],
        [-0.25, 0.75],
        [0.25, 0.75],
        [0.25, 0.75],
        [0.25, 1.25],
        [-0.25, 1.25],
        [-0.25, 0.25],
        [0.25, 0.25],
        [0.25, 0.75],
        [0.25, 0.75],
        [-0.25, 0.75],
        [-0.25, 0.25],
    ];
    assert_eq!(positions, expected_positions);
    assert_eq!(uvs, expected_uvs);
}
