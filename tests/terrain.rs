use motorino::{
    calculate_normal_gradient, find_tile, generate_height_field, generate_terrain, get_height, terrain_indices,
    tile_contains_point, tile_origin, GridPosition, Heightmap, CELL_COUNT, FULL_SAMPLE, MAX_HEIGHT, SIZE,
    VERTEX_COUNT,
};

fn uniform_map(width: u32, height: u32, v: u8) -> Heightmap {
    let rgb = vec![v; (width * height * 3) as usize];
    Heightmap::from_rgb(width, height, rgb).unwrap()
}

fn map_of(width: u32, height: u32, f: impl Fn(u32, u32) -> (u8, u8, u8)) -> Heightmap {
    let mut rgb = Vec::new();
    for z in 0..height {
        for x in 0..width {
            let (r, g, b) = f(x, z);
            rgb.push(r);
            rgb.push(g);
            rgb.push(b);
        }
    }
    Heightmap::from_rgb(width, height, rgb).unwrap()
}

fn scaled(sample: u32) -> f32 {
    sample as f32 / FULL_SAMPLE as f32 * MAX_HEIGHT as f32
}

#[test]
fn from_rgb_rejects_wrong_length() {
    assert!(Heightmap::from_rgb(2, 2, vec![0; 11]).is_none());
    assert!(Heightmap::from_rgb(2, 2, vec![0; 13]).is_none());
    assert!(Heightmap::from_rgb(2, 2, vec![0; 12]).is_some());
    assert!(Heightmap::from_rgb(0, 0, vec![]).is_some());
}

#[test]
fn sample_is_channel_product() {
    let map = map_of(3, 2, |x, z| ((x + 1) as u8, (z + 2) as u8, 5));
    assert_eq!(get_height(&map, 0, 0), 1 * 2 * 5);
    assert_eq!(get_height(&map, 2, 1), 3 * 3 * 5);
    let white = uniform_map(1, 1, 255);
    assert_eq!(get_height(&white, 0, 0), FULL_SAMPLE);
    assert_eq!(scaled(get_height(&white, 0, 0)), 40.0);
}

#[test]
fn sample_outside_raster_is_zero() {
    let map = uniform_map(3, 2, 7);
    assert_eq!(get_height(&map, 3, 0), 0);
    assert_eq!(get_height(&map, 0, 2), 0);
    assert_eq!(get_height(&map, u32::MAX, u32::MAX), 0);
}

#[test]
fn normal_gradient_clamps_at_edges() {
    // heights rise along x: sample(x, z) = (x + 1) * 1 * 1
    let map = map_of(4, 4, |x, _z| ((x + 1) as u8, 1, 1));
    // at x = 0 the left neighbour is the point itself: 1 - 2
    assert_eq!(calculate_normal_gradient(&map, 0, 0), (1 - 2, 1 - 1));
    // interior: 1 - 3
    assert_eq!(calculate_normal_gradient(&map, 1, 1), (1 - 3, 0));
    // past the far edge reads 0: 3 - 0, and z + 1 = 4 reads 0 as well
    assert_eq!(calculate_normal_gradient(&map, 3, 3), (3 - 0, 4 - 0));
}

#[test]
fn uniform_heightmap_gives_flat_field() {
    let v: u8 = 10;
    let map = uniform_map(VERTEX_COUNT as u32, VERTEX_COUNT as u32, v);
    let field = generate_height_field(&map);
    let expected = (v as u32) * (v as u32) * (v as u32);
    for gx in [0usize, 1, 100, 255] {
        for gz in [0usize, 7, 254, 255] {
            assert_eq!(field.height_at(gx, gz), expected);
        }
    }
    assert_eq!(field.cell_triangle(0, 0, true), Some((expected, expected, expected)));
    assert_eq!(field.cell_triangle(254, 254, false), Some((expected, expected, expected)));
}

#[test]
fn black_heightmap_gives_zero_field() {
    let map = uniform_map(VERTEX_COUNT as u32, VERTEX_COUNT as u32, 0);
    let mesh = generate_terrain(&map);
    for gx in 0..VERTEX_COUNT {
        for gz in 0..VERTEX_COUNT {
            assert_eq!(mesh.heights.height_at(gx, gz), 0);
        }
    }
    assert!(mesh.gradients.iter().all(|g| *g == (0, 0)));
}

#[test]
fn height_field_is_transposed_from_pixels() {
    // pixel (x, z) holds x + 1 in red: grid point (gx, gz) reads pixel (gz, gx)
    let map = map_of(VERTEX_COUNT as u32, VERTEX_COUNT as u32, |x, _z| ((x % 200 + 1) as u8, 1, 1));
    let field = generate_height_field(&map);
    assert_eq!(field.height_at(0, 5), 6);
    assert_eq!(field.height_at(5, 0), 1);
}

#[test]
fn small_heightmap_reads_zero_beyond_its_extent() {
    let map = uniform_map(2, 2, 2);
    let field = generate_height_field(&map);
    assert_eq!(field.height_at(1, 1), 8);
    assert_eq!(field.height_at(2, 0), 0);
    assert_eq!(field.height_at(0, 2), 0);
}

#[test]
fn cell_triangle_corners_and_range() {
    let map = map_of(VERTEX_COUNT as u32, VERTEX_COUNT as u32, |x, z| ((x % 250 + 1) as u8, (z % 250 + 1) as u8, 1));
    let field = generate_height_field(&map);
    // at(gx, gz) = sample(gz, gx) = (gz + 1) * (gx + 1)
    let at = |gx: u32, gz: u32| (gz + 1) * (gx + 1);
    assert_eq!(field.cell_triangle(3, 4, true), Some((at(3, 4), at(4, 4), at(3, 5))));
    assert_eq!(field.cell_triangle(3, 4, false), Some((at(4, 4), at(4, 5), at(3, 5))));
    assert_eq!(field.cell_triangle(-1, 0, true), None);
    assert_eq!(field.cell_triangle(0, -1, true), None);
    assert_eq!(field.cell_triangle(CELL_COUNT as i64, 0, true), None);
    assert_eq!(field.cell_triangle(0, CELL_COUNT as i64, false), None);
    assert!(field.cell_triangle(CELL_COUNT as i64 - 1, CELL_COUNT as i64 - 1, false).is_some());
}

#[test]
fn indices_wind_two_triangles_per_cell() {
    let indices = terrain_indices();
    assert_eq!(indices.len(), 6 * 255 * 255);
    assert_eq!(&indices[0..6], &[0, 256, 1, 1, 256, 257]);
    // cell (gx = 1, gz = 0)
    assert_eq!(&indices[6..12], &[1, 257, 2, 2, 257, 258]);
    // cell (gx = 0, gz = 1)
    assert_eq!(&indices[6 * 255..6 * 255 + 6], &[256, 512, 257, 257, 512, 513]);
    // last cell
    let last = &indices[indices.len() - 6..];
    assert_eq!(last, &[65278, 65534, 65279, 65279, 65534, 65535]);
}

#[test]
fn tile_origin_is_grid_times_size() {
    assert_eq!(tile_origin(GridPosition { x: 1, z: 0 }), (800, 0));
    assert_eq!(tile_origin(GridPosition { x: -2, z: 3 }), (-1600, 2400));
    assert_eq!(tile_origin(GridPosition { x: i32::MIN, z: i32::MAX }), (i32::MIN as i64 * 800, i32::MAX as i64 * 800));
    assert_eq!(SIZE, 800);
}

#[test]
fn two_tiles_split_at_their_boundary() {
    let tiles = vec![GridPosition { x: 0, z: 0 }, GridPosition { x: 1, z: 0 }];
    let at = |x: f32, z: f32| find_tile(&tiles, x.floor() as i64, z.floor() as i64);
    assert_eq!(at(800.0, 10.0), Some(1));
    assert_eq!(at(799.999, 10.0), Some(0));
    assert_eq!(at(0.0, 0.0), Some(0));
    assert_eq!(at(1599.5, 799.5), Some(1));
}

#[test]
fn point_outside_all_tiles_finds_none() {
    let tiles = vec![GridPosition { x: 0, z: 0 }, GridPosition { x: 1, z: 0 }];
    assert_eq!(find_tile(&tiles, -1, 0), None);
    assert_eq!(find_tile(&tiles, 1600, 0), None);
    assert_eq!(find_tile(&tiles, 10, 800), None);
    assert_eq!(find_tile(&tiles, 10, -1), None);
    assert_eq!(find_tile(&Vec::new(), 10, 10), None);
}

#[test]
fn first_matching_tile_wins() {
    let tiles = vec![GridPosition { x: 2, z: 2 }, GridPosition { x: 0, z: 0 }, GridPosition { x: 0, z: 0 }];
    assert_eq!(find_tile(&tiles, 5, 5), Some(1));
    assert!(tile_contains_point(GridPosition { x: 0, z: 0 }, 799, 799));
    assert!(!tile_contains_point(GridPosition { x: 0, z: 0 }, 800, 799));
}
