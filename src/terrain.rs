use crate::components::GridPosition;
use vstd::prelude::*;

verus! {

/// Side length of a terrain tile in world units.
pub const SIZE: u32 = 800;

/// Number of height samples along each side of a tile.
pub const VERTEX_COUNT: usize = 256;

/// Number of grid cells along each side of a tile.
pub const CELL_COUNT: usize = 255;

/// Height, in world units, of a fully white heightmap pixel.
pub const MAX_HEIGHT: u32 = 40;

/// Raw sample of a fully white pixel (255 * 255 * 255); a raw sample `s`
/// stands for the height `s / FULL_SAMPLE * MAX_HEIGHT`.
pub const FULL_SAMPLE: u32 = 16581375;

/// An RGB raster read by terrain generation, row-major, three bytes per pixel.
pub struct Heightmap {
    width: u32,
    height: u32,
    rgb: Vec<u8>,
}

impl Heightmap {
    pub closed spec fn width(&self) -> nat {
        self.width as nat
    }

    pub closed spec fn height(&self) -> nat {
        self.height as nat
    }

    /// Channel `c` (0 red, 1 green, 2 blue) of pixel (x, z): column x, row z.
    pub closed spec fn channel(&self, x: int, z: int, c: int) -> u8 {
        self.rgb@[3 * (z * self.width + x) + c]
    }

    pub closed spec fn wf(&self) -> bool {
        self.rgb@.len() == 3 * (self.width * self.height)
    }

    /// The raw height sample at pixel (x, z): the product of its three
    /// channels, or 0 outside the raster.
    pub open spec fn sample(&self, x: int, z: int) -> int {
        if 0 <= x < self.width() && 0 <= z < self.height() {
            self.channel(x, z, 0) * self.channel(x, z, 1) * self.channel(x, z, 2)
        } else {
            0
        }
    }

    /// Takes a raster of `width` by `height` pixels; `None` when `rgb` does not
    /// hold exactly three bytes per pixel.
    pub fn from_rgb(width: u32, height: u32, rgb: Vec<u8>) -> (r: Option<Heightmap>)
        ensures
            r is Some <==> rgb@.len() == 3 * (width * height),
            r matches Some(m) ==> {
                &&& m.wf()
                &&& m.width() == width
                &&& m.height() == height
                &&& forall|x: int, z: int, c: int|
                    0 <= x < width && 0 <= z < height && 0 <= c < 3 ==> #[trigger] m.channel(x, z, c)
                        == rgb@[3 * (z * width + x) + c]
            },
    {
        assert((width as int) * (height as int) <= 0xffff_ffff * 0xffff_ffff) by (nonlinear_arith)
            requires
                width <= 0xffff_ffffu32,
                height <= 0xffff_ffffu32,
        ;
        let pixels: u64 = (width as u64) * (height as u64);
        if rgb.len() % 3 == 0 && (rgb.len() / 3) as u64 == pixels {
            Some(Heightmap { width, height, rgb })
        } else {
            None
        }
    }
}

proof fn lemma_pixel_index(w: int, h: int, x: int, z: int)
    requires
        0 <= x < w,
        0 <= z < h,
    ensures
        0 <= z * w + x < w * h,
{
    assert(0 <= z * w) by (nonlinear_arith)
        requires
            0 <= z,
            0 <= w,
    ;
    assert(z * w + x < w * h) by (nonlinear_arith)
        requires
            0 <= x < w,
            0 <= z < h,
    ;
}

/// Raw height sample at pixel (x, z), 0 outside the heightmap.
pub fn get_height(height_map: &Heightmap, x: u32, z: u32) -> (r: u32)
    requires
        height_map.wf(),
    ensures
        r == height_map.sample(x as int, z as int),
        r <= FULL_SAMPLE,
{
    if x >= height_map.width || z >= height_map.height {
        return 0;
    }
    let len: usize = height_map.rgb.len();
    proof {
        lemma_pixel_index(height_map.width as int, height_map.height as int, x as int, z as int);
    }
    let base: usize = 3 * ((z as usize) * (height_map.width as usize) + (x as usize));
    let r = height_map.rgb[base];
    let g = height_map.rgb[base + 1];
    let b = height_map.rgb[base + 2];
    assert((r as u32) * (g as u32) <= 65025) by (nonlinear_arith)
        requires
            r <= 255,
            g <= 255,
    ;
    assert((r as u32) * (g as u32) * (b as u32) <= FULL_SAMPLE) by (nonlinear_arith)
        requires
            (r as u32) * (g as u32) <= 65025,
            b <= 255,
    ;
    (r as u32) * (g as u32) * (b as u32)
}

/// The neighbour before `c` on its axis, clamped to 0 at the edge.
pub open spec fn before(c: int) -> int {
    if c == 0 {
        0
    } else {
        c - 1
    }
}

/// Central differences of the raw height samples around (x, z): the x and z
/// components of the unnormalised surface normal, whose y component is fixed.
pub open spec fn normal_gradient(height_map: Heightmap, x: int, z: int) -> (int, int) {
    (
        height_map.sample(before(x), z) - height_map.sample(x + 1, z),
        height_map.sample(x, before(z)) - height_map.sample(x, z + 1),
    )
}

/// Central differences of the heightmap around (x, z) for the surface normal.
/// Neighbours below zero are clamped to the edge sample; those past the far
/// edge read as 0.
pub fn calculate_normal_gradient(height_map: &Heightmap, x: u32, z: u32) -> (r: (i64, i64))
    requires
        height_map.wf(),
        x < u32::MAX,
        z < u32::MAX,
    ensures
        r.0 == normal_gradient(*height_map, x as int, z as int).0,
        r.1 == normal_gradient(*height_map, x as int, z as int).1,
{
    let left = get_height(height_map, if x == 0 { 0 } else { x - 1 }, z);
    let right = get_height(height_map, x + 1, z);
    let down = get_height(height_map, x, if z == 0 { 0 } else { z - 1 });
    let up = get_height(height_map, x, z + 1);
    ((left as i64) - (right as i64), (down as i64) - (up as i64))
}

/// The height samples of one tile: `VERTEX_COUNT` by `VERTEX_COUNT` raw
/// samples, indexed by grid column `gx` (world x) and grid row `gz` (world z).
pub struct HeightField {
    samples: Vec<u32>,
}

impl HeightField {
    pub closed spec fn wf(&self) -> bool {
        self.samples@.len() == VERTEX_COUNT * VERTEX_COUNT
    }

    /// The raw sample at grid point (gx, gz).
    pub closed spec fn at(&self, gx: int, gz: int) -> int {
        self.samples@[gx * VERTEX_COUNT + gz] as int
    }

    /// Raw sample at grid point (gx, gz).
    pub fn height_at(&self, gx: usize, gz: usize) -> (r: u32)
        requires
            self.wf(),
            gx < VERTEX_COUNT,
            gz < VERTEX_COUNT,
        ensures
            r == self.at(gx as int, gz as int),
    {
        self.samples[gx * VERTEX_COUNT + gz]
    }

    /// The three corner samples of the triangle of cell (gx, gz) that a point
    /// falls in: the upper triangle spans corners (gx, gz), (gx + 1, gz) and
    /// (gx, gz + 1); the lower one (gx + 1, gz), (gx + 1, gz + 1) and
    /// (gx, gz + 1). `None` for a cell outside the tile, whose height is 0.
    pub fn cell_triangle(&self, gx: i64, gz: i64, upper: bool) -> (r: Option<(u32, u32, u32)>)
        requires
            self.wf(),
        ensures
            r is Some <==> cell_in_range(gx as int, gz as int),
            r matches Some(t) ==> (t.0 as int, t.1 as int, t.2 as int) == triangle_corners(
                *self,
                gx as int,
                gz as int,
                upper,
            ),
    {
        if gx < 0 || gz < 0 || gx >= CELL_COUNT as i64 || gz >= CELL_COUNT as i64 {
            return None;
        }
        let x = gx as usize;
        let z = gz as usize;
        if upper {
            Some((self.height_at(x, z), self.height_at(x + 1, z), self.height_at(x, z + 1)))
        } else {
            Some((self.height_at(x + 1, z), self.height_at(x + 1, z + 1), self.height_at(x, z + 1)))
        }
    }
}

/// A cell lies inside the tile when both its coordinates are in `0..CELL_COUNT`.
pub open spec fn cell_in_range(gx: int, gz: int) -> bool {
    0 <= gx < CELL_COUNT && 0 <= gz < CELL_COUNT
}

/// The corner samples of the upper or lower triangle of cell (gx, gz).
pub open spec fn triangle_corners(field: HeightField, gx: int, gz: int, upper: bool) -> (int, int, int) {
    if upper {
        (field.at(gx, gz), field.at(gx + 1, gz), field.at(gx, gz + 1))
    } else {
        (field.at(gx + 1, gz), field.at(gx + 1, gz + 1), field.at(gx, gz + 1))
    }
}

/// Entry `p` of the tile's triangle index list. Cell (gx, gz) owns entries
/// `6 * (gz * CELL_COUNT + gx)` onwards: the triangles (top-left, bottom-left,
/// top-right) and (top-right, bottom-left, bottom-right), where vertex
/// `row * VERTEX_COUNT + column` is the top-left corner of cell (column, row).
pub open spec fn terrain_index(p: int) -> int {
    let cell = p / 6;
    let k = p % 6;
    let gz = cell / (CELL_COUNT as int);
    let gx = cell % (CELL_COUNT as int);
    let top_left = gz * VERTEX_COUNT + gx;
    let bottom_left = (gz + 1) * VERTEX_COUNT + gx;
    if k == 0 {
        top_left
    } else if k == 1 || k == 4 {
        bottom_left
    } else if k == 2 || k == 3 {
        top_left + 1
    } else {
        bottom_left + 1
    }
}

/// What terrain generation computes from a heightmap besides the floating-point
/// vertex data: the height field, the normal gradient of every vertex, and the
/// triangle indices.
pub struct TerrainMesh {
    pub heights: HeightField,
    /// Normal gradient of vertex `row * VERTEX_COUNT + column`, taken at
    /// heightmap pixel (row, column).
    pub gradients: Vec<(i64, i64)>,
    pub indices: Vec<u32>,
}

proof fn lemma_grid_split(a: int, b: int, n: int)
    requires
        0 <= a,
        0 <= b < n,
    ensures
        (a * n + b) / n == a,
        (a * n + b) % n == b,
{
    vstd::arithmetic::div_mod::lemma_fundamental_div_mod_converse(a * n + b, n, a, b);
}

/// Samples a heightmap into a tile's height field: grid point (gx, gz) takes
/// the sample of pixel (gz, gx).
pub fn generate_height_field(height_map: &Heightmap) -> (r: HeightField)
    requires
        height_map.wf(),
    ensures
        r.wf(),
        forall|gx: int, gz: int|
            0 <= gx < VERTEX_COUNT && 0 <= gz < VERTEX_COUNT ==> #[trigger] r.at(gx, gz)
                == height_map.sample(gz, gx),
{
    let mut samples: Vec<u32> = Vec::new();
    let mut gx: usize = 0;
    while gx < VERTEX_COUNT
        invariant
            gx <= VERTEX_COUNT,
            height_map.wf(),
            samples@.len() == gx * VERTEX_COUNT,
            forall|a: int, b: int|
                0 <= a < gx && 0 <= b < VERTEX_COUNT ==> samples@[a * VERTEX_COUNT + b]
                    == height_map.sample(b, a),
        decreases VERTEX_COUNT - gx,
    {
        let mut gz: usize = 0;
        while gz < VERTEX_COUNT
            invariant
                gx < VERTEX_COUNT,
                gz <= VERTEX_COUNT,
                height_map.wf(),
                samples@.len() == gx * VERTEX_COUNT + gz,
                forall|a: int, b: int|
                    0 <= a < gx && 0 <= b < VERTEX_COUNT ==> samples@[a * VERTEX_COUNT + b]
                        == height_map.sample(b, a),
                forall|b: int| 0 <= b < gz ==> samples@[gx * VERTEX_COUNT + b] == height_map.sample(b, gx as int),
            decreases VERTEX_COUNT - gz,
        {
            let h = get_height(height_map, gz as u32, gx as u32);
            samples.push(h);
            gz += 1;
        }
        gx += 1;
    }
    HeightField { samples }
}

proof fn lemma_terrain_index_of_cell(gz: int, gx: int, k: int)
    requires
        0 <= gz < CELL_COUNT,
        0 <= gx < CELL_COUNT,
        0 <= k < 6,
    ensures
        ({
            let top_left = gz * VERTEX_COUNT + gx;
            let bottom_left = (gz + 1) * VERTEX_COUNT + gx;
            terrain_index(6 * (gz * CELL_COUNT + gx) + k) == if k == 0 {
                top_left
            } else if k == 1 || k == 4 {
                bottom_left
            } else if k == 2 || k == 3 {
                top_left + 1
            } else {
                bottom_left + 1
            }
        }),
{
    let cell = gz * CELL_COUNT + gx;
    lemma_grid_split(cell, k, 6);
    lemma_grid_split(gz, gx, CELL_COUNT as int);
}

/// The triangle index list of a tile: two triangles per grid cell, cells in
/// row-major order.
pub fn terrain_indices() -> (r: Vec<u32>)
    ensures
        r@.len() == 6 * CELL_COUNT * CELL_COUNT,
        forall|p: int| 0 <= p < r@.len() ==> #[trigger] r@[p] == terrain_index(p),
{
    let mut indices: Vec<u32> = Vec::new();
    let mut gz: usize = 0;
    while gz < CELL_COUNT
        invariant
            gz <= CELL_COUNT,
            indices@.len() == 6 * (gz * CELL_COUNT),
            forall|p: int| 0 <= p < indices@.len() ==> #[trigger] indices@[p] == terrain_index(p),
        decreases CELL_COUNT - gz,
    {
        let mut gx: usize = 0;
        while gx < CELL_COUNT
            invariant
                gz < CELL_COUNT,
                gx <= CELL_COUNT,
                indices@.len() == 6 * (gz * CELL_COUNT + gx),
                forall|p: int| 0 <= p < indices@.len() ==> #[trigger] indices@[p] == terrain_index(p),
            decreases CELL_COUNT - gx,
        {
            let top_left: u32 = (gz * VERTEX_COUNT + gx) as u32;
            let top_right: u32 = top_left + 1;
            let bottom_left: u32 = ((gz + 1) * VERTEX_COUNT + gx) as u32;
            let bottom_right: u32 = bottom_left + 1;
            proof {
                lemma_terrain_index_of_cell(gz as int, gx as int, 0);
                lemma_terrain_index_of_cell(gz as int, gx as int, 1);
                lemma_terrain_index_of_cell(gz as int, gx as int, 2);
                lemma_terrain_index_of_cell(gz as int, gx as int, 3);
                lemma_terrain_index_of_cell(gz as int, gx as int, 4);
                lemma_terrain_index_of_cell(gz as int, gx as int, 5);
            }
            indices.push(top_left);
            indices.push(bottom_left);
            indices.push(top_right);
            indices.push(top_right);
            indices.push(bottom_left);
            indices.push(bottom_right);
            gx += 1;
        }
        gz += 1;
    }
    indices
}

/// Normal gradients of every vertex of a tile, vertex `row * VERTEX_COUNT +
/// column` taken at heightmap pixel (row, column).
pub fn normal_gradients(height_map: &Heightmap) -> (r: Vec<(i64, i64)>)
    requires
        height_map.wf(),
    ensures
        r@.len() == VERTEX_COUNT * VERTEX_COUNT,
        forall|row: int, column: int|
            0 <= row < VERTEX_COUNT && 0 <= column < VERTEX_COUNT ==> {
                let g = #[trigger] r@[row * VERTEX_COUNT + column];
                g.0 == normal_gradient(*height_map, row, column).0 && g.1 == normal_gradient(
                    *height_map,
                    row,
                    column,
                ).1
            },
{
    let mut gradients: Vec<(i64, i64)> = Vec::new();
    let mut row: usize = 0;
    while row < VERTEX_COUNT
        invariant
            row <= VERTEX_COUNT,
            height_map.wf(),
            gradients@.len() == row * VERTEX_COUNT,
            forall|a: int, b: int|
                0 <= a < row && 0 <= b < VERTEX_COUNT ==> {
                    let g = #[trigger] gradients@[a * VERTEX_COUNT + b];
                    g.0 == normal_gradient(*height_map, a, b).0 && g.1 == normal_gradient(*height_map, a, b).1
                },
        decreases VERTEX_COUNT - row,
    {
        let mut column: usize = 0;
        while column < VERTEX_COUNT
            invariant
                row < VERTEX_COUNT,
                column <= VERTEX_COUNT,
                height_map.wf(),
                gradients@.len() == row * VERTEX_COUNT + column,
                forall|a: int, b: int|
                    0 <= a < row && 0 <= b < VERTEX_COUNT ==> {
                        let g = #[trigger] gradients@[a * VERTEX_COUNT + b];
                        g.0 == normal_gradient(*height_map, a, b).0 && g.1 == normal_gradient(*height_map, a, b).1
                    },
                forall|b: int|
                    0 <= b < column ==> {
                        let g = #[trigger] gradients@[row * VERTEX_COUNT + b];
                        g.0 == normal_gradient(*height_map, row as int, b).0 && g.1 == normal_gradient(
                            *height_map,
                            row as int,
                            b,
                        ).1
                    },
            decreases VERTEX_COUNT - column,
        {
            let g = calculate_normal_gradient(height_map, row as u32, column as u32);
            gradients.push(g);
            column += 1;
        }
        row += 1;
    }
    gradients
}

/// Builds everything a tile needs from its heightmap except the floating-point
/// vertex attributes: the height field, per-vertex normal gradients and the
/// triangle indices.
pub fn generate_terrain(height_map: &Heightmap) -> (r: TerrainMesh)
    requires
        height_map.wf(),
    ensures
        r.heights.wf(),
        forall|gx: int, gz: int|
            0 <= gx < VERTEX_COUNT && 0 <= gz < VERTEX_COUNT ==> #[trigger] r.heights.at(gx, gz)
                == height_map.sample(gz, gx),
        r.gradients@.len() == VERTEX_COUNT * VERTEX_COUNT,
        forall|row: int, column: int|
            0 <= row < VERTEX_COUNT && 0 <= column < VERTEX_COUNT ==> {
                let g = #[trigger] r.gradients@[row * VERTEX_COUNT + column];
                g.0 == normal_gradient(*height_map, row, column).0 && g.1 == normal_gradient(
                    *height_map,
                    row,
                    column,
                ).1
            },
        r.indices@.len() == 6 * CELL_COUNT * CELL_COUNT,
        forall|p: int| 0 <= p < r.indices@.len() ==> #[trigger] r.indices@[p] == terrain_index(p),
{
    TerrainMesh {
        heights: generate_height_field(height_map),
        gradients: normal_gradients(height_map),
        indices: terrain_indices(),
    }
}

/// World-space origin of the tile at `grid` on one axis.
pub open spec fn tile_origin_of(grid_coordinate: int) -> int {
    grid_coordinate * SIZE
}

/// Whether the tile at `grid` covers the point whose world coordinates round
/// down to (fx, fz). Tile origins are whole numbers, so a point lies in
/// `origin .. origin + SIZE` exactly when its rounded-down coordinate does.
pub open spec fn tile_contains(grid: GridPosition, fx: int, fz: int) -> bool {
    &&& tile_origin_of(grid.x as int) <= fx < tile_origin_of(grid.x as int) + SIZE
    &&& tile_origin_of(grid.z as int) <= fz < tile_origin_of(grid.z as int) + SIZE
}

/// World-space origin (x, z) of the tile at `grid`.
pub fn tile_origin(grid: GridPosition) -> (r: (i64, i64))
    ensures
        r.0 == tile_origin_of(grid.x as int),
        r.1 == tile_origin_of(grid.z as int),
{
    assert(-0x8000_0000 * 800 <= (grid.x as int) * 800 <= 0x7fff_ffff * 800) by (nonlinear_arith)
        requires
            -0x8000_0000 <= grid.x as int <= 0x7fff_ffff,
    ;
    assert(-0x8000_0000 * 800 <= (grid.z as int) * 800 <= 0x7fff_ffff * 800) by (nonlinear_arith)
        requires
            -0x8000_0000 <= grid.z as int <= 0x7fff_ffff,
    ;
    ((grid.x as i64) * (SIZE as i64), (grid.z as i64) * (SIZE as i64))
}

/// Whether the tile at `grid` covers the point whose coordinates round down
/// to (fx, fz).
pub fn tile_contains_point(grid: GridPosition, fx: i64, fz: i64) -> (r: bool)
    ensures
        r == tile_contains(grid, fx as int, fz as int),
{
    let (x, z) = tile_origin(grid);
    x <= fx && fx < x + (SIZE as i64) && z <= fz && fz < z + (SIZE as i64)
}

/// The first tile of `tiles` that covers the point whose world coordinates
/// round down to (fx, fz); `None`, for which the terrain height is 0, when no
/// tile does.
pub fn find_tile(tiles: &Vec<GridPosition>, fx: i64, fz: i64) -> (r: Option<usize>)
    ensures
        r is None <==> forall|i: int| 0 <= i < tiles@.len() ==> !tile_contains(#[trigger] tiles@[i], fx as int, fz as int),
        r matches Some(i) ==> {
            &&& i < tiles@.len()
            &&& tile_contains(tiles@[i as int], fx as int, fz as int)
            &&& forall|j: int| 0 <= j < i ==> !tile_contains(#[trigger] tiles@[j], fx as int, fz as int)
        },
{
    let mut i: usize = 0;
    while i < tiles.len()
        invariant
            i <= tiles@.len(),
            forall|j: int| 0 <= j < i ==> !tile_contains(#[trigger] tiles@[j], fx as int, fz as int),
        decreases tiles@.len() - i,
    {
        if tile_contains_point(tiles[i], fx, fz) {
            return Some(i);
        }
        i += 1;
    }
    None
}

/// Tiles at different grid positions never cover the same point, so the
/// first tile that covers a point is the only one.
pub proof fn lemma_distinct_tiles_disjoint(a: GridPosition, b: GridPosition, fx: int, fz: int)
    requires
        a != b,
    ensures
        !(tile_contains(a, fx, fz) && tile_contains(b, fx, fz)),
{
    if tile_contains(a, fx, fz) && tile_contains(b, fx, fz) {
        assert(a.x == b.x) by (nonlinear_arith)
            requires
                a.x * 800 <= fx < a.x * 800 + 800,
                b.x * 800 <= fx < b.x * 800 + 800,
        ;
        assert(a.z == b.z) by (nonlinear_arith)
            requires
                a.z * 800 <= fz < a.z * 800 + 800,
                b.z * 800 <= fz < b.z * 800 + 800,
        ;
    }
}

/// A heightmap whose every pixel reads (v, v, v).
pub open spec fn uniform_heightmap(height_map: Heightmap, v: u8) -> bool {
    forall|x: int, z: int, c: int|
        0 <= x < height_map.width() && 0 <= z < height_map.height() && 0 <= c < 3
            ==> #[trigger] height_map.channel(x, z, c) == v
}

/// A height field sampled from a heightmap of one grey level `v` that covers
/// the whole grid is flat: every triangle of every cell has all three corners
/// at `v * v * v`, so every in-range height query returns that level scaled.
pub proof fn lemma_uniform_heightmap_flat_field(
    height_map: Heightmap,
    v: u8,
    field: HeightField,
    gx: int,
    gz: int,
    upper: bool,
)
    requires
        uniform_heightmap(height_map, v),
        height_map.width() >= VERTEX_COUNT,
        height_map.height() >= VERTEX_COUNT,
        forall|a: int, b: int|
            0 <= a < VERTEX_COUNT && 0 <= b < VERTEX_COUNT ==> #[trigger] field.at(a, b)
                == height_map.sample(b, a),
        cell_in_range(gx, gz),
    ensures
        triangle_corners(field, gx, gz, upper) == (v * v * v, v * v * v, v * v * v),
{
    assert(height_map.channel(gz, gx, 0) == v);
    assert(height_map.channel(gz, gx + 1, 0) == v);
    assert(height_map.channel(gz + 1, gx, 0) == v);
    assert(height_map.channel(gz + 1, gx + 1, 0) == v);
    assert(height_map.channel(gz, gx, 1) == v);
    assert(height_map.channel(gz, gx + 1, 1) == v);
    assert(height_map.channel(gz + 1, gx, 1) == v);
    assert(height_map.channel(gz + 1, gx + 1, 1) == v);
    assert(height_map.channel(gz, gx, 2) == v);
    assert(height_map.channel(gz, gx + 1, 2) == v);
    assert(height_map.channel(gz + 1, gx, 2) == v);
    assert(height_map.channel(gz + 1, gx + 1, 2) == v);
    assert(field.at(gx, gz) == v * v * v);
    assert(field.at(gx + 1, gz) == v * v * v);
    assert(field.at(gx, gz + 1) == v * v * v);
    assert(field.at(gx + 1, gz + 1) == v * v * v);
}

} // verus!
