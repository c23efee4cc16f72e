use vstd::prelude::*;

verus! {

/// Which terrain tile an entity belongs to, in tile units.
#[derive(Clone, Copy, Debug, Default, PartialEq, Eq, Structural)]
pub struct GridPosition {
    pub x: i32,
    pub z: i32,
}

/// Marks the entity driven by the player controller.
#[derive(Clone, Copy, Debug, Default)]
pub struct PlayerFlag;

/// A mesh uploaded to the graphics backend: its vertex-array handle and the
/// number of indices (or vertices, for non-indexed meshes) it draws.
#[derive(Clone, Copy, Debug, PartialEq, Eq, Structural)]
pub struct RawModel {
    pub vao_id: u32,
    pub vertex_count: usize,
}

/// One texture layer of a terrain tile.
#[derive(Clone, Copy, Debug, PartialEq, Eq, Structural)]
pub struct TerrainTexture {
    pub texture_id: u32,
}

/// The five texture layers a terrain tile blends: a background, one texture
/// for each channel of the blend map, and the blend map itself.
#[derive(Clone, Copy, Debug, PartialEq, Eq, Structural)]
pub struct TerrainTexturePack {
    pub background_texture: TerrainTexture,
    pub r_texture: TerrainTexture,
    pub g_texture: TerrainTexture,
    pub b_texture: TerrainTexture,
    pub blend_map_texture: TerrainTexture,
}

impl TerrainTexturePack {
    pub fn new(
        background_texture: TerrainTexture,
        r_texture: TerrainTexture,
        g_texture: TerrainTexture,
        b_texture: TerrainTexture,
        blend_map_texture: TerrainTexture,
    ) -> (r: TerrainTexturePack)
        ensures
            r.background_texture == background_texture,
            r.r_texture == r_texture,
            r.g_texture == g_texture,
            r.b_texture == b_texture,
            r.blend_map_texture == blend_map_texture,
    {
        TerrainTexturePack { background_texture, r_texture, g_texture, b_texture, blend_map_texture }
    }
}

} // verus!
