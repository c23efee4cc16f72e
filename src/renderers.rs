use crate::components::{GridPosition, RawModel, TerrainTexturePack};
use crate::debugui::{
    DebugInfo, counted, frame_triangles, lemma_frame_triangles_nonnegative, lemma_frame_triangles_prefix,
    lemma_frame_triangles_prefix_bound, lemma_frame_triangles_single,
};
use crate::shaders::ShaderProgram;
use crate::terrain::{tile_origin, tile_origin_of};
use vstd::prelude::*;

verus! {

/// Initial window width in pixels.
pub const WIDTH: u32 = 800;

/// Initial window height in pixels.
pub const HEIGHT: u32 = 800;

/// Render toggles switched at run time.
#[derive(Clone, Copy, Debug, Default, PartialEq, Eq, Structural)]
pub struct RenderSettings {
    pub debug_ui: bool,
    pub wireframes: bool,
}

/// The size of the window's drawable area, in pixels.
#[derive(Clone, Copy, Debug, PartialEq, Eq, Structural)]
pub struct WindowSize {
    pub width: u32,
    pub height: u32,
}

impl Default for WindowSize {
    fn default() -> (r: WindowSize)
        ensures
            r.width == WIDTH,
            r.height == HEIGHT,
    {
        WindowSize { width: WIDTH, height: HEIGHT }
    }
}

/// The passes of one frame, in the order they run.
#[derive(Clone, Copy, Debug, PartialEq, Eq, Structural)]
pub enum FramePass {
    /// Moves the last frame's telemetry into its histories; runs before any
    /// pass that counts draws.
    TelemetryReset,
    Clear,
    Terrain,
    Entities,
    Skybox,
    /// Runs after the drawing passes, so that it shows this frame's counts.
    DebugOverlay,
    /// Collects the next frame's input events.
    WindowEvents,
}

/// The pass order of a frame; the overlay runs only while it is switched on
/// and its user-interface backend is ready.
pub open spec fn frame_order(settings: RenderSettings, overlay_ready: bool) -> Seq<FramePass> {
    let drawing = seq![
        FramePass::TelemetryReset,
        FramePass::Clear,
        FramePass::Terrain,
        FramePass::Entities,
        FramePass::Skybox,
    ];
    if settings.debug_ui && overlay_ready {
        drawing.push(FramePass::DebugOverlay).push(FramePass::WindowEvents)
    } else {
        drawing.push(FramePass::WindowEvents)
    }
}

/// The passes to run this frame, in order.
pub fn frame_passes(settings: &RenderSettings, overlay_ready: bool) -> (r: Vec<FramePass>)
    ensures
        r@ == frame_order(*settings, overlay_ready),
{
    let mut passes: Vec<FramePass> = Vec::new();
    passes.push(FramePass::TelemetryReset);
    passes.push(FramePass::Clear);
    passes.push(FramePass::Terrain);
    passes.push(FramePass::Entities);
    passes.push(FramePass::Skybox);
    if settings.debug_ui && overlay_ready {
        passes.push(FramePass::DebugOverlay);
    }
    passes.push(FramePass::WindowEvents);
    assert(passes@ =~= frame_order(*settings, overlay_ready));
    passes
}

/// A texture bound to a texture unit for a draw.
#[derive(Clone, Copy, Debug, PartialEq, Eq, Structural)]
pub struct TextureBinding {
    pub unit: u32,
    pub texture_id: u32,
}

/// An entity of the terrain pass: a tile's mesh, its texture layers and its
/// grid position.
#[derive(Clone, Copy, Debug)]
pub struct TerrainTile {
    pub model: RawModel,
    pub textures: TerrainTexturePack,
    pub grid: GridPosition,
}

/// One draw of the terrain pass.
#[derive(Clone, Copy, Debug)]
pub struct TerrainDraw {
    pub model: RawModel,
    /// Texture layers by unit: background, the three channel layers, blend map.
    pub textures: [TextureBinding; 5],
    /// World-space translation of the tile on x and z.
    pub origin_x: i64,
    pub origin_z: i64,
}

/// The bindings of a tile's texture layers to units 0 to 4.
pub open spec fn terrain_bindings(pack: TerrainTexturePack) -> Seq<TextureBinding> {
    seq![
        TextureBinding { unit: 0, texture_id: pack.background_texture.texture_id },
        TextureBinding { unit: 1, texture_id: pack.r_texture.texture_id },
        TextureBinding { unit: 2, texture_id: pack.g_texture.texture_id },
        TextureBinding { unit: 3, texture_id: pack.b_texture.texture_id },
        TextureBinding { unit: 4, texture_id: pack.blend_map_texture.texture_id },
    ]
}

/// The draw issued for a tile: its mesh, its layers on units 0 to 4, and a
/// translation by its grid position times the tile size.
pub open spec fn terrain_draw_of(draw: TerrainDraw, tile: TerrainTile) -> bool {
    &&& draw.model == tile.model
    &&& draw.textures@ == terrain_bindings(tile.textures)
    &&& draw.origin_x == tile_origin_of(tile.grid.x as int)
    &&& draw.origin_z == tile_origin_of(tile.grid.z as int)
}

pub open spec fn tile_models(tiles: Seq<TerrainTile>) -> Seq<RawModel> {
    tiles.map_values(|t: TerrainTile| t.model)
}

/// Draws the terrain tiles.
pub struct TerrainRenderer {
    pub terrain_shader: ShaderProgram,
}

impl TerrainRenderer {
    pub fn new(terrain_shader: ShaderProgram) -> (r: TerrainRenderer)
        ensures
            r.terrain_shader == terrain_shader,
    {
        TerrainRenderer { terrain_shader }
    }

    /// The draws of the terrain pass, one per tile in order, each counted in
    /// the frame's telemetry.
    pub fn draw_list<T>(&self, tiles: &Vec<TerrainTile>, debug_info: &mut DebugInfo<T>) -> (r: Vec<TerrainDraw>)
        requires
            old(debug_info).wf(),
            old(debug_info).can_record(tile_models(tiles@)),
        ensures
            r@.len() == tiles@.len(),
            forall|i: int| 0 <= i < tiles@.len() ==> terrain_draw_of(#[trigger] r@[i], tiles@[i]),
            counted(*old(debug_info), *final(debug_info), tile_models(tiles@)),
    {
        let ghost models = tile_models(tiles@);
        let mut draws: Vec<TerrainDraw> = Vec::new();
        let mut i: usize = 0;
        while i < tiles.len()
            invariant
                i <= tiles@.len(),
                models == tile_models(tiles@),
                old(debug_info).wf(),
                old(debug_info).can_record(models),
                draws@.len() == i,
                forall|j: int| 0 <= j < i ==> terrain_draw_of(#[trigger] draws@[j], tiles@[j]),
                counted(*old(debug_info), *debug_info, models.subrange(0, i as int)),
            decreases tiles@.len() - i,
        {
            let tile = tiles[i];
            proof {
                lemma_frame_triangles_prefix(models, i as int);
                lemma_frame_triangles_prefix_bound(models, i as int + 1);
                lemma_frame_triangles_nonnegative(models.subrange(0, i as int));
                lemma_frame_triangles_single(tile.model);
            }
            debug_info.record_draw(tile.model);
            let (origin_x, origin_z) = tile_origin(tile.grid);
            let textures = [
                TextureBinding { unit: 0, texture_id: tile.textures.background_texture.texture_id },
                TextureBinding { unit: 1, texture_id: tile.textures.r_texture.texture_id },
                TextureBinding { unit: 2, texture_id: tile.textures.g_texture.texture_id },
                TextureBinding { unit: 3, texture_id: tile.textures.b_texture.texture_id },
                TextureBinding { unit: 4, texture_id: tile.textures.blend_map_texture.texture_id },
            ];
            let draw = TerrainDraw { model: tile.model, textures, origin_x, origin_z };
            assert(draw.textures@ =~= terrain_bindings(tile.textures));
            draws.push(draw);
            i += 1;
        }
        proof {
            assert(models.subrange(0, tiles@.len() as int) =~= models);
        }
        draws
    }
}

/// An entity of the entity pass: a mesh and its texture.
#[derive(Clone, Copy, Debug, PartialEq, Eq, Structural)]
pub struct TexturedModel {
    pub model: RawModel,
    pub texture_id: u32,
}

/// One draw of the entity pass: the mesh with its texture on unit 0.
#[derive(Clone, Copy, Debug, PartialEq, Eq, Structural)]
pub struct EntityDraw {
    pub model: RawModel,
    pub texture: TextureBinding,
}

pub open spec fn entity_draw_of(entity: TexturedModel) -> EntityDraw {
    EntityDraw { model: entity.model, texture: TextureBinding { unit: 0, texture_id: entity.texture_id } }
}

pub open spec fn entity_models(entities: Seq<TexturedModel>) -> Seq<RawModel> {
    entities.map_values(|e: TexturedModel| e.model)
}

/// Draws the textured entities.
pub struct EntityRenderer {
    pub entity_shader: ShaderProgram,
}

impl EntityRenderer {
    pub fn new(entity_shader: ShaderProgram) -> (r: EntityRenderer)
        ensures
            r.entity_shader == entity_shader,
    {
        EntityRenderer { entity_shader }
    }

    /// The draws of the entity pass, one per entity in order, each counted in
    /// the frame's telemetry.
    pub fn draw_list<T>(&self, entities: &Vec<TexturedModel>, debug_info: &mut DebugInfo<T>) -> (r: Vec<EntityDraw>)
        requires
            old(debug_info).wf(),
            old(debug_info).can_record(entity_models(entities@)),
        ensures
            r@ == entities@.map_values(|e: TexturedModel| entity_draw_of(e)),
            counted(*old(debug_info), *final(debug_info), entity_models(entities@)),
    {
        let ghost models = entity_models(entities@);
        let mut draws: Vec<EntityDraw> = Vec::new();
        let mut i: usize = 0;
        while i < entities.len()
            invariant
                i <= entities@.len(),
                models == entity_models(entities@),
                old(debug_info).wf(),
                old(debug_info).can_record(models),
                draws@ == entities@.subrange(0, i as int).map_values(|e: TexturedModel| entity_draw_of(e)),
                counted(*old(debug_info), *debug_info, models.subrange(0, i as int)),
            decreases entities@.len() - i,
        {
            let entity = entities[i];
            proof {
                lemma_frame_triangles_prefix(models, i as int);
                lemma_frame_triangles_prefix_bound(models, i as int + 1);
                lemma_frame_triangles_nonnegative(models.subrange(0, i as int));
                lemma_frame_triangles_single(entity.model);
            }
            debug_info.record_draw(entity.model);
            draws.push(EntityDraw { model: entity.model, texture: TextureBinding { unit: 0, texture_id: entity.texture_id } });
            i += 1;
            proof {
                assert(draws@ =~= entities@.subrange(0, i as int).map_values(|e: TexturedModel| entity_draw_of(e)));
            }
        }
        proof {
            assert(models.subrange(0, entities@.len() as int) =~= models);
            assert(entities@.subrange(0, entities@.len() as int) =~= entities@);
        }
        draws
    }
}

/// An entity of the skybox pass: the cube mesh and its day and night cube maps.
#[derive(Clone, Copy, Debug, PartialEq, Eq, Structural)]
pub struct SkyboxModel {
    pub model: RawModel,
    pub day_texture: u32,
    pub night_texture: u32,
}

/// One draw of the skybox pass: the day cube map on unit 0, the night one on
/// unit 1.
#[derive(Clone, Copy, Debug, PartialEq, Eq, Structural)]
pub struct SkyboxDraw {
    pub model: RawModel,
    pub day: TextureBinding,
    pub night: TextureBinding,
}

pub open spec fn skybox_draw_of(skybox: SkyboxModel) -> SkyboxDraw {
    SkyboxDraw {
        model: skybox.model,
        day: TextureBinding { unit: 0, texture_id: skybox.day_texture },
        night: TextureBinding { unit: 1, texture_id: skybox.night_texture },
    }
}

pub open spec fn skybox_models(skyboxes: Seq<SkyboxModel>) -> Seq<RawModel> {
    skyboxes.map_values(|s: SkyboxModel| s.model)
}

/// The draws of the skybox pass, one per skybox entity in order, each counted
/// in the frame's telemetry.
pub fn skybox_draw_list<T>(skyboxes: &Vec<SkyboxModel>, debug_info: &mut DebugInfo<T>) -> (r: Vec<SkyboxDraw>)
    requires
        old(debug_info).wf(),
        old(debug_info).can_record(skybox_models(skyboxes@)),
    ensures
        r@ == skyboxes@.map_values(|s: SkyboxModel| skybox_draw_of(s)),
        counted(*old(debug_info), *final(debug_info), skybox_models(skyboxes@)),
{
    let ghost models = skybox_models(skyboxes@);
    let mut draws: Vec<SkyboxDraw> = Vec::new();
    let mut i: usize = 0;
    while i < skyboxes.len()
        invariant
            i <= skyboxes@.len(),
            models == skybox_models(skyboxes@),
            old(debug_info).wf(),
            old(debug_info).can_record(models),
            draws@ == skyboxes@.subrange(0, i as int).map_values(|s: SkyboxModel| skybox_draw_of(s)),
            counted(*old(debug_info), *debug_info, models.subrange(0, i as int)),
        decreases skyboxes@.len() - i,
    {
        let skybox = skyboxes[i];
        proof {
            lemma_frame_triangles_prefix(models, i as int);
            lemma_frame_triangles_prefix_bound(models, i as int + 1);
            lemma_frame_triangles_nonnegative(models.subrange(0, i as int));
            lemma_frame_triangles_single(skybox.model);
        }
        debug_info.record_draw(skybox.model);
        draws.push(
            SkyboxDraw {
                model: skybox.model,
                day: TextureBinding { unit: 0, texture_id: skybox.day_texture },
                night: TextureBinding { unit: 1, texture_id: skybox.night_texture },
            },
        );
        i += 1;
        proof {
            assert(draws@ =~= skyboxes@.subrange(0, i as int).map_values(|s: SkyboxModel| skybox_draw_of(s)));
        }
    }
    proof {
        assert(models.subrange(0, skyboxes@.len() as int) =~= models);
        assert(skyboxes@.subrange(0, skyboxes@.len() as int) =~= skyboxes@);
    }
    draws
}

} // verus!
