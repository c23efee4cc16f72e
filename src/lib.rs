//! Terrain, player and frame-pipeline logic of a small real-time terrain renderer.
//!
//! The rendering backend, windowing, asset decoding and all floating-point
//! maths live in the application around this library; what stands here is the
//! integer and boolean logic those parts rely on, each function with a contract.

mod components;
mod debugui;
mod input;
mod models;
mod player;
mod renderers;
mod ringbuffer;
mod shaders;
mod terrain;

pub use components::{GridPosition, PlayerFlag, RawModel, TerrainTexture, TerrainTexturePack};
pub use debugui::{
    DebugInfo, DebugInfoResetter, RenderSettingsController, DebugKeyChange, HISTORY_LENGTH, frame_triangles,
    counted, reset_from, lemma_reset_reports_frame_totals, debug_ui_after, debug_key_slot, debug_key_change_of,
    debug_key_slot_of, debug_key_change, debug_key_changes_of, debug_key_changes,
};
pub use input::{Action, InputEvent, Key, MouseState, held, is_held};
pub use models::{CubeMapDefinition, Loader};
pub use player::{
    DriveVelocity, PlayerController, RUN_SPEED, TURN_SPEED, JUMP_POWER, GRAVITY, run_step, turn_step, run_after,
    turn_after, is_jump, jump_requested, lemma_run_release_stops, lemma_turn_release_stops,
};
pub use renderers::{
    RenderSettings, WindowSize, WIDTH, HEIGHT, FramePass, frame_order, frame_passes, TextureBinding, TerrainTile,
    TerrainDraw, terrain_bindings, terrain_draw_of, tile_models, TerrainRenderer, TexturedModel, EntityDraw,
    entity_draw_of, entity_models, EntityRenderer, SkyboxModel, SkyboxDraw, skybox_draw_of, skybox_models,
    skybox_draw_list,
};
pub use ringbuffer::{RingBuffer, kept_after_push};
pub use shaders::{Shader, ShaderProgram};
pub use terrain::{
    Heightmap, SIZE, VERTEX_COUNT, CELL_COUNT, MAX_HEIGHT, FULL_SAMPLE, get_height, before, normal_gradient,
    calculate_normal_gradient, HeightField, cell_in_range, triangle_corners, terrain_index, TerrainMesh,
    generate_height_field, terrain_indices, normal_gradients, generate_terrain, tile_origin_of, tile_contains,
    tile_origin, tile_contains_point, find_tile, uniform_heightmap, lemma_uniform_heightmap_flat_field,
    lemma_distinct_tiles_disjoint,
};
