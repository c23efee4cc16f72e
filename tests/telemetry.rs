use motorino::{
    debug_key_change, debug_key_changes, Action, DebugInfo, DebugInfoResetter, DebugKeyChange, GridPosition,
    InputEvent, Key, RawModel, RenderSettings, RenderSettingsController, RingBuffer, TerrainRenderer,
    TerrainTexture, TerrainTexturePack, TerrainTile, ShaderProgram, HISTORY_LENGTH,
};

fn ev(source: Key, action: Action) -> InputEvent<Key> {
    InputEvent { source, action }
}

fn pack() -> TerrainTexturePack {
    TerrainTexturePack::new(
        TerrainTexture { texture_id: 1 },
        TerrainTexture { texture_id: 2 },
        TerrainTexture { texture_id: 3 },
        TerrainTexture { texture_id: 4 },
        TerrainTexture { texture_id: 5 },
    )
}

#[test]
fn ring_buffer_evicts_oldest() {
    let mut buffer: RingBuffer<i32> = RingBuffer::new(3);
    for v in 1..=5 {
        buffer.push(v);
    }
    assert_eq!(buffer.deque().iter().copied().collect::<Vec<_>>(), vec![3, 4, 5]);
    assert_eq!(buffer.len(), 3);
}

#[test]
fn ring_buffer_below_capacity_keeps_all() {
    let mut buffer: RingBuffer<i32> = RingBuffer::new(3);
    buffer.push(7);
    buffer.push(8);
    assert_eq!(buffer.deque().iter().copied().collect::<Vec<_>>(), vec![7, 8]);
}

#[test]
fn ring_buffer_of_capacity_zero_stays_empty() {
    let mut buffer: RingBuffer<i32> = RingBuffer::new(0);
    buffer.push(1);
    assert_eq!(buffer.len(), 0);
}

#[test]
fn ring_buffer_default_keeps_ten() {
    let mut buffer: RingBuffer<u8> = RingBuffer::default();
    for v in 0..12u8 {
        buffer.push(v);
    }
    assert_eq!(buffer.len(), 10);
    assert_eq!(buffer.deque().front(), Some(&2));
}

#[test]
fn reset_moves_frame_totals_into_history() {
    let mut info: DebugInfo<f32> = DebugInfo::new();
    let renderer = TerrainRenderer::new(ShaderProgram::from_linked(3, true, String::new()).unwrap());
    let n = 4;
    let vertex_count = 300;
    let tiles: Vec<TerrainTile> = (0..n)
        .map(|i| TerrainTile {
            model: RawModel { vao_id: i, vertex_count },
            textures: pack(),
            grid: GridPosition { x: i as i32, z: 0 },
        })
        .collect();
    let draws = renderer.draw_list(&tiles, &mut info);
    assert_eq!(draws.len(), 4);
    assert_eq!(info.current_frame_triangle_count, 400);
    assert_eq!(info.current_frame_draw_calls, 4);
    DebugInfoResetter.run(&mut info, 0.016);
    assert_eq!(info.triangle_counts.deque().back(), Some(&(n as i32 * (vertex_count as i32 / 3))));
    assert_eq!(info.draw_calls.deque().back(), Some(&4));
    assert_eq!(info.frame_times.deque().back(), Some(&0.016));
    assert_eq!(info.current_frame_triangle_count, 0);
    assert_eq!(info.current_frame_draw_calls, 0);
}

#[test]
fn triangles_round_down_per_model() {
    let mut info: DebugInfo<u32> = DebugInfo::default();
    info.record_draw(RawModel { vao_id: 1, vertex_count: 5 });
    info.record_draw(RawModel { vao_id: 1, vertex_count: 5 });
    assert_eq!(info.current_frame_triangle_count, 2);
    assert_eq!(info.current_frame_draw_calls, 2);
}

#[test]
fn history_holds_fifty_frames() {
    let mut info: DebugInfo<u32> = DebugInfo::new();
    for frame in 0..60u32 {
        info.record_draw(RawModel { vao_id: 1, vertex_count: 3 * frame as usize });
        DebugInfoResetter.run(&mut info, frame);
    }
    assert_eq!(HISTORY_LENGTH, 50);
    assert_eq!(info.triangle_counts.len(), 50);
    assert_eq!(info.triangle_counts.deque().front(), Some(&10));
    assert_eq!(info.triangle_counts.deque().back(), Some(&59));
    assert_eq!(info.frame_times.deque().front(), Some(&10));
}

#[test]
fn slash_press_toggles_overlay() {
    let mut settings = RenderSettings::default();
    let mut controller = RenderSettingsController;
    controller.run(&vec![ev(Key::Slash, Action::Press)], &mut settings);
    assert!(settings.debug_ui);
    controller.run(&vec![ev(Key::Slash, Action::Repeat), ev(Key::Slash, Action::Release)], &mut settings);
    assert!(settings.debug_ui);
    controller.run(&vec![ev(Key::Slash, Action::Press), ev(Key::W, Action::Press)], &mut settings);
    assert!(!settings.debug_ui);
    controller.run(&vec![ev(Key::Slash, Action::Press), ev(Key::Slash, Action::Press)], &mut settings);
    assert!(!settings.debug_ui);
    assert!(!settings.wireframes);
}

#[test]
fn overlay_key_mapping() {
    assert_eq!(debug_key_change(ev(Key::Tab, Action::Press)), Some(DebugKeyChange::Key(0, true)));
    assert_eq!(debug_key_change(ev(Key::Z, Action::Release)), Some(DebugKeyChange::Key(18, false)));
    assert_eq!(debug_key_change(ev(Key::A, Action::Repeat)), Some(DebugKeyChange::Key(13, false)));
    assert_eq!(debug_key_change(ev(Key::RightControl, Action::Press)), Some(DebugKeyChange::Ctrl(true)));
    assert_eq!(debug_key_change(ev(Key::LeftShift, Action::Press)), Some(DebugKeyChange::Shift(true)));
    assert_eq!(debug_key_change(ev(Key::RightAlt, Action::Release)), Some(DebugKeyChange::Alt(false)));
    assert_eq!(debug_key_change(ev(Key::LeftSuper, Action::Press)), Some(DebugKeyChange::Super(true)));
    assert_eq!(debug_key_change(ev(Key::W, Action::Press)), None);
    let changes = debug_key_changes(&vec![
        ev(Key::W, Action::Press),
        ev(Key::Enter, Action::Press),
        ev(Key::Other, Action::Press),
        ev(Key::Escape, Action::Release),
    ]);
    assert_eq!(changes, vec![DebugKeyChange::Key(11, true), DebugKeyChange::Key(12, false)]);
}

#[test]
fn counter_capacity_check() {
    let mut info: DebugInfo<f32> = DebugInfo::new();
    let big = RawModel { vao_id: 1, vertex_count: 3 * (i32::MAX as usize) };
    assert!(info.counters_hold(&vec![big]));
    assert!(!info.counters_hold(&vec![big, RawModel { vao_id: 1, vertex_count: 3 }]));
    assert!(info.counters_hold(&vec![big, RawModel { vao_id: 1, vertex_count: 2 }]));
    info.current_frame_draw_calls = i32::MAX - 1;
    assert!(info.counters_hold(&vec![RawModel { vao_id: 1, vertex_count: 0 }]));
    assert!(!info.counters_hold(&vec![RawModel { vao_id: 1, vertex_count: 0 }; 2]));
}
