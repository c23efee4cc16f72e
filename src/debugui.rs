use crate::components::RawModel;
use crate::input::{Action, InputEvent, Key};
use crate::renderers::RenderSettings;
use crate::ringbuffer::{RingBuffer, kept_after_push};
use vstd::prelude::*;

verus! {

/// Number of past frames each telemetry history keeps.
pub const HISTORY_LENGTH: usize = 50;

/// Per-frame telemetry: bounded histories of past frames and the counters of
/// the frame being drawn. `T` is the type of a frame-time sample.
pub struct DebugInfo<T> {
    pub frame_times: RingBuffer<T>,
    pub triangle_counts: RingBuffer<i32>,
    pub draw_calls: RingBuffer<i32>,
    pub current_frame_triangle_count: i32,
    pub current_frame_draw_calls: i32,
}

/// Triangles that draws of the given models add to a frame's tally: a third
/// of each model's vertex count, rounded down.
pub open spec fn frame_triangles(models: Seq<RawModel>) -> int
    decreases models.len(),
{
    if models.len() == 0 {
        0
    } else {
        frame_triangles(models.drop_last()) + models.last().vertex_count / 3
    }
}

/// Counters after a pass: one more draw call per drawn model and its
/// triangles added; histories untouched.
pub open spec fn counted<T>(before: DebugInfo<T>, after: DebugInfo<T>, models: Seq<RawModel>) -> bool {
    &&& after.wf()
    &&& after.current_frame_draw_calls == before.current_frame_draw_calls + models.len()
    &&& after.current_frame_triangle_count == before.current_frame_triangle_count + frame_triangles(models)
    &&& after.frame_times == before.frame_times
    &&& after.triangle_counts == before.triangle_counts
    &&& after.draw_calls == before.draw_calls
}

pub(crate) proof fn lemma_frame_triangles_prefix(models: Seq<RawModel>, i: int)
    requires
        0 <= i < models.len(),
    ensures
        frame_triangles(models.subrange(0, i + 1)) == frame_triangles(models.subrange(0, i))
            + models[i].vertex_count / 3,
{
    assert(models.subrange(0, i + 1).drop_last() =~= models.subrange(0, i));
}

pub(crate) proof fn lemma_frame_triangles_nonnegative(models: Seq<RawModel>)
    ensures
        frame_triangles(models) >= 0,
    decreases models.len(),
{
    if models.len() > 0 {
        lemma_frame_triangles_nonnegative(models.drop_last());
    }
}

pub(crate) proof fn lemma_frame_triangles_prefix_bound(models: Seq<RawModel>, i: int)
    requires
        0 <= i <= models.len(),
    ensures
        frame_triangles(models.subrange(0, i)) <= frame_triangles(models),
    decreases models.len() - i,
{
    if i < models.len() {
        assert(models.subrange(0, i + 1).drop_last() =~= models.subrange(0, i));
        lemma_frame_triangles_prefix_bound(models, i + 1);
    } else {
        assert(models.subrange(0, i) =~= models);
    }
}

pub(crate) proof fn lemma_frame_triangles_single(model: RawModel)
    ensures
        frame_triangles(seq![model]) == model.vertex_count / 3,
{
    assert(seq![model].drop_last() =~= Seq::<RawModel>::empty());
    assert(frame_triangles(Seq::<RawModel>::empty()) == 0);
}

impl<T> DebugInfo<T> {
    pub open spec fn wf(&self) -> bool {
        &&& self.frame_times.wf()
        &&& self.triangle_counts.wf()
        &&& self.draw_calls.wf()
        &&& self.current_frame_triangle_count >= 0
        &&& self.current_frame_draw_calls >= 0
    }

    /// The counters of the current frame can take draws of `models` without
    /// leaving the range of `i32`.
    pub open spec fn can_record(&self, models: Seq<RawModel>) -> bool {
        &&& self.current_frame_draw_calls + models.len() <= i32::MAX
        &&& self.current_frame_triangle_count + frame_triangles(models) <= i32::MAX
    }

    /// Empty histories of `HISTORY_LENGTH` frames and zeroed counters.
    pub fn new() -> (r: DebugInfo<T>)
        ensures
            r.wf(),
            r.frame_times@.len() == 0,
            r.triangle_counts@.len() == 0,
            r.draw_calls@.len() == 0,
            r.frame_times.capacity() == HISTORY_LENGTH,
            r.triangle_counts.capacity() == HISTORY_LENGTH,
            r.draw_calls.capacity() == HISTORY_LENGTH,
            r.current_frame_triangle_count == 0,
            r.current_frame_draw_calls == 0,
    {
        DebugInfo {
            frame_times: RingBuffer::new(HISTORY_LENGTH),
            triangle_counts: RingBuffer::new(HISTORY_LENGTH),
            draw_calls: RingBuffer::new(HISTORY_LENGTH),
            current_frame_triangle_count: 0,
            current_frame_draw_calls: 0,
        }
    }

    /// Whether the counters of the current frame can take draws of `models`.
    pub fn counters_hold(&self, models: &Vec<RawModel>) -> (r: bool)
        requires
            self.wf(),
        ensures
            r == self.can_record(models@),
    {
        let mut triangles: i64 = self.current_frame_triangle_count as i64;
        let mut i: usize = 0;
        while i < models.len()
            invariant
                i <= models@.len(),
                self.wf(),
                triangles == self.current_frame_triangle_count + frame_triangles(models@.subrange(0, i as int)),
                0 <= triangles <= i32::MAX,
            decreases models@.len() - i,
        {
            proof {
                assert(models@.subrange(0, i as int + 1).drop_last() =~= models@.subrange(0, i as int));
            }
            let more = (models[i].vertex_count / 3) as i64;
            if more > i32::MAX as i64 - triangles {
                proof {
                    lemma_frame_triangles_prefix_bound(models@, i as int + 1);
                }
                return false;
            }
            triangles = triangles + more;
            i += 1;
        }
        proof {
            assert(models@.subrange(0, models@.len() as int) =~= models@);
        }
        (models.len() as u64) <= (i32::MAX as u64) - (self.current_frame_draw_calls as u64)
    }

    /// Counts one draw of `model`: one draw call and a third of its vertices
    /// as triangles.
    pub fn record_draw(&mut self, model: RawModel)
        requires
            old(self).wf(),
            old(self).can_record(seq![model]),
        ensures
            final(self).wf(),
            final(self).current_frame_draw_calls == old(self).current_frame_draw_calls + 1,
            final(self).current_frame_triangle_count == old(self).current_frame_triangle_count
                + model.vertex_count / 3,
            final(self).frame_times == old(self).frame_times,
            final(self).triangle_counts == old(self).triangle_counts,
            final(self).draw_calls == old(self).draw_calls,
    {
        proof {
            lemma_frame_triangles_single(model);
        }
        self.current_frame_draw_calls = self.current_frame_draw_calls + 1;
        self.current_frame_triangle_count = self.current_frame_triangle_count + (model.vertex_count / 3) as i32;
    }
}

impl<T> Default for DebugInfo<T> {
    fn default() -> (r: DebugInfo<T>)
        ensures
            r.wf(),
            r.frame_times@.len() == 0,
            r.triangle_counts@.len() == 0,
            r.draw_calls@.len() == 0,
            r.frame_times.capacity() == HISTORY_LENGTH,
            r.triangle_counts.capacity() == HISTORY_LENGTH,
            r.draw_calls.capacity() == HISTORY_LENGTH,
            r.current_frame_triangle_count == 0,
            r.current_frame_draw_calls == 0,
    {
        DebugInfo::new()
    }
}

/// The telemetry after a reset of `before` that recorded a frame of length
/// `dt`: each counter pushed into its history, the frame time into its own,
/// capacities kept, counters zeroed.
pub open spec fn reset_from<T>(before: DebugInfo<T>, after: DebugInfo<T>, dt: T) -> bool {
    &&& after.wf()
    &&& after.triangle_counts@ == kept_after_push(
        before.triangle_counts@,
        before.triangle_counts.capacity(),
        before.current_frame_triangle_count,
    )
    &&& after.draw_calls@ == kept_after_push(
        before.draw_calls@,
        before.draw_calls.capacity(),
        before.current_frame_draw_calls,
    )
    &&& after.frame_times@ == kept_after_push(before.frame_times@, before.frame_times.capacity(), dt)
    &&& after.triangle_counts.capacity() == before.triangle_counts.capacity()
    &&& after.draw_calls.capacity() == before.draw_calls.capacity()
    &&& after.frame_times.capacity() == before.frame_times.capacity()
    &&& after.current_frame_triangle_count == 0
    &&& after.current_frame_draw_calls == 0
}

/// The first step of a frame: moves the last frame's counters into the
/// histories and starts the new frame from zero.
#[derive(Clone, Copy, Debug, Default)]
pub struct DebugInfoResetter;

impl DebugInfoResetter {
    /// Pushes the last frame's triangle and draw-call counts and its duration
    /// `dt` into the histories, then zeroes both counters.
    pub fn run<T>(&mut self, debug_info: &mut DebugInfo<T>, dt: T)
        requires
            old(debug_info).wf(),
        ensures
            reset_from(*old(debug_info), *final(debug_info), dt),
    {
        let last_triangle_count = debug_info.current_frame_triangle_count;
        let last_draw_call_count = debug_info.current_frame_draw_calls;
        debug_info.triangle_counts.push(last_triangle_count);
        debug_info.draw_calls.push(last_draw_call_count);
        debug_info.frame_times.push(dt);
        debug_info.current_frame_triangle_count = 0;
        debug_info.current_frame_draw_calls = 0;
    }
}

proof fn lemma_uniform_frame_triangles(models: Seq<RawModel>, vertex_count: usize)
    requires
        forall|i: int| 0 <= i < models.len() ==> #[trigger] models[i].vertex_count == vertex_count,
    ensures
        frame_triangles(models) == models.len() * (vertex_count / 3),
    decreases models.len(),
{
    if models.len() > 0 {
        let rest = models.drop_last();
        assert forall|i: int| 0 <= i < rest.len() implies #[trigger] rest[i].vertex_count == vertex_count by {
            assert(rest[i] == models[i]);
        }
        lemma_uniform_frame_triangles(rest, vertex_count);
        assert(models.len() * (vertex_count / 3) == rest.len() * (vertex_count / 3) + vertex_count / 3)
            by (nonlinear_arith)
            requires
                models.len() == rest.len() + 1,
        ;
    }
}

/// A frame that starts from the counters a reset left at zero and draws `n`
/// models of `vertex_count` vertices each tallies `n * (vertex_count / 3)`
/// triangles and `n` draw calls; the next reset makes those the newest
/// history samples and reads zero on both counters again.
pub proof fn lemma_reset_reports_frame_totals<T>(
    reset: DebugInfo<T>,
    drawn: DebugInfo<T>,
    models: Seq<RawModel>,
    vertex_count: usize,
    next_reset: DebugInfo<T>,
    dt: T,
)
    requires
        reset.current_frame_triangle_count == 0,
        reset.current_frame_draw_calls == 0,
        reset.triangle_counts.capacity() > 0,
        reset.draw_calls.capacity() > 0,
        forall|i: int| 0 <= i < models.len() ==> #[trigger] models[i].vertex_count == vertex_count,
        counted(reset, drawn, models),
        reset_from(drawn, next_reset, dt),
    ensures
        drawn.current_frame_triangle_count == models.len() * (vertex_count / 3),
        next_reset.triangle_counts@.last() == models.len() * (vertex_count / 3),
        next_reset.draw_calls@.last() == models.len(),
        next_reset.current_frame_triangle_count == 0,
        next_reset.current_frame_draw_calls == 0,
{
    lemma_uniform_frame_triangles(models, vertex_count);
}

/// The debug-overlay toggle after a frame's key events: each press of Slash
/// flips it.
pub open spec fn debug_ui_after(debug_ui: bool, events: Seq<InputEvent<Key>>) -> bool
    decreases events.len(),
{
    if events.len() == 0 {
        debug_ui
    } else {
        let before = debug_ui_after(debug_ui, events.drop_last());
        if events.last().source == Key::Slash && events.last().action == Action::Press {
            !before
        } else {
            before
        }
    }
}

/// Flips the debug overlay on each press of Slash.
#[derive(Clone, Copy, Debug, Default)]
pub struct RenderSettingsController;

impl RenderSettingsController {
    pub fn run(&mut self, key_events: &Vec<InputEvent<Key>>, render_settings: &mut RenderSettings)
        ensures
            final(render_settings).debug_ui == debug_ui_after(old(render_settings).debug_ui, key_events@),
            final(render_settings).wireframes == old(render_settings).wireframes,
    {
        let mut i: usize = 0;
        while i < key_events.len()
            invariant
                i <= key_events@.len(),
                render_settings.debug_ui == debug_ui_after(
                    old(render_settings).debug_ui,
                    key_events@.subrange(0, i as int),
                ),
                render_settings.wireframes == old(render_settings).wireframes,
            decreases key_events@.len() - i,
        {
            proof {
                assert(key_events@.subrange(0, i as int + 1).drop_last() =~= key_events@.subrange(0, i as int));
            }
            let event = key_events[i];
            if event.source == Key::Slash && event.action == Action::Press {
                render_settings.debug_ui = !render_settings.debug_ui;
            }
            i += 1;
        }
        proof {
            assert(key_events@.subrange(0, key_events@.len() as int) =~= key_events@);
        }
    }
}

/// A change to the debug overlay's keyboard state.
#[derive(Clone, Copy, Debug, PartialEq, Eq, Structural)]
pub enum DebugKeyChange {
    /// The overlay's key in slot `0`, pressed or not.
    Key(usize, bool),
    Ctrl(bool),
    Shift(bool),
    Alt(bool),
    Super(bool),
}

/// The overlay's key slot of each navigation and editing key it reads.
pub open spec fn debug_key_slot(key: Key) -> Option<usize> {
    match key {
        Key::Tab => Some(0),
        Key::Left => Some(1),
        Key::Right => Some(2),
        Key::Up => Some(3),
        Key::Down => Some(4),
        Key::PageUp => Some(5),
        Key::PageDown => Some(6),
        Key::Home => Some(7),
        Key::End => Some(8),
        Key::Delete => Some(9),
        Key::Backspace => Some(10),
        Key::Enter => Some(11),
        Key::Escape => Some(12),
        Key::A => Some(13),
        Key::C => Some(14),
        Key::V => Some(15),
        Key::X => Some(16),
        Key::Y => Some(17),
        Key::Z => Some(18),
        _ => None,
    }
}

/// What a key event changes in the overlay's keyboard state: a key counts
/// as down only on a press, so a repeat or a release sets it up.
pub open spec fn debug_key_change_of(event: InputEvent<Key>) -> Option<DebugKeyChange> {
    let pressed = event.action == Action::Press;
    match debug_key_slot(event.source) {
        Some(slot) => Some(DebugKeyChange::Key(slot, pressed)),
        None => match event.source {
            Key::LeftControl | Key::RightControl => Some(DebugKeyChange::Ctrl(pressed)),
            Key::LeftShift | Key::RightShift => Some(DebugKeyChange::Shift(pressed)),
            Key::LeftAlt | Key::RightAlt => Some(DebugKeyChange::Alt(pressed)),
            Key::LeftSuper | Key::RightSuper => Some(DebugKeyChange::Super(pressed)),
            _ => None,
        },
    }
}

/// The overlay's key slot of `key`, if it reads that key.
pub fn debug_key_slot_of(key: Key) -> (r: Option<usize>)
    ensures
        r == debug_key_slot(key),
{
    match key {
        Key::Tab => Some(0),
        Key::Left => Some(1),
        Key::Right => Some(2),
        Key::Up => Some(3),
        Key::Down => Some(4),
        Key::PageUp => Some(5),
        Key::PageDown => Some(6),
        Key::Home => Some(7),
        Key::End => Some(8),
        Key::Delete => Some(9),
        Key::Backspace => Some(10),
        Key::Enter => Some(11),
        Key::Escape => Some(12),
        Key::A => Some(13),
        Key::C => Some(14),
        Key::V => Some(15),
        Key::X => Some(16),
        Key::Y => Some(17),
        Key::Z => Some(18),
        _ => None,
    }
}

/// What `event` changes in the overlay's keyboard state, if anything.
pub fn debug_key_change(event: InputEvent<Key>) -> (r: Option<DebugKeyChange>)
    ensures
        r == debug_key_change_of(event),
{
    let pressed = event.action == Action::Press;
    match debug_key_slot_of(event.source) {
        Some(slot) => Some(DebugKeyChange::Key(slot, pressed)),
        None => match event.source {
            Key::LeftControl | Key::RightControl => Some(DebugKeyChange::Ctrl(pressed)),
            Key::LeftShift | Key::RightShift => Some(DebugKeyChange::Shift(pressed)),
            Key::LeftAlt | Key::RightAlt => Some(DebugKeyChange::Alt(pressed)),
            Key::LeftSuper | Key::RightSuper => Some(DebugKeyChange::Super(pressed)),
            _ => None,
        },
    }
}

/// The overlay's keyboard changes for a sequence of key events, in order;
/// events it does not read contribute nothing.
pub open spec fn debug_key_changes_of(events: Seq<InputEvent<Key>>) -> Seq<DebugKeyChange>
    decreases events.len(),
{
    if events.len() == 0 {
        Seq::empty()
    } else {
        let before = debug_key_changes_of(events.drop_last());
        match debug_key_change_of(events.last()) {
            Some(change) => before.push(change),
            None => before,
        }
    }
}

/// The overlay's keyboard changes for a frame's key events, in order.
pub fn debug_key_changes(key_events: &Vec<InputEvent<Key>>) -> (r: Vec<DebugKeyChange>)
    ensures
        r@ == debug_key_changes_of(key_events@),
{
    let mut changes: Vec<DebugKeyChange> = Vec::new();
    let mut i: usize = 0;
    while i < key_events.len()
        invariant
            i <= key_events@.len(),
            changes@ == debug_key_changes_of(key_events@.subrange(0, i as int)),
        decreases key_events@.len() - i,
    {
        proof {
            assert(key_events@.subrange(0, i as int + 1).drop_last() =~= key_events@.subrange(0, i as int));
        }
        if let Some(change) = debug_key_change(key_events[i]) {
            changes.push(change);
        }
        i += 1;
    }
    proof {
        assert(key_events@.subrange(0, key_events@.len() as int) =~= key_events@);
    }
    changes
}

} // verus!
