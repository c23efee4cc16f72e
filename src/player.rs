use crate::input::{Action, InputEvent, Key, held, is_held};
use vstd::prelude::*;

verus! {

/// Run speed in world units per second.
pub const RUN_SPEED: i32 = 50;

/// Turn speed in degrees per second.
pub const TURN_SPEED: i32 = 120;

/// Upward speed given by a jump, in world units per second.
pub const JUMP_POWER: i32 = 25;

/// Vertical acceleration, in world units per second squared.
pub const GRAVITY: i32 = -80;

/// The part of the player's velocity that keys set: run speed along the
/// heading and turn speed around the vertical axis.
#[derive(Clone, Copy, Debug, Default, PartialEq, Eq, Structural)]
pub struct DriveVelocity {
    pub run_velocity: i32,
    pub turn_velocity: i32,
}

/// Run velocity after one key event: W holds it at `RUN_SPEED`, S at
/// `-RUN_SPEED`, and releasing either stops it.
pub open spec fn run_step(run: i32, event: InputEvent<Key>) -> i32 {
    if event.source == Key::W && is_held(event.action) {
        RUN_SPEED
    } else if event.source == Key::S && is_held(event.action) {
        (-RUN_SPEED) as i32
    } else if (event.source == Key::W || event.source == Key::S) && event.action == Action::Release {
        0
    } else {
        run
    }
}

/// Turn velocity after one key event: A holds it at `TURN_SPEED`, D at
/// `-TURN_SPEED`, and releasing either stops it.
pub open spec fn turn_step(turn: i32, event: InputEvent<Key>) -> i32 {
    if event.source == Key::A && is_held(event.action) {
        TURN_SPEED
    } else if event.source == Key::D && is_held(event.action) {
        (-TURN_SPEED) as i32
    } else if (event.source == Key::A || event.source == Key::D) && event.action == Action::Release {
        0
    } else {
        turn
    }
}

/// Run velocity after a frame's key events, taken in order.
pub open spec fn run_after(run: i32, events: Seq<InputEvent<Key>>) -> i32
    decreases events.len(),
{
    if events.len() == 0 {
        run
    } else {
        run_step(run_after(run, events.drop_last()), events.last())
    }
}

/// Turn velocity after a frame's key events, taken in order.
pub open spec fn turn_after(turn: i32, events: Seq<InputEvent<Key>>) -> i32
    decreases events.len(),
{
    if events.len() == 0 {
        turn
    } else {
        turn_step(turn_after(turn, events.drop_last()), events.last())
    }
}

/// The event asks for a jump: Space pressed or repeating.
pub open spec fn is_jump(event: InputEvent<Key>) -> bool {
    event.source == Key::Space && is_held(event.action)
}

/// Some event of the sequence asks for a jump.
pub open spec fn jump_requested(events: Seq<InputEvent<Key>>) -> bool {
    exists|i: int| 0 <= i < events.len() && is_jump(#[trigger] events[i])
}

/// Turns key events into velocity for the player and tracks whether the
/// player is in the air, so that a jump only starts from the ground.
#[derive(Clone, Copy, Debug, Default)]
pub struct PlayerController {
    pub is_in_air: bool,
}

impl PlayerController {
    pub fn new() -> (r: PlayerController)
        ensures
            !r.is_in_air,
    {
        PlayerController { is_in_air: false }
    }

    /// Applies one key event. Returns whether it started a jump, in which case
    /// the caller sets the upward velocity to `JUMP_POWER`; a jump requested
    /// in the air does nothing.
    pub fn handle_key(&mut self, velocity: &mut DriveVelocity, event: InputEvent<Key>) -> (jumped: bool)
        ensures
            final(velocity).run_velocity == run_step(old(velocity).run_velocity, event),
            final(velocity).turn_velocity == turn_step(old(velocity).turn_velocity, event),
            jumped == (!old(self).is_in_air && is_jump(event)),
            final(self).is_in_air == (old(self).is_in_air || jumped),
    {
        let pressed = held(event.action);
        match event.source {
            Key::W => {
                if pressed {
                    velocity.run_velocity = RUN_SPEED;
                } else if event.action == Action::Release {
                    velocity.run_velocity = 0;
                }
            },
            Key::S => {
                if pressed {
                    velocity.run_velocity = -RUN_SPEED;
                } else if event.action == Action::Release {
                    velocity.run_velocity = 0;
                }
            },
            Key::A => {
                if pressed {
                    velocity.turn_velocity = TURN_SPEED;
                } else if event.action == Action::Release {
                    velocity.turn_velocity = 0;
                }
            },
            Key::D => {
                if pressed {
                    velocity.turn_velocity = -TURN_SPEED;
                } else if event.action == Action::Release {
                    velocity.turn_velocity = 0;
                }
            },
            Key::Space => {
                if pressed && !self.is_in_air {
                    self.is_in_air = true;
                    return true;
                }
            },
            _ => {},
        }
        false
    }

    /// Applies a frame's key events in order. Returns whether they started a
    /// jump: exactly when the player was on the ground and some event asked
    /// for one. Only the first such request before landing has an effect.
    pub fn handle_key_events(&mut self, velocity: &mut DriveVelocity, events: &Vec<InputEvent<Key>>) -> (jumped: bool)
        ensures
            final(velocity).run_velocity == run_after(old(velocity).run_velocity, events@),
            final(velocity).turn_velocity == turn_after(old(velocity).turn_velocity, events@),
            jumped == (!old(self).is_in_air && jump_requested(events@)),
            final(self).is_in_air == (old(self).is_in_air || jumped),
    {
        let mut jumped = false;
        let mut i: usize = 0;
        while i < events.len()
            invariant
                i <= events@.len(),
                velocity.run_velocity == run_after(old(velocity).run_velocity, events@.subrange(0, i as int)),
                velocity.turn_velocity == turn_after(old(velocity).turn_velocity, events@.subrange(0, i as int)),
                jumped == (!old(self).is_in_air && jump_requested(events@.subrange(0, i as int))),
                self.is_in_air == (old(self).is_in_air || jumped),
            decreases events@.len() - i,
        {
            let ghost prefix = events@.subrange(0, i as int);
            let ghost next = events@.subrange(0, i as int + 1);
            assert(next.drop_last() =~= prefix);
            let j = self.handle_key(velocity, events[i]);
            assert(jump_requested(next) == (jump_requested(prefix) || is_jump(events@[i as int]))) by {
                if is_jump(events@[i as int]) {
                    assert(next[i as int] == events@[i as int]);
                }
                if jump_requested(prefix) {
                    let k = choose|k: int| 0 <= k < prefix.len() && is_jump(#[trigger] prefix[k]);
                    assert(next[k] == prefix[k]);
                }
                if jump_requested(next) {
                    let k = choose|k: int| 0 <= k < next.len() && is_jump(#[trigger] next[k]);
                    if k < i {
                        assert(prefix[k] == next[k]);
                    }
                }
            }
            jumped = jumped || j;
            i += 1;
        }
        assert(events@.subrange(0, events@.len() as int) =~= events@);
        jumped
    }

    /// The player touched the ground: it may jump again.
    pub fn land(&mut self)
        ensures
            !final(self).is_in_air,
    {
        self.is_in_air = false;
    }
}

/// Releasing W or S stops the player: when a release of either is the last
/// run-axis event of a frame, the run velocity after the frame is exactly 0.
pub proof fn lemma_run_release_stops(run: i32, events: Seq<InputEvent<Key>>, k: int)
    requires
        0 <= k < events.len(),
        events[k].source == Key::W || events[k].source == Key::S,
        events[k].action == Action::Release,
        forall|j: int| k < j < events.len() ==> #[trigger] events[j].source != Key::W && events[j].source != Key::S,
    ensures
        run_after(run, events) == 0,
    decreases events.len(),
{
    if k < events.len() - 1 {
        let rest = events.drop_last();
        assert forall|j: int| k < j < rest.len() implies #[trigger] rest[j].source != Key::W && rest[j].source != Key::S by {
            assert(rest[j] == events[j]);
        }
        lemma_run_release_stops(run, rest, k);
    }
}

/// Releasing A or D stops the turn: when a release of either is the last
/// turn-axis event of a frame, the turn velocity after the frame is exactly 0.
pub proof fn lemma_turn_release_stops(turn: i32, events: Seq<InputEvent<Key>>, k: int)
    requires
        0 <= k < events.len(),
        events[k].source == Key::A || events[k].source == Key::D,
        events[k].action == Action::Release,
        forall|j: int| k < j < events.len() ==> #[trigger] events[j].source != Key::A && events[j].source != Key::D,
    ensures
        turn_after(turn, events) == 0,
    decreases events.len(),
{
    if k < events.len() - 1 {
        let rest = events.drop_last();
        assert forall|j: int| k < j < rest.len() implies #[trigger] rest[j].source != Key::A && rest[j].source != Key::D by {
            assert(rest[j] == events[j]);
        }
        lemma_turn_release_stops(turn, rest, k);
    }
}

} // verus!
