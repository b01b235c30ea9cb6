use vstd::prelude::*;
use crate::queue::CommandQueue;

verus! {

/// The raw command byte that asks for one die to be rolled.
pub const ROLL_ONE_COMMAND: u8 = 1;

/// The raw command byte that clears every tracked die.
pub const CLEAR_COMMAND: u8 = 0;

/// Numerator of the fixed angular rate at which held keys rotate the
/// manipulable object and orbit the camera: the rate is exactly five
/// sixths of a radian per second, and the host scales it by the elapsed
/// frame time.
pub const ROTATION_RATE_RAD_PER_S_NUM: u32 = 5;

/// Denominator of the fixed angular rate; see the numerator.
pub const ROTATION_RATE_RAD_PER_S_DEN: u32 = 6;

/// Which keys are held down during one tick. `roll` and `clear` are the two
/// trigger keys whose press edges enqueue commands; the rest continuously
/// drive rotations while held.
pub struct KeyState {
    pub rotate_x: bool,
    pub rotate_y: bool,
    pub rotate_z: bool,
    pub reset_orientation: bool,
    pub orbit_left: bool,
    pub orbit_right: bool,
    pub orbit_down: bool,
    pub orbit_up: bool,
    pub roll: bool,
    pub clear: bool,
}

/// One continuous action the host should apply this tick, scaled by the
/// frame's elapsed time: rotating the manipulable object around one of its
/// local axes or resetting its orientation, or orbiting the camera around
/// the world origin.
pub enum InputAction {
    RotateObjectX,
    RotateObjectY,
    RotateObjectZ,
    ResetObjectOrientation,
    OrbitCameraLeft,
    OrbitCameraRight,
    OrbitCameraDown,
    OrbitCameraUp,
}

/// True when a trigger key fires this tick: it is down now and was not down
/// on the previous tick. A key held across many ticks fires only on the
/// first.
pub open spec fn edge_fired(was_down: bool, down: bool) -> bool {
    down && !was_down
}

/// The continuous actions one tick produces from the held keys, in the
/// fixed order the handler checks them.
pub open spec fn spec_actions(keys: KeyState) -> Seq<InputAction> {
    (if keys.rotate_x {
        seq![InputAction::RotateObjectX]
    } else {
        Seq::empty()
    }) + (if keys.rotate_y {
        seq![InputAction::RotateObjectY]
    } else {
        Seq::empty()
    }) + (if keys.rotate_z {
        seq![InputAction::RotateObjectZ]
    } else {
        Seq::empty()
    }) + (if keys.reset_orientation {
        seq![InputAction::ResetObjectOrientation]
    } else {
        Seq::empty()
    }) + (if keys.orbit_left {
        seq![InputAction::OrbitCameraLeft]
    } else {
        Seq::empty()
    }) + (if keys.orbit_right {
        seq![InputAction::OrbitCameraRight]
    } else {
        Seq::empty()
    }) + (if keys.orbit_down {
        seq![InputAction::OrbitCameraDown]
    } else {
        Seq::empty()
    }) + (if keys.orbit_up {
        seq![InputAction::OrbitCameraUp]
    } else {
        Seq::empty()
    })
}

/// The commands one tick appends to the queue: the roll command on the roll
/// key's press edge, then the clear command on the clear key's press edge.
pub open spec fn spec_enqueued(tracker: InputTracker, keys: KeyState) -> Seq<u8> {
    (if edge_fired(tracker.roll_was_down, keys.roll) {
        seq![ROLL_ONE_COMMAND]
    } else {
        Seq::empty()
    }) + (if edge_fired(tracker.clear_was_down, keys.clear) {
        seq![CLEAR_COMMAND]
    } else {
        Seq::empty()
    })
}

/// Remembers, across ticks, whether each trigger key was down on the
/// previous tick, so that a press is detected as an edge and fires exactly
/// once however long the key stays held.
pub struct InputTracker {
    pub roll_was_down: bool,
    pub clear_was_down: bool,
}

impl InputTracker {
    /// A fresh tracker: no key was down before the first tick.
    pub fn new() -> (t: InputTracker)
        ensures
            !t.roll_was_down,
            !t.clear_was_down,
    {
        InputTracker { roll_was_down: false, clear_was_down: false }
    }

    /// One tick of input handling. Returns the continuous actions the held
    /// keys ask for, appends to the queue the roll command if the roll key
    /// fired this tick and then the clear command if the clear key did, and
    /// remembers the keys' state for the next tick's edge detection.
    #[verifier::rlimit(60)]
    pub fn tick(&mut self, keys: &KeyState, queue: &mut CommandQueue) -> (actions: Vec<
        InputAction,
    >)
        ensures
            actions@ =~= spec_actions(*keys),
            final(queue)@ =~= old(queue)@ + spec_enqueued(*old(self), *keys),
            final(self).roll_was_down == keys.roll,
            final(self).clear_was_down == keys.clear,
    {
        let mut actions: Vec<InputAction> = Vec::new();
        if keys.rotate_x {
            actions.push(InputAction::RotateObjectX);
        }
        if keys.rotate_y {
            actions.push(InputAction::RotateObjectY);
        }
        if keys.rotate_z {
            actions.push(InputAction::RotateObjectZ);
        }
        if keys.reset_orientation {
            actions.push(InputAction::ResetObjectOrientation);
        }
        if keys.orbit_left {
            actions.push(InputAction::OrbitCameraLeft);
        }
        if keys.orbit_right {
            actions.push(InputAction::OrbitCameraRight);
        }
        if keys.orbit_down {
            actions.push(InputAction::OrbitCameraDown);
        }
        if keys.orbit_up {
            actions.push(InputAction::OrbitCameraUp);
        }
        if keys.roll && !self.roll_was_down {
            queue.enqueue(ROLL_ONE_COMMAND);
        }
        if keys.clear && !self.clear_was_down {
            queue.enqueue(CLEAR_COMMAND);
        }
        self.roll_was_down = keys.roll;
        self.clear_was_down = keys.clear;
        actions
    }
}

/// A roll press edge with no simultaneous clear edge appends exactly one
/// command, the roll command, to a queue holding `q`: the queue becomes
/// `q.push(1)`. (When both trigger keys fire in the same tick, the queue
/// instead gains the roll command and then the clear command, as
/// `spec_enqueued` states.)
pub proof fn lemma_roll_edge_pushes_single_command(
    tracker: InputTracker,
    keys: KeyState,
    q: Seq<u8>,
)
    requires
        edge_fired(tracker.roll_was_down, keys.roll),
        !edge_fired(tracker.clear_was_down, keys.clear),
    ensures
        q + spec_enqueued(tracker, keys) =~= q.push(ROLL_ONE_COMMAND),
{
}

/// A clear press edge with no simultaneous roll edge appends exactly one
/// command, the clear command: the queue becomes `q.push(0)`.
pub proof fn lemma_clear_edge_pushes_single_command(
    tracker: InputTracker,
    keys: KeyState,
    q: Seq<u8>,
)
    requires
        !edge_fired(tracker.roll_was_down, keys.roll),
        edge_fired(tracker.clear_was_down, keys.clear),
    ensures
        q + spec_enqueued(tracker, keys) =~= q.push(CLEAR_COMMAND),
{
}

/// The input handler enqueues nothing but the two trigger commands: every
/// byte a tick appends is the roll command or the clear command.
pub proof fn lemma_input_enqueues_only_trigger_commands(tracker: InputTracker, keys: KeyState)
    ensures
        forall|i: int|
            0 <= i < spec_enqueued(tracker, keys).len() ==> {
                ||| #[trigger] spec_enqueued(tracker, keys)[i] == ROLL_ONE_COMMAND
                ||| spec_enqueued(tracker, keys)[i] == CLEAR_COMMAND
            },
{
}

/// How many times a trigger key fires over a run of consecutive ticks,
/// given whether it was down just before the run and whether it is down on
/// each tick of the run. Follows the tracker's recurrence: a tick fires on
/// the press edge and then the tick's state becomes the next tick's
/// previous state.
pub open spec fn fires_in_run(was_down: bool, held: Seq<bool>) -> nat
    decreases held.len(),
{
    if held.len() == 0 {
        0
    } else {
        (if edge_fired(was_down, held[0]) {
            1nat
        } else {
            0nat
        }) + fires_in_run(held[0], held.drop_first())
    }
}

/// Edge triggering: over a run of ticks during which a trigger key is held
/// down the whole time, the key fires exactly once if it was up before the
/// run began, and not at all if it was already down — never once per tick.
pub proof fn lemma_held_key_fires_once(was_down: bool, held: Seq<bool>)
    requires
        forall|i: int| 0 <= i < held.len() ==> held[i],
    ensures
        fires_in_run(was_down, held) == if held.len() > 0 && !was_down {
            1nat
        } else {
            0nat
        },
    decreases held.len(),
{
    if held.len() > 0 {
        assert(held[0]);
        lemma_held_key_fires_once(held[0], held.drop_first());
    }
}

} // verus!
