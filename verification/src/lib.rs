use vstd::prelude::*;

mod arena;
mod assets;
mod input;
mod queue;
mod sim;
mod slot;
mod spawn;

pub use arena::ColliderRole;
pub use arena::HalfExtents;
pub use arena::Point;
pub use arena::StaticCollider;
pub use arena::SceneConfig;
pub use arena::arena_colliders;
pub use arena::biggest_dimension;
pub use arena::scene_config;
pub use assets::model_asset_name;
pub use assets::AssetGate;
pub use assets::DieKind;
pub use assets::DieMeshTable;
pub use assets::GateStep;
pub use assets::NamedMeshes;
pub use assets::source_mesh_name;
pub use input::CLEAR_COMMAND;
pub use input::InputAction;
pub use input::InputTracker;
pub use input::KeyState;
pub use input::ROLL_ONE_COMMAND;
pub use input::ROTATION_RATE_RAD_PER_S_DEN;
pub use input::ROTATION_RATE_RAD_PER_S_NUM;
pub use queue::CommandQueue;
pub use sim::Simulation;
pub use sim::TickReport;
pub use sim::ViewportConfig;
pub use slot::SetOnce;
pub use spawn::AXIS_SAMPLE_BOUND;
pub use spawn::DIE_SCALE_TENTHS;
pub use spawn::DiceWorld;
pub use spawn::IMPULSE_MAGNITUDE;
pub use spawn::Die;
pub use spawn::DieCollider;
pub use spawn::direction_from_samples;
pub use spawn::ImpulseDir;
pub use spawn::SpawnOutcome;
pub use spawn::sample_impulse_dir;
pub use spawn::spawn_position;

verus! {

/// A command carried over the host-to-simulation channel: `0` clears every
/// tracked die, any nonzero value `n` asks for `n` new dice.
pub enum Command {
    Clear,
    Spawn(u8),
}

/// The meaning of one raw command byte.
pub open spec fn spec_decode_command(raw: u8) -> Command {
    if raw == 0 {
        Command::Clear
    } else {
        Command::Spawn(raw)
    }
}

/// Decodes a raw command byte: `0` is a clear, anything else a spawn count.
pub fn decode_command(raw: u8) -> (c: Command)
    ensures
        c == spec_decode_command(raw),
{
    if raw == 0 {
        Command::Clear
    } else {
        Command::Spawn(raw)
    }
}

} // verus!
