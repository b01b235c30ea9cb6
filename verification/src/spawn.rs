use vstd::prelude::*;
use rand::Rng;
use crate::assets::DieMeshTable;
use crate::queue::CommandQueue;

verus! {

/// Sampled impulse components lie in `[-AXIS_SAMPLE_BOUND, AXIS_SAMPLE_BOUND]`,
/// a fixed-point rendering of the unit interval in thousandths.
pub const AXIS_SAMPLE_BOUND: i32 = 1000;

/// The magnitude, in world units, to which the host scales a die's impulse
/// direction after normalizing it.
pub const IMPULSE_MAGNITUDE: u32 = 100;

/// Visual scale factor applied to a spawned die, in tenths: x10.
pub const DIE_SCALE_TENTHS: u32 = 100;

/// Relies on rand::thread_rng and rand::Rng::gen_range: a value drawn from
/// the given inclusive range, which is nonempty here, so the draw cannot
/// panic and the result lies within the bounds. Nothing more is promised of
/// a random value.
#[verifier::external_body]
fn sample_axis_component() -> (r: i32)
    ensures
        -AXIS_SAMPLE_BOUND <= r <= AXIS_SAMPLE_BOUND,
{
    let mut rng = rand::thread_rng();
    rng.gen_range(-AXIS_SAMPLE_BOUND..=AXIS_SAMPLE_BOUND)
}

/// The direction of the impulse a die is thrown with, in thousandths of a
/// unit per component. The host normalizes it and scales it to
/// `IMPULSE_MAGNITUDE`; for that to be defined the horizontal part must not
/// be the zero vector, and the throw is always flat, so the vertical
/// component is exactly zero.
pub struct ImpulseDir {
    pub x: i32,
    pub y: i32,
    pub z: i32,
}

impl ImpulseDir {
    /// A valid impulse direction: components within the sample bounds, a
    /// vertical component of exactly zero, and a horizontal part that is
    /// not the zero vector (so normalization is defined).
    pub open spec fn wf(&self) -> bool {
        &&& -AXIS_SAMPLE_BOUND <= self.x <= AXIS_SAMPLE_BOUND
        &&& self.y == 0
        &&& -AXIS_SAMPLE_BOUND <= self.z <= AXIS_SAMPLE_BOUND
        &&& !(self.x == 0 && self.z == 0)
    }
}

/// The impulse direction built from two drawn horizontal samples: the pair
/// passes through as a flat vector, except that the degenerate all-zero
/// pair — which normalization could not handle — falls back to the
/// positive x axis.
pub open spec fn spec_direction_from(x: i32, z: i32) -> ImpulseDir {
    if x == 0 && z == 0 {
        ImpulseDir { x: AXIS_SAMPLE_BOUND, y: 0, z: 0 }
    } else {
        ImpulseDir { x, y: 0, z }
    }
}

/// Builds the impulse direction for a die from the two drawn horizontal
/// components: they pass through unchanged, flat, unless both are zero, in
/// which case the direction falls back to the positive x axis rather than
/// handing the physics engine an unnormalizable zero vector.
pub fn direction_from_samples(x: i32, z: i32) -> (d: ImpulseDir)
    requires
        -AXIS_SAMPLE_BOUND <= x <= AXIS_SAMPLE_BOUND,
        -AXIS_SAMPLE_BOUND <= z <= AXIS_SAMPLE_BOUND,
    ensures
        d == spec_direction_from(x, z),
        d.wf(),
{
    if x == 0 && z == 0 {
        ImpulseDir { x: AXIS_SAMPLE_BOUND, y: 0, z: 0 }
    } else {
        ImpulseDir { x, y: 0, z }
    }
}

/// Draws a random horizontal impulse direction: both horizontal components
/// uniform over the sample bounds, vertical component zero, with the
/// vanishingly rare all-zero draw replaced as `direction_from_samples`
/// states.
pub fn sample_impulse_dir() -> (d: ImpulseDir)
    ensures
        d.wf(),
{
    let x = sample_axis_component();
    let z = sample_axis_component();
    direction_from_samples(x, z)
}

/// The collision volume a spawned die carries, derived from a mesh handle.
/// The spawn policy always derives a convex hull.
pub enum DieCollider {
    /// The convex hull of the named mesh's vertices.
    ConvexHullOf(u64),
    /// The named mesh's triangles taken as-is.
    TriMeshOf(u64),
}

/// One tracked die: the mesh it renders with, the collider derived from
/// that mesh, and the impulse it was thrown with. Its ongoing velocity and
/// gravity state live in the physics engine.
pub struct Die {
    pub mesh: u64,
    pub collider: DieCollider,
    pub impulse: ImpulseDir,
}

/// What a freshly spawned die must look like when the table `t` supplied
/// its mesh: it renders the table's twenty-sided mesh, its collider is the
/// convex hull of that same mesh, and its impulse is a valid flat throw.
pub open spec fn spawned_die_ok(d: Die, t: DieMeshTable) -> bool {
    &&& d.mesh == t.d20
    &&& d.collider == DieCollider::ConvexHullOf(t.d20)
    &&& d.impulse.wf()
}

/// The world position a die is spawned at, in tenths of a unit:
/// `(0, 10, -50)` world units.
pub fn spawn_position() -> (p: crate::arena::Point)
    ensures
        p.x == 0 && p.y == 100 && p.z == -500,
{
    crate::arena::Point { x: 0, y: 100, z: -500 }
}

/// What one consumer tick of the spawn policy did.
pub enum SpawnOutcome {
    /// The queue was empty; nothing changed.
    NoCommand,
    /// A clear command was consumed; every tracked die was despawned.
    Cleared,
    /// A spawn command was consumed; this many dice were added.
    Spawned(u8),
    /// A spawn command was consumed but the die-mesh table is not populated
    /// yet, so no die could be built. The host must treat this as fatal:
    /// the design has no fallback mesh.
    TableNotReady,
}

/// The set of tracked dice, in spawn order.
pub struct DiceWorld {
    dice: Vec<Die>,
}

impl View for DiceWorld {
    type V = Seq<Die>;

    closed spec fn view(&self) -> Seq<Die> {
        self.dice@
    }
}

impl DiceWorld {
    /// An empty world with no tracked dice.
    pub fn new() -> (w: DiceWorld)
        ensures
            w@ == Seq::<Die>::empty(),
    {
        DiceWorld { dice: Vec::new() }
    }

    /// How many dice are tracked.
    pub fn count(&self) -> (n: usize)
        ensures
            n == self@.len(),
    {
        self.dice.len()
    }

    /// The tracked dice, oldest spawn first.
    pub fn dice(&self) -> (d: &Vec<Die>)
        ensures
            d@ == self@,
    {
        &self.dice
    }

    /// One consumer tick: dequeues at most one command and applies it.
    ///
    /// On an empty queue nothing changes. Otherwise exactly the oldest
    /// command is removed. A clear command (`0`) despawns every tracked
    /// die, however many there were. A spawn command (`n > 0`) with the
    /// table populated appends exactly `n` dice, leaves the existing dice
    /// untouched, and every new die renders the table's twenty-sided mesh,
    /// carries the convex hull of that mesh as its collider, and is thrown
    /// flat with a nonzero horizontal impulse. A spawn command without a
    /// populated table changes no dice and is reported for the host to
    /// treat as fatal.
    pub fn tick_spawn(&mut self, queue: &mut CommandQueue, table: Option<&DieMeshTable>) -> (r:
        SpawnOutcome)
        ensures
            old(queue)@.len() == 0 ==> {
                &&& r is NoCommand
                &&& final(queue)@ == old(queue)@
                &&& final(self)@ == old(self)@
            },
            old(queue)@.len() > 0 ==> {
                &&& final(queue)@ == old(queue)@.drop_first()
                &&& {
                    let cmd = old(queue)@[0];
                    if cmd == 0 {
                        r is Cleared && final(self)@ =~= Seq::<Die>::empty()
                    } else {
                        match table {
                            None => r is TableNotReady && final(self)@ == old(self)@,
                            Some(t) => {
                                &&& r == SpawnOutcome::Spawned(cmd)
                                &&& final(self)@.len() == old(self)@.len() + cmd
                                &&& final(self)@.subrange(0, old(self)@.len() as int) =~= old(
                                    self,
                                )@
                                &&& forall|i: int|
                                    old(self)@.len() <= i < final(self)@.len()
                                        ==> spawned_die_ok(#[trigger] final(self)@[i], *t)
                            },
                        }
                    }
                }
            },
    {
        let raw = match queue.try_dequeue() {
            None => {
                return SpawnOutcome::NoCommand;
            },
            Some(c) => c,
        };
        let cmd = match crate::decode_command(raw) {
            crate::Command::Clear => {
                self.dice.clear();
                return SpawnOutcome::Cleared;
            },
            crate::Command::Spawn(n) => n,
        };
        let t = match table {
            None => {
                return SpawnOutcome::TableNotReady;
            },
            Some(t) => t,
        };
        let mesh = t.mesh_for(crate::assets::DieKind::D20);
        let ghost dice0 = self.dice@;
        let mut i: u8 = 0;
        while i < cmd
            invariant
                i <= cmd,
                mesh == t.d20,
                self.dice@.len() == dice0.len() + i,
                self.dice@.subrange(0, dice0.len() as int) =~= dice0,
                forall|j: int|
                    dice0.len() <= j < self.dice@.len() ==> spawned_die_ok(
                        #[trigger] self.dice@[j],
                        *t,
                    ),
            decreases cmd - i,
        {
            let impulse = sample_impulse_dir();
            self.dice.push(
                Die { mesh, collider: DieCollider::ConvexHullOf(mesh), impulse },
            );
            i = i + 1;
        }
        SpawnOutcome::Spawned(cmd)
    }
}

} // verus!
