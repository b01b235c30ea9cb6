use vstd::prelude::*;
use crate::assets::AssetGate;
use crate::assets::DieMeshTable;
use crate::assets::GateStep;
use crate::assets::NamedMeshes;
use crate::assets::spec_gate_step;
use crate::assets::spec_pending_after;
use crate::assets::spec_table_after;
use crate::input::InputAction;
use crate::input::InputTracker;
use crate::input::KeyState;
use crate::input::spec_actions;
use crate::input::spec_enqueued;
use crate::queue::CommandQueue;
use crate::spawn::DiceWorld;
use crate::spawn::Die;
use crate::spawn::SpawnOutcome;
use crate::spawn::spawned_die_ok;

verus! {

/// The viewport size supplied at startup; immutable for the process
/// lifetime, used to size the play area.
pub struct ViewportConfig {
    pub width: u16,
    pub height: u16,
}

/// What one simulation tick did: what the asset gate found, which
/// continuous actions the held keys ask for, and what the spawn policy
/// consumed.
pub struct TickReport {
    pub gate: GateStep,
    pub actions: Vec<InputAction>,
    pub spawn: SpawnOutcome,
}

/// The whole per-tick glue in one place: the command queue bridging host
/// calls to the tick loop, the asset-readiness gate, the input tracker and
/// the set of tracked dice, driven in a fixed order each tick.
pub struct Simulation {
    config: ViewportConfig,
    gate: AssetGate,
    queue: CommandQueue,
    tracker: InputTracker,
    world: DiceWorld,
}

impl Simulation {
    /// The viewport configuration captured at startup.
    pub closed spec fn spec_config(&self) -> ViewportConfig {
        self.config
    }

    /// The asset gate's state.
    pub closed spec fn spec_gate(&self) -> AssetGate {
        self.gate
    }

    /// The assets still awaiting load.
    pub open spec fn spec_pending(&self) -> Seq<u64> {
        self.spec_gate().spec_pending()
    }

    /// The die-mesh table, once populated.
    pub open spec fn spec_table(&self) -> Option<DieMeshTable> {
        self.spec_gate().spec_table()
    }

    /// The commands waiting in the queue, oldest first.
    pub closed spec fn spec_queue(&self) -> Seq<u8> {
        self.queue@
    }

    /// The edge-detection state of the two trigger keys.
    pub closed spec fn spec_tracker(&self) -> InputTracker {
        self.tracker
    }

    /// The tracked dice, oldest spawn first.
    pub closed spec fn spec_dice(&self) -> Seq<Die> {
        self.world@
    }

    /// Simulation well-formedness: the asset gate is well-formed.
    pub open spec fn wf(&self) -> bool {
        self.spec_gate().wf()
    }

    /// One-time startup: captures the viewport, queues the single dice
    /// model for loading, and begins with an empty command queue, no key
    /// held and no dice.
    pub fn new(width: u16, height: u16, model_asset: u64) -> (s: Simulation)
        ensures
            s.wf(),
            s.spec_config() == (ViewportConfig { width, height }),
            s.spec_pending() =~= seq![model_asset],
            s.spec_table() is None,
            s.spec_queue() =~= Seq::<u8>::empty(),
            !s.spec_tracker().roll_was_down,
            !s.spec_tracker().clear_was_down,
            s.spec_dice() =~= Seq::<Die>::empty(),
    {
        Simulation {
            config: ViewportConfig { width, height },
            gate: AssetGate::new(model_asset),
            queue: CommandQueue::new(),
            tracker: InputTracker::new(),
            world: DiceWorld::new(),
        }
    }

    /// The producer side of the channel: appends one raw command byte, as
    /// the host's spawn entry point does. Touches nothing else.
    pub fn enqueue_command(&mut self, cmd: u8)
        ensures
            final(self).spec_queue() =~= old(self).spec_queue().push(cmd),
            final(self).spec_config() == old(self).spec_config(),
            final(self).spec_gate() == old(self).spec_gate(),
            final(self).spec_tracker() == old(self).spec_tracker(),
            final(self).spec_dice() == old(self).spec_dice(),
    {
        self.queue.enqueue(cmd);
    }

    /// The viewport captured at startup.
    pub fn config(&self) -> (c: &ViewportConfig)
        ensures
            *c == self.spec_config(),
    {
        &self.config
    }

    /// How many dice are tracked.
    pub fn dice_count(&self) -> (n: usize)
        ensures
            n == self.spec_dice().len(),
    {
        self.world.count()
    }

    /// The tracked dice, oldest spawn first.
    pub fn dice(&self) -> (d: &Vec<Die>)
        ensures
            d@ == self.spec_dice(),
    {
        self.world.dice()
    }

    /// How many commands are waiting.
    pub fn queue_len(&self) -> (n: usize)
        ensures
            n == self.spec_queue().len(),
    {
        self.queue.len()
    }

    /// Whether the die-mesh table has been populated.
    pub fn table_ready(&self) -> (b: bool)
        ensures
            b == (self.spec_table() is Some),
    {
        self.gate.table().is_some()
    }

    /// One simulation tick, running the per-tick systems in their fixed
    /// order: the asset-readiness gate first, then input handling, then
    /// the spawn policy on the queue as input left it and the table as the
    /// gate left it. `keys` is the keyboard state this tick, `loaded`
    /// whether the engine reports the pending asset as loaded, and `found`
    /// the engine's lookup of the three expected sub-meshes.
    ///
    /// At most one command is consumed per tick, always the oldest.
    pub fn tick(&mut self, keys: &KeyState, loaded: bool, found: &NamedMeshes) -> (r: TickReport)
        requires
            old(self).wf(),
        ensures
            final(self).wf(),
            final(self).spec_config() == old(self).spec_config(),
            r.gate == spec_gate_step(old(self).spec_pending(), loaded, *found),
            final(self).spec_pending() =~= spec_pending_after(
                old(self).spec_pending(),
                loaded,
                *found,
            ),
            final(self).spec_table() == spec_table_after(
                old(self).spec_pending(),
                old(self).spec_table(),
                loaded,
                *found,
            ),
            r.actions@ =~= spec_actions(*keys),
            final(self).spec_tracker() == (InputTracker {
                roll_was_down: keys.roll,
                clear_was_down: keys.clear,
            }),
            ({
                let m = old(self).spec_queue() + spec_enqueued(old(self).spec_tracker(), *keys);
                let t = spec_table_after(
                    old(self).spec_pending(),
                    old(self).spec_table(),
                    loaded,
                    *found,
                );
                let d0 = old(self).spec_dice();
                let d1 = final(self).spec_dice();
                &&& m.len() == 0 ==> {
                    &&& r.spawn is NoCommand
                    &&& final(self).spec_queue() =~= m
                    &&& d1 == d0
                }
                &&& m.len() > 0 ==> {
                    &&& final(self).spec_queue() =~= m.drop_first()
                    &&& {
                        let cmd = m[0];
                        if cmd == 0 {
                            r.spawn is Cleared && d1 =~= Seq::<Die>::empty()
                        } else {
                            match t {
                                None => r.spawn is TableNotReady && d1 == d0,
                                Some(tab) => {
                                    &&& r.spawn == SpawnOutcome::Spawned(cmd)
                                    &&& d1.len() == d0.len() + cmd
                                    &&& d1.subrange(0, d0.len() as int) =~= d0
                                    &&& forall|i: int|
                                        d0.len() <= i < d1.len() ==> spawned_die_ok(
                                            #[trigger] d1[i],
                                            tab,
                                        )
                                },
                            }
                        }
                    }
                }
            }),
    {
        let gate = self.gate.tick(loaded, found);
        let actions = self.tracker.tick(keys, &mut self.queue);
        let spawn = self.world.tick_spawn(&mut self.queue, self.gate.table());
        TickReport { gate, actions, spawn }
    }
}

} // verus!
