use vstd::prelude::*;

verus! {

/// The three logical die types the loaded model provides.
pub enum DieKind {
    D4,
    D12,
    D20,
}

/// The name of the sub-mesh inside the source model that a die kind comes
/// from.
pub open spec fn spec_source_mesh_name(kind: DieKind) -> Seq<char> {
    match kind {
        DieKind::D4 => "Polygon.001"@,
        DieKind::D12 => "Polygon.013"@,
        DieKind::D20 => "Icosphere.003"@,
    }
}

/// Returns the sub-mesh name to look up in the loaded model for a die kind.
pub fn source_mesh_name(kind: DieKind) -> (s: &'static str)
    ensures
        s@ == spec_source_mesh_name(kind),
{
    match kind {
        DieKind::D4 => "Polygon.001",
        DieKind::D12 => "Polygon.013",
        DieKind::D20 => "Icosphere.003",
    }
}

/// The name of the single combined model file that holds all the die
/// meshes; the one asset ever queued for loading.
pub fn model_asset_name() -> (s: &'static str)
    ensures
        s@ == "Dice20variant.gltf"@,
{
    "Dice20variant.gltf"
}

/// The table of die meshes, keyed by logical die type. It is built all at
/// once when the model finishes loading — never partially — and is read-only
/// afterwards. A mesh is an opaque engine handle, carried as its numeric id.
pub struct DieMeshTable {
    pub d4: u64,
    pub d12: u64,
    pub d20: u64,
}

impl DieMeshTable {
    /// Looks up the mesh handle for a die kind. Every kind is present: the
    /// table exists only once all three entries do.
    pub fn mesh_for(&self, kind: DieKind) -> (m: u64)
        ensures
            m == self.spec_mesh_for(kind),
    {
        match kind {
            DieKind::D4 => self.d4,
            DieKind::D12 => self.d12,
            DieKind::D20 => self.d20,
        }
    }

    /// The mesh handle a kind maps to.
    pub open spec fn spec_mesh_for(&self, kind: DieKind) -> u64 {
        match kind {
            DieKind::D4 => self.d4,
            DieKind::D12 => self.d12,
            DieKind::D20 => self.d20,
        }
    }
}

/// The handles of the three expected sub-meshes as found (or not) in the
/// loaded model; what the host reports back from the engine's named-mesh
/// lookup for the names `source_mesh_name` gives.
pub struct NamedMeshes {
    pub d4: Option<u64>,
    pub d12: Option<u64>,
    pub d20: Option<u64>,
}

impl NamedMeshes {
    /// True when all three expected sub-meshes were found.
    pub open spec fn complete(&self) -> bool {
        self.d4 is Some && self.d12 is Some && self.d20 is Some
    }
}

/// What one tick of the asset-readiness gate did.
pub enum GateStep {
    /// Nothing is pending: the table was already populated (or nothing was
    /// ever queued), and the tick changed nothing.
    Idle,
    /// The pending asset has not finished loading; retry next tick.
    Waiting,
    /// The asset finished loading and the table was populated from it.
    Populated,
    /// The asset finished loading but lacks an expected sub-mesh. The design
    /// has no fallback mesh: the host must treat this as fatal.
    MissingMesh,
}

/// What one gate tick reports, as a function of the pending queue and of
/// what the engine said this tick.
pub open spec fn spec_gate_step(pending: Seq<u64>, loaded: bool, found: NamedMeshes) -> GateStep {
    if pending.len() == 0 {
        GateStep::Idle
    } else if !loaded {
        GateStep::Waiting
    } else if found.complete() {
        GateStep::Populated
    } else {
        GateStep::MissingMesh
    }
}

/// The pending queue after one gate tick: emptied exactly when the asset
/// has loaded with all three sub-meshes present, untouched otherwise.
pub open spec fn spec_pending_after(pending: Seq<u64>, loaded: bool, found: NamedMeshes) -> Seq<
    u64,
> {
    if pending.len() > 0 && loaded && found.complete() {
        Seq::empty()
    } else {
        pending
    }
}

/// The table after one gate tick: populated in one step with the three
/// found handles exactly when the asset has loaded with all three
/// sub-meshes present, untouched otherwise.
pub open spec fn spec_table_after(
    pending: Seq<u64>,
    table: Option<DieMeshTable>,
    loaded: bool,
    found: NamedMeshes,
) -> Option<DieMeshTable> {
    if pending.len() > 0 && loaded && found.complete() {
        Some(DieMeshTable { d4: found.d4->0, d12: found.d12->0, d20: found.d20->0 })
    } else {
        table
    }
}

/// Once the table is populated it stays exactly as it is: a well-formed
/// state that holds a table keeps nothing pending, so every further
/// tick — whatever the engine reports — changes nothing, reports `Idle`,
/// and never re-inserts or changes a table entry.
pub proof fn lemma_populated_gate_stays_idle(g: AssetGate, loaded: bool, found: NamedMeshes)
    requires
        g.wf(),
        g.spec_table() is Some,
    ensures
        spec_gate_step(g.spec_pending(), loaded, found) is Idle,
        spec_pending_after(g.spec_pending(), loaded, found) == g.spec_pending(),
        spec_table_after(g.spec_pending(), g.spec_table(), loaded, found) == g.spec_table(),
{
}

/// The asset-readiness gate: a queue of assets awaiting load (at most one is
/// ever outstanding — the combined dice model) and, once that model has
/// loaded, the die-mesh table extracted from it.
pub struct AssetGate {
    pending: Vec<u64>,
    table: Option<DieMeshTable>,
}

impl AssetGate {
    /// Gate well-formedness: at most one load is ever outstanding, and a
    /// populated table means nothing is pending any more.
    pub open spec fn wf(&self) -> bool {
        &&& self.spec_pending().len() <= 1
        &&& self.spec_table() is Some ==> self.spec_pending().len() == 0
    }

    /// The assets still awaiting load, oldest first.
    pub closed spec fn spec_pending(&self) -> Seq<u64> {
        self.pending@
    }

    /// The die-mesh table, once populated.
    pub closed spec fn spec_table(&self) -> Option<DieMeshTable> {
        self.table
    }

    /// A fresh gate with the given model asset queued and nothing loaded
    /// yet.
    pub fn new(model_asset: u64) -> (g: AssetGate)
        ensures
            g.wf(),
            g.spec_pending() =~= seq![model_asset],
            g.spec_table() is None,
    {
        let mut pending: Vec<u64> = Vec::new();
        pending.push(model_asset);
        AssetGate { pending, table: None }
    }

    /// The die-mesh table, once it has been populated.
    pub fn table(&self) -> (t: Option<&DieMeshTable>)
        ensures
            match t {
                Some(table) => self.spec_table() == Some(*table),
                None => self.spec_table() is None,
            },
    {
        self.table.as_ref()
    }

    /// The handle of the asset still awaiting load, if any.
    pub fn pending_front(&self) -> (a: Option<u64>)
        ensures
            match a {
                Some(h) => self.spec_pending().len() > 0 && h == self.spec_pending()[0],
                None => self.spec_pending().len() == 0,
            },
    {
        if self.pending.len() == 0 {
            None
        } else {
            Some(self.pending[0])
        }
    }

    /// One tick of the readiness poll. `loaded` says whether the engine
    /// reports the pending asset as fully loaded this tick; `found` holds
    /// what the engine's named-mesh lookup returned for the three expected
    /// sub-mesh names.
    ///
    /// With nothing pending the tick is a no-op, so once the table is
    /// populated, further ticks never re-insert or change an entry. While
    /// the asset is still loading the tick is a no-op too. When it has
    /// loaded and all three sub-meshes are present, the pending entry is
    /// removed and the table is populated with exactly those three handles
    /// in one step. A missing sub-mesh changes nothing and is reported for
    /// the host to treat as fatal.
    pub fn tick(&mut self, loaded: bool, found: &NamedMeshes) -> (r: GateStep)
        requires
            old(self).wf(),
        ensures
            final(self).wf(),
            r == spec_gate_step(old(self).spec_pending(), loaded, *found),
            final(self).spec_pending() =~= spec_pending_after(
                old(self).spec_pending(),
                loaded,
                *found,
            ),
            final(self).spec_table() == spec_table_after(
                old(self).spec_pending(),
                old(self).spec_table(),
                loaded,
                *found,
            ),
            old(self).spec_pending().len() == 0 ==> *final(self) == *old(self),
    {
        if self.pending.len() == 0 {
            return GateStep::Idle;
        }
        if !loaded {
            return GateStep::Waiting;
        }
        match (found.d4, found.d12, found.d20) {
            (Some(d4), Some(d12), Some(d20)) => {
                self.pending.clear();
                self.table = Some(DieMeshTable { d4, d12, d20 });
                GateStep::Populated
            },
            _ => GateStep::MissingMesh,
        }
    }
}

} // verus!
