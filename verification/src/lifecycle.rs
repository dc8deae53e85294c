//! From a configuration to a running session: the engine, the compiled
//! module, and the instantiation of a module into a session of its own.

use crate::error::{ErrorKind, ErrorModel, GraphvizmError};
use crate::request::{
    export_at, export_name, export_slot, export_table_is_one_to_one, interface_name,
    interface_name_spec, Export, EXPORT_COUNT,
};
use crate::runtime::{
    build_engine, compile_component, config_components, config_reservation, default_config,
    describe, engine_components, engine_reservation, error_text, export_lookup, find_export,
    set_component_model, set_memory_reservation,
};
use vstd::prelude::*;
use vstd::slice::slice_index_get;
use wasmtime::component::{Component, ComponentExportIndex};
use wasmtime::Error;

verus! {

/// What of the host a guest may reach.
#[derive(Clone, Copy, Debug, PartialEq, Eq, Structural)]
pub struct CapabilitySet {
    /// The host's standard input, output and error.
    pub stdio: bool,
    /// The host's command line arguments.
    pub args: bool,
}

impl CapabilitySet {
    /// Every capability of `self` is one of `limit`.
    pub open spec fn within(self, limit: CapabilitySet) -> bool {
        (self.stdio ==> limit.stdio) && (self.args ==> limit.args)
    }

    /// No capability at all.
    pub fn none() -> (set: CapabilitySet)
        ensures
            set == (CapabilitySet { stdio: false, args: false }),
    {
        CapabilitySet { stdio: false, args: false }
    }

    /// Whether every capability of `self` is one of `limit`.
    pub fn is_within(&self, limit: &CapabilitySet) -> (within: bool)
        ensures
            within == self.within(*limit),
    {
        (!self.stdio || limit.stdio) && (!self.args || limit.args)
    }
}

/// The configured sandbox runtime. It compiles modules and backs sessions,
/// and it bounds what any of its sessions may be granted.
pub struct Sandbox {
    pub(crate) runtime: wasmtime::Engine,
    pub(crate) capabilities: CapabilitySet,
}

impl Sandbox {
    /// The most that a session of this sandbox may be granted.
    pub closed spec fn capabilities(&self) -> CapabilitySet {
        self.capabilities
    }

    /// Whether the sandbox compiles and runs components.
    pub closed spec fn serves_components(&self) -> bool {
        engine_components(self.runtime)
    }

    /// The bytes of address space that the sandbox reserves ahead for each
    /// linear memory of a guest.
    pub closed spec fn reservation(&self) -> u64 {
        engine_reservation(self.runtime)
    }

    /// The most that a session of this sandbox may be granted.
    pub fn granted(&self) -> (set: CapabilitySet)
        ensures
            set == self.capabilities(),
    {
        self.capabilities
    }
}

/// The sandbox for what the runtime made of the configuration: the runtime's
/// engine with the capabilities, or the runtime's refusal as an `EngineInit`
/// failure that carries the runtime's text.
pub fn sandbox_from(built: Result<wasmtime::Engine, Error>, capabilities: CapabilitySet) -> (r:
    Result<Sandbox, GraphvizmError>)
    ensures
        match built {
            Ok(engine) => {
                &&& r matches Ok(sandbox)
                &&& sandbox.capabilities() == capabilities
                &&& sandbox.serves_components() == engine_components(engine)
                &&& sandbox.reservation() == engine_reservation(engine)
            },
            Err(e) => r matches Err(failure) && failure.deep_view() == (ErrorModel {
                kind: ErrorKind::EngineInit,
                detail: error_text(e),
            }),
        },
{
    match built {
        Ok(runtime) => Ok(Sandbox { runtime, capabilities }),
        Err(e) => Err(GraphvizmError::EngineInit(describe(&e))),
    }
}

/// The configuration of a sandbox: the runtime's defaults, with the component
/// model switched on.
pub fn component_config() -> (config: wasmtime::Config)
    ensures
        config_components(config),
        config_reservation(config) is None,
{
    let mut config = default_config();
    set_component_model(&mut config, true);
    config
}

/// The configuration of a sandbox on a host that is short of address space:
/// as [`component_config`], and with the number of bytes to reserve ahead for
/// each linear memory.
pub fn component_config_within(reservation: u64) -> (config: wasmtime::Config)
    ensures
        config_components(config),
        config_reservation(config) == Some(reservation),
{
    let mut config = component_config();
    set_memory_reservation(&mut config, reservation);
    config
}

/// Configures the sandbox runtime for components and fixes the most that a
/// session may be granted. Fails with `EngineInit` where the runtime refuses
/// the configuration.
pub fn initialize(capabilities: CapabilitySet) -> (r: Result<Sandbox, GraphvizmError>)
    ensures
        r matches Ok(sandbox) ==> {
            &&& sandbox.capabilities() == capabilities
            &&& sandbox.serves_components()
        },
        r matches Err(failure) ==> failure.deep_view().kind == ErrorKind::EngineInit,
{
    let config = component_config();
    sandbox_from(build_engine(&config), capabilities)
}

/// As [`initialize`], for a host that is short of address space: the runtime
/// reserves `reservation` bytes ahead for each linear memory of a guest, and
/// moves a memory that outgrows them.
pub fn initialize_within(capabilities: CapabilitySet, reservation: u64) -> (r: Result<
    Sandbox,
    GraphvizmError,
>)
    ensures
        r matches Ok(sandbox) ==> {
            &&& sandbox.capabilities() == capabilities
            &&& sandbox.serves_components()
            &&& sandbox.reservation() == reservation
        },
        r matches Err(failure) ==> failure.deep_view().kind == ErrorKind::EngineInit,
{
    let config = component_config_within(reservation);
    sandbox_from(build_engine(&config), capabilities)
}

/// A compiled module. It does not change once it is loaded, and any number of
/// sessions may be instantiated from it.
pub struct Module {
    pub(crate) component: Component,
}

/// The bytes begin as every WebAssembly binary does: the four bytes of the
/// magic number, then four bytes of version and layer.
pub open spec fn has_preamble(bytes: Seq<u8>) -> bool {
    &&& bytes.len() >= 8
    &&& bytes[0] == 0x00
    &&& bytes[1] == 0x61
    &&& bytes[2] == 0x73
    &&& bytes[3] == 0x6d
}

/// The failure for bytes that do not begin as a WebAssembly binary does.
pub open spec fn not_a_binary() -> ErrorModel {
    ErrorModel { kind: ErrorKind::Load, detail: "not a WebAssembly binary"@ }
}

/// Whether the bytes begin as every WebAssembly binary does.
pub fn check_preamble(bytes: &[u8]) -> (ok: bool)
    ensures
        ok == has_preamble(bytes@),
{
    bytes.len() >= 8 && *slice_index_get(bytes, 0) == 0x00 && *slice_index_get(bytes, 1) == 0x61
        && *slice_index_get(bytes, 2) == 0x73 && *slice_index_get(bytes, 3) == 0x6d
}

/// The export that the component has for an entry of the export table,
/// within the interface, if it has the interface and the entry.
pub open spec fn export_index(component: Component, export: Export) -> Option<
    ComponentExportIndex,
> {
    match export_lookup(component, None, interface_name_spec()) {
        Some(interface) => export_lookup(component, Some(interface), export_name(export)),
        None => None,
    }
}

/// The component exports every entry of the export table.
pub open spec fn exports_complete(component: Component) -> bool {
    forall|export: Export| (#[trigger] export_index(component, export)) is Some
}

/// The first place of the export table, from `slot` on, whose entry the
/// component lacks; the length of the table where it lacks none of them.
pub open spec fn first_missing(component: Component, slot: int) -> int
    decreases EXPORT_COUNT - slot,
{
    if slot < 0 || slot >= EXPORT_COUNT {
        EXPORT_COUNT as int
    } else if export_index(component, export_at(slot)) is None {
        slot
    } else {
        first_missing(component, slot + 1)
    }
}

/// The failure for a component that does not export the whole table: a `Link`
/// failure that names the interface where the component lacks the interface,
/// and else the first entry of the table that it lacks.
pub open spec fn missing_export(component: Component) -> ErrorModel {
    ErrorModel {
        kind: ErrorKind::Link,
        detail: if export_lookup(component, None, interface_name_spec()) is None {
            interface_name_spec()
        } else {
            export_name(export_at(first_missing(component, 0)))
        },
    }
}

/// What was found for a place of the export table; nothing where the lookups
/// do not reach the place.
pub open spec fn lookup_at(lookups: Seq<Option<ComponentExportIndex>>, slot: int) -> Option<
    ComponentExportIndex,
> {
    if 0 <= slot < lookups.len() {
        lookups[slot]
    } else {
        None
    }
}

/// The first place of the export table, from `slot` on, for which nothing
/// was found; the length of the table where something was found for each.
pub open spec fn first_gap(lookups: Seq<Option<ComponentExportIndex>>, slot: int) -> int
    decreases EXPORT_COUNT - slot,
{
    if slot < 0 || slot >= EXPORT_COUNT {
        EXPORT_COUNT as int
    } else if lookup_at(lookups, slot) is None {
        slot
    } else {
        first_gap(lookups, slot + 1)
    }
}

/// The failure that names an entry of the export table as missing.
pub open spec fn missing_entry(export: Export) -> ErrorModel {
    ErrorModel { kind: ErrorKind::Link, detail: export_name(export) }
}

/// The failure that names the interface as missing.
pub open spec fn missing_interface() -> ErrorModel {
    ErrorModel { kind: ErrorKind::Link, detail: interface_name_spec() }
}

/// Makes the export table of what was found for its places, one lookup for
/// each place in the table's order. Where something was found for every
/// place, the table holds it all; else the failure names the first entry for
/// which nothing was found.
pub fn complete_table(lookups: &Vec<Option<ComponentExportIndex>>) -> (r: Result<
    Vec<ComponentExportIndex>,
    GraphvizmError,
>)
    ensures
        match r {
            Ok(found) => {
                &&& first_gap(lookups@, 0) == EXPORT_COUNT
                &&& found@.len() == EXPORT_COUNT
                &&& forall|slot: int|
                    0 <= slot < EXPORT_COUNT ==> lookup_at(lookups@, slot) == Some(
                        #[trigger] found@[slot],
                    )
            },
            Err(failure) => {
                &&& first_gap(lookups@, 0) < EXPORT_COUNT
                &&& failure.deep_view() == missing_entry(export_at(first_gap(lookups@, 0)))
            },
        },
{
    let mut found: Vec<ComponentExportIndex> = Vec::new();
    let mut slot: usize = 0;
    while slot < EXPORT_COUNT
        invariant
            slot <= EXPORT_COUNT,
            found@.len() == slot,
            first_gap(lookups@, 0) == first_gap(lookups@, slot as int),
            forall|i: int| 0 <= i < slot ==> lookup_at(lookups@, i) == Some(#[trigger] found@[i]),
        decreases EXPORT_COUNT - slot,
    {
        let export = match Export::at(slot) {
            Some(export) => export,
            None => vstd::pervasive::unreached(),
        };
        if slot >= lookups.len() {
            return Err(GraphvizmError::Link(export.name().to_owned()));
        }
        match lookups[slot] {
            Some(index) => {
                found.push(index);
            },
            None => {
                return Err(GraphvizmError::Link(export.name().to_owned()));
            },
        }
        slot += 1;
    }
    Ok(found)
}

/// The first gap from a place on lies at or after that place, and nothing was
/// found for it.
pub proof fn first_gap_is_a_gap(lookups: Seq<Option<ComponentExportIndex>>, slot: int)
    requires
        0 <= slot <= EXPORT_COUNT,
    ensures
        slot <= first_gap(lookups, slot) <= EXPORT_COUNT,
        first_gap(lookups, slot) < EXPORT_COUNT ==> lookup_at(lookups, first_gap(lookups, slot))
            is None,
    decreases EXPORT_COUNT - slot,
{
    if slot < EXPORT_COUNT && lookup_at(lookups, slot) is Some {
        first_gap_is_a_gap(lookups, slot + 1);
    }
}

/// Where each lookup is what the component has for its place, the first gap
/// of the lookups is the first entry that the component lacks.
pub proof fn gap_is_missing_export(
    component: Component,
    lookups: Seq<Option<ComponentExportIndex>>,
    slot: int,
)
    requires
        0 <= slot <= EXPORT_COUNT,
        forall|i: int|
            slot <= i < EXPORT_COUNT ==> #[trigger] lookup_at(lookups, i) == export_index(
                component,
                export_at(i),
            ),
    ensures
        first_gap(lookups, slot) == first_missing(component, slot),
    decreases EXPORT_COUNT - slot,
{
    if slot < EXPORT_COUNT {
        assert(lookup_at(lookups, slot) == export_index(component, export_at(slot)));
        gap_is_missing_export(component, lookups, slot + 1);
    }
}

impl Module {
    /// The module exports the interface and, within it, every entry of the
    /// export table.
    pub closed spec fn exports_complete(&self) -> bool {
        exports_complete(self.component)
    }

    /// The failure that names what the module lacks of the export table.
    pub closed spec fn missing_export(&self) -> ErrorModel {
        missing_export(self.component)
    }

    /// Looks up every entry of the export table. Finds them all exactly where
    /// the module exports them all, and then gives them in the table's order;
    /// else names the first that is missing in a `Link` failure.
    pub(crate) fn resolve_exports(&self) -> (r: Result<Vec<ComponentExportIndex>, GraphvizmError>)
        ensures
            r is Ok <==> self.exports_complete(),
            r matches Ok(found) ==> {
                &&& found@.len() == EXPORT_COUNT
                &&& forall|export: Export|
                    Some(found@[export_slot(export)]) == #[trigger] export_index(
                        self.component,
                        export,
                    )
            },
            r matches Err(failure) ==> failure.deep_view() == self.missing_export(),
            r matches Err(failure) ==> failure.deep_view().kind == ErrorKind::Link,
    {
        let interface = match find_export(&self.component, None, interface_name()) {
            Some(interface) => interface,
            None => {
                return Err(GraphvizmError::Link(interface_name().to_owned()));
            },
        };
        let mut lookups: Vec<Option<ComponentExportIndex>> = Vec::new();
        let mut slot: usize = 0;
        while slot < EXPORT_COUNT
            invariant
                slot <= EXPORT_COUNT,
                lookups@.len() == slot,
                export_lookup(self.component, None, interface_name_spec()) == Some(interface),
                forall|i: int|
                    0 <= i < slot ==> #[trigger] lookups@[i] == export_index(
                        self.component,
                        export_at(i),
                    ),
            decreases EXPORT_COUNT - slot,
        {
            let export = match Export::at(slot) {
                Some(export) => export,
                None => vstd::pervasive::unreached(),
            };
            lookups.push(find_export(&self.component, Some(&interface), export.name()));
            slot += 1;
        }
        proof {
            gap_is_missing_export(self.component, lookups@, 0);
            assert forall|export: Export|
                first_gap(lookups@, 0) == EXPORT_COUNT implies (#[trigger] export_index(
                self.component,
                export,
            )) == lookup_at(lookups@, export_slot(export)) by {
                export_table_is_one_to_one(export, 0);
            }
        }
        let r = complete_table(&lookups);
        proof {
            if r is Ok {
                let found = r->Ok_0;
                assert forall|export: Export|
                    Some(found@[export_slot(export)]) == #[trigger] export_index(
                        self.component,
                        export,
                    ) by {
                    export_table_is_one_to_one(export, 0);
                    assert(lookup_at(lookups@, export_slot(export)) == Some(
                        found@[export_slot(export)],
                    ));
                }
            } else {
                let gap = first_gap(lookups@, 0);
                first_gap_is_a_gap(lookups@, 0);
                assert(lookup_at(lookups@, gap) == export_index(self.component, export_at(gap)));
            }
        }
        r
    }

    /// Whether the module exports the interface and, within it, every entry of
    /// the export table.
    pub fn has_all_exports(&self) -> (complete: bool)
        ensures
            complete == self.exports_complete(),
    {
        self.resolve_exports().is_ok()
    }
}

/// The module for what the runtime made of the bytes: the compiled component,
/// or the runtime's refusal as a `Load` failure that carries the runtime's
/// text.
pub fn module_from(compiled: Result<Component, Error>) -> (r: Result<Module, GraphvizmError>)
    ensures
        match compiled {
            Ok(component) => r matches Ok(module) && module.exports_complete()
                == exports_complete(component),
            Err(e) => r matches Err(failure) && failure.deep_view() == (ErrorModel {
                kind: ErrorKind::Load,
                detail: error_text(e),
            }),
        },
{
    match compiled {
        Ok(component) => Ok(Module { component }),
        Err(e) => Err(GraphvizmError::Load(describe(&e))),
    }
}

/// Validates and compiles a binary module. Bytes that do not begin as a
/// WebAssembly binary does are refused at once; what the runtime refuses is
/// refused with the runtime's text. Every failure is a `Load` failure.
pub fn load(sandbox: &Sandbox, bytes: &[u8]) -> (r: Result<Module, GraphvizmError>)
    ensures
        !has_preamble(bytes@) ==> (r matches Err(failure) && failure.deep_view() == not_a_binary()),
        r matches Err(failure) ==> failure.deep_view().kind == ErrorKind::Load,
{
    if !check_preamble(bytes) {
        return Err(GraphvizmError::Load("not a WebAssembly binary".to_owned()));
    }
    module_from(compile_component(&sandbox.runtime, bytes))
}

} // verus!
