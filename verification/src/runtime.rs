//! The sandbox runtime, as far as the bridge relies on it.
//!
//! Nothing in this file is proved. Each function hands its arguments to one
//! function of the runtime and says, at most, what the runtime's own
//! documentation says of the result.

use crate::signature::{has_type, TypeModel, WireType};
use crate::wire::{payload_model, payload_sendable, sendable, Wire, WireValue};
use vstd::prelude::*;
use wasmtime::component::{Component, ComponentExportIndex, Func, Instance, Linker, Type, Val};
use wasmtime::{Config, Engine, Error, Store};
use wasmtime_wasi::p1::WasiP1Ctx;
use wasmtime_wasi::WasiCtxBuilder;

verus! {

/// The runtime's configuration, before an engine is made of it.
#[verifier::external_type_specification]
#[verifier::external_body]
pub struct ExConfig(wasmtime::Config);

/// The runtime's engine: a validated configuration with its compiler.
#[verifier::external_type_specification]
#[verifier::external_body]
pub struct ExEngine(wasmtime::Engine);

/// The runtime's error.
#[verifier::external_type_specification]
#[verifier::external_body]
pub struct ExError(wasmtime::Error);

/// The runtime's store: everything that belongs to one instantiation.
#[verifier::external_type_specification]
#[verifier::external_body]
#[verifier::reject_recursive_types(T)]
pub struct ExStore<T: 'static>(wasmtime::Store<T>);

/// A compiled component.
#[verifier::external_type_specification]
#[verifier::external_body]
pub struct ExComponent(wasmtime::component::Component);

/// The place of an export within a compiled component.
#[verifier::external_type_specification]
#[verifier::external_body]
pub struct ExComponentExportIndex(wasmtime::component::ComponentExportIndex);

/// A function that an instance exports.
#[verifier::external_type_specification]
#[verifier::external_body]
pub struct ExFunc(wasmtime::component::Func);

/// An instantiated component.
#[verifier::external_type_specification]
#[verifier::external_body]
pub struct ExInstance(wasmtime::component::Instance);

/// The definitions that satisfy a component's imports.
#[verifier::external_type_specification]
#[verifier::external_body]
#[verifier::reject_recursive_types(T)]
pub struct ExLinker<T: 'static>(wasmtime::component::Linker<T>);

/// The type of a value that a function of a guest takes or returns.
#[verifier::external_type_specification]
#[verifier::external_body]
pub struct ExType(wasmtime::component::Type);

/// A value as the runtime hands it to and takes it from a guest.
#[verifier::external_type_specification]
#[verifier::external_body]
pub struct ExVal(wasmtime::component::Val);

/// The state with which a store serves the system interfaces.
#[verifier::external_type_specification]
#[verifier::external_body]
pub struct ExWasiP1Ctx(wasmtime_wasi::p1::WasiP1Ctx);

/// What a guest is granted of the host, while it is being put together.
#[verifier::external_type_specification]
#[verifier::external_body]
pub struct ExWasiCtxBuilder(wasmtime_wasi::WasiCtxBuilder);

/// The text that the runtime's `Display` gives for an error, in its alternate
/// form: the error's own message, then each of its causes.
pub uninterp spec fn error_text(e: Error) -> Seq<char>;

/// The export that a component has under a name, at its top level or within
/// one of its exported instances, if it has one there.
pub uninterp spec fn export_lookup(
    component: Component,
    within: Option<ComponentExportIndex>,
    name: Seq<char>,
) -> Option<ComponentExportIndex>;

/// Whether a configuration has the component model switched on.
pub uninterp spec fn config_components(config: Config) -> bool;

/// The bytes of address space that a configuration asks the runtime to
/// reserve ahead for each linear memory, where it asks for a number.
pub uninterp spec fn config_reservation(config: Config) -> Option<u64>;

/// Whether an engine compiles and runs components.
pub uninterp spec fn engine_components(engine: Engine) -> bool;

/// The bytes of address space that an engine reserves ahead for each linear
/// memory.
pub uninterp spec fn engine_reservation(engine: Engine) -> u64;

/// Whether a linker defines the blocking forms of the system interfaces.
pub uninterp spec fn serves_system_interfaces(linker: Linker<WasiP1Ctx>) -> bool;

/// Whether the standard input, output and error that a builder gives to the
/// guest are the host's own.
pub uninterp spec fn grants_stdio(builder: WasiCtxBuilder) -> bool;

/// The arguments that a builder gives to the guest, in their order.
pub uninterp spec fn grants_args(builder: WasiCtxBuilder) -> Seq<Seq<char>>;

/// Whether the standard input, output and error of a state are the host's
/// own.
pub uninterp spec fn state_stdio(state: WasiP1Ctx) -> bool;

/// The arguments that a state gives to the guest, in their order.
pub uninterp spec fn state_args(state: WasiP1Ctx) -> Seq<Seq<char>>;

/// The state that a store holds for its guest.
pub uninterp spec fn store_state(store: Store<WasiP1Ctx>) -> WasiP1Ctx;

/// The wire value that a `Val` of the runtime stands for.
pub uninterp spec fn val_wire(val: Val) -> Wire;

/// The wire value that a boxed `Val` stands for, where there is one.
pub open spec fn payload_wire(payload: Option<Box<Val>>) -> Option<Box<Wire>> {
    match payload {
        Some(inner) => Some(Box::new(val_wire(*inner))),
        None => None,
    }
}

/// The standard streams and the arguments of a store's guest are those of
/// another store's.
pub open spec fn same_grants(a: Store<WasiP1Ctx>, b: Store<WasiP1Ctx>) -> bool {
    &&& state_stdio(store_state(a)) == state_stdio(store_state(b))
    &&& state_args(store_state(a)) == state_args(store_state(b))
}

/// The types of the parameters, in their order, and of the results of an
/// exported function.
pub uninterp spec fn func_type(func: Func) -> (Seq<TypeModel>, Seq<TypeModel>);

/// The identity of a store. The runtime gives each store its own when it
/// makes it, and the store keeps it for as long as it lives.
pub uninterp spec fn store_identity(store: Store<WasiP1Ctx>) -> int;

/// The identity of the store into which an instance was instantiated.
pub uninterp spec fn instance_home(instance: Instance) -> int;

/// The identity of the store that holds the instance which exports a function.
pub uninterp spec fn func_home(func: Func) -> int;

/// `wasmtime::Config::new`: a configuration with the runtime's defaults,
/// which asks for no number of bytes to reserve.
#[verifier::external_body]
pub(crate) fn default_config() -> (config: Config)
    ensures
        config_reservation(config) is None,
{
    Config::new()
}

/// `wasmtime::Config::wasm_component_model`: switches the component model on
/// or off in a configuration, and leaves the reservation alone.
#[verifier::external_body]
pub(crate) fn set_component_model(config: &mut Config, enable: bool)
    ensures
        config_components(*final(config)) == enable,
        config_reservation(*final(config)) == config_reservation(*old(config)),
{
    config.wasm_component_model(enable);
}

/// `wasmtime::Config::memory_reservation`: sets how many bytes of address
/// space the runtime reserves ahead for each linear memory, and leaves the
/// component model alone.
#[verifier::external_body]
pub(crate) fn set_memory_reservation(config: &mut Config, bytes: u64)
    ensures
        config_reservation(*final(config)) == Some(bytes),
        config_components(*final(config)) == config_components(*old(config)),
{
    config.memory_reservation(bytes);
}

/// `wasmtime::Engine::new`: the runtime validates the configuration and may
/// refuse it. An engine that comes out of it has the component model as the
/// configuration has it, and reserves what the configuration asks for where
/// it asks for a number.
#[verifier::external_body]
pub(crate) fn build_engine(config: &Config) -> (r: Result<Engine, Error>)
    ensures
        r matches Ok(engine) ==> {
            &&& engine_components(engine) == config_components(*config)
            &&& config_reservation(*config) matches Some(bytes) ==> engine_reservation(engine)
                == bytes
        },
{
    Engine::new(config)
}

/// `wasmtime::component::Component::from_binary`: validates and compiles a
/// binary component; the runtime refuses what is malformed or what the
/// engine's configuration does not support.
#[verifier::external_body]
pub(crate) fn compile_component(engine: &Engine, binary: &[u8]) -> Result<Component, Error> {
    Component::from_binary(engine, binary)
}

/// `wasmtime::component::Component::get_export_index`: finds an export by its
/// name, at the top level of the component or within an exported instance.
/// What it finds depends on the component, the place and the name alone.
#[verifier::external_body]
pub(crate) fn find_export(
    component: &Component,
    within: Option<&ComponentExportIndex>,
    name: &str,
) -> (found: Option<ComponentExportIndex>)
    ensures
        found == export_lookup(
            *component,
            match within {
                Some(index) => Some(*index),
                None => None,
            },
            name@,
        ),
{
    component.get_export_index(within, name)
}

/// `wasmtime::component::Linker::new`: a linker that defines nothing.
#[verifier::external_body]
pub(crate) fn empty_linker(engine: &Engine) -> (linker: Linker<WasiP1Ctx>)
    ensures
        !serves_system_interfaces(linker),
{
    Linker::new(engine)
}

/// `wasmtime_wasi::p2::add_to_linker_sync`: defines the blocking forms of the
/// system interfaces in a linker, or says why it could not.
#[verifier::external_body]
pub(crate) fn define_system_interfaces(linker: &mut Linker<WasiP1Ctx>) -> (r: Result<(), Error>)
    ensures
        r is Ok ==> serves_system_interfaces(*final(linker)),
{
    wasmtime_wasi::p2::add_to_linker_sync(linker)
}

/// `wasmtime_wasi::WasiCtxBuilder::new`: a builder with the runtime's
/// defaults, among them a closed standard input, a standard output and error
/// that go nowhere, and no arguments.
#[verifier::external_body]
pub(crate) fn default_grants() -> (builder: WasiCtxBuilder)
    ensures
        !grants_stdio(builder),
        grants_args(builder) == Seq::<Seq<char>>::empty(),
{
    WasiCtxBuilder::new()
}

/// `wasmtime_wasi::WasiCtxBuilder::inherit_stdio`: makes the host's standard
/// input, output and error the guest's, and leaves the arguments alone.
#[verifier::external_body]
pub(crate) fn grant_stdio(builder: &mut WasiCtxBuilder)
    ensures
        grants_stdio(*final(builder)),
        grants_args(*final(builder)) == grants_args(*old(builder)),
{
    builder.inherit_stdio();
}

/// `wasmtime_wasi::WasiCtxBuilder::args`: appends the arguments to those
/// that the guest gets, and leaves the standard streams alone.
#[verifier::external_body]
pub(crate) fn grant_args(builder: &mut WasiCtxBuilder, args: &Vec<String>)
    ensures
        grants_stdio(*final(builder)) == grants_stdio(*old(builder)),
        grants_args(*final(builder)) == grants_args(*old(builder)) + args.deep_view(),
{
    builder.args(args.as_slice());
}

/// `wasmtime_wasi::WasiCtxBuilder::build_p1`: the state that a store needs to
/// serve the system interfaces, with the standard streams and the arguments
/// of the builder. The runtime panics where one builder is built twice; this
/// function takes the builder away, so it cannot be.
#[verifier::external_body]
pub(crate) fn finish_grants(builder: WasiCtxBuilder) -> (state: WasiP1Ctx)
    ensures
        state_stdio(state) == grants_stdio(builder),
        state_args(state) == grants_args(builder),
{
    let mut builder = builder;
    builder.build_p1()
}

/// `wasmtime::Store::try_new`: a store of its own for one session, which
/// holds the state given; fails only where memory cannot be had.
#[verifier::external_body]
pub(crate) fn open_store(engine: &Engine, state: WasiP1Ctx) -> (r: Result<
    Store<WasiP1Ctx>,
    Error,
>)
    ensures
        r matches Ok(store) ==> store_state(store) == state,
{
    Store::try_new(engine, state)
}

/// `wasmtime::component::Linker::instantiate`: instantiates a component into
/// a store. An instance that comes out of it lives in that store, and the
/// store stays the store it was. Nothing but the builder writes the standard
/// streams and the arguments of a state, so the store's guest has those it
/// had.
#[verifier::external_body]
pub(crate) fn instantiate_component(
    linker: &Linker<WasiP1Ctx>,
    store: &mut Store<WasiP1Ctx>,
    component: &Component,
) -> (r: Result<Instance, Error>)
    ensures
        store_identity(*final(store)) == store_identity(*old(store)),
        same_grants(*final(store), *old(store)),
        r matches Ok(instance) ==> instance_home(instance) == store_identity(*old(store)),
{
    linker.instantiate(store, component)
}

/// `wasmtime::component::Instance::get_func`: the exported function at an
/// index, where the index names a function of the instance's component. The
/// runtime panics where the store does not hold the instance. A function that
/// comes out of it belongs to the instance's store.
#[verifier::external_body]
pub(crate) fn exported_func(
    instance: &Instance,
    store: &mut Store<WasiP1Ctx>,
    index: &ComponentExportIndex,
) -> (r: Option<Func>)
    requires
        instance_home(*instance) == store_identity(*old(store)),
    ensures
        store_identity(*final(store)) == store_identity(*old(store)),
        same_grants(*final(store), *old(store)),
        r matches Some(func) ==> func_home(func) == store_identity(*old(store)),
{
    instance.get_func(store, index)
}

/// `wasmtime::component::Func::ty`, with the `params` and the `results` of
/// what it gives: the types of the function's parameters, in their order, and
/// of its results. The runtime panics where the store does not hold the
/// function.
#[verifier::external_body]
pub(crate) fn func_signature(func: &Func, store: &Store<WasiP1Ctx>) -> (types: (
    Vec<WireType>,
    Vec<WireType>,
))
    requires
        func_home(*func) == store_identity(*store),
    ensures
        types.0.deep_view() == func_type(*func).0,
        types.1.deep_view() == func_type(*func).1,
{
    let ty = func.ty(store);
    (ty.params().map(|(_, t)| lift_type(&t)).collect(), ty.results().map(|t| lift_type(&t)).collect())
}

/// The wire type for a `Type` of the runtime, case by case; a case that the
/// bridge has no use for comes over as `Unsupported`.
#[verifier::external_body]
pub(crate) fn lift_type(ty: &Type) -> WireType {
    match ty {
        Type::Bool => WireType::Flag,
        Type::U32 => WireType::Number,
        Type::String => WireType::Text,
        Type::List(list) => WireType::List(Box::new(lift_type(&list.ty()))),
        Type::Variant(variant) => WireType::Variant(
            variant.cases().map(|case| (case.name.to_owned(), lift_inner(&case.ty))).collect(),
        ),
        Type::Result(result) => WireType::Outcome(lift_inner(&result.ok()), lift_inner(&result.err())),
        _ => WireType::Unsupported,
    }
}

/// The boxed wire type for a `Type` that may be absent.
#[verifier::external_body]
pub(crate) fn lift_inner(ty: &Option<Type>) -> Option<Box<WireType>> {
    ty.as_ref().map(|inner| Box::new(lift_type(inner)))
}

/// `wasmtime::component::Func::call`: calls into the guest and waits for it.
/// Whatever goes wrong comes back as an error: arguments or results that do
/// not fit the function's type, a trap, a failing host function. The runtime
/// panics where the store does not hold the function. The bridge hands over
/// one value for each parameter, of the parameter's type. The store stays
/// the store it was, its guest has the standard streams and the arguments
/// that it had, and the results keep their number.
#[verifier::external_body]
pub(crate) fn call_func(
    func: &Func,
    store: &mut Store<WasiP1Ctx>,
    params: &Vec<Val>,
    results: &mut Vec<Val>,
) -> (r: Result<(), Error>)
    requires
        func_home(*func) == store_identity(*old(store)),
        params@.len() == func_type(*func).0.len(),
        forall|i: int|
            0 <= i < params@.len() ==> has_type(val_wire(#[trigger] params@[i]), func_type(*func).0[i]),
    ensures
        store_identity(*final(store)) == store_identity(*old(store)),
        same_grants(*final(store), *old(store)),
        final(results)@.len() == old(results)@.len(),
{
    func.call(store, params, results)
}

/// The `Display` of `wasmtime::Error`, in its alternate form.
#[verifier::external_body]
pub(crate) fn describe(e: &Error) -> (text: String)
    ensures
        text@ == error_text(*e),
{
    format!("{e:#}")
}

/// The runtime's `Val` for a wire value, case by case. `Unsupported` has no
/// counterpart; the precondition leaves it out, and the arm that the match
/// needs for it is never taken.
#[verifier::external_body]
pub(crate) fn lower(value: &WireValue) -> (val: Val)
    requires
        sendable(value.deep_view()),
    ensures
        val_wire(val) == value.deep_view(),
{
    match value {
        WireValue::Flag(b) => Val::Bool(*b),
        WireValue::Number(n) => Val::U32(*n),
        WireValue::Text(s) => Val::String(s.clone()),
        WireValue::List(items) => Val::List(items.iter().map(lower).collect()),
        WireValue::Variant(c, p) => Val::Variant(c.clone(), lower_payload(p)),
        WireValue::Success(p) => Val::Result(Ok(lower_payload(p))),
        WireValue::Failure(p) => Val::Result(Err(lower_payload(p))),
        WireValue::Unsupported => Val::Bool(false),
    }
}

/// The runtime's boxed `Val` for the payload of a wire value, where there is
/// one.
#[verifier::external_body]
pub(crate) fn lower_payload(payload: &Option<Box<WireValue>>) -> (val: Option<Box<Val>>)
    requires
        payload_sendable(payload_model(*payload)),
    ensures
        payload_wire(val) == payload_model(*payload),
{
    payload.as_ref().map(|inner| Box::new(lower(inner)))
}

/// The wire value for a `Val` of the runtime, case by case; a case that the
/// bridge has no use for comes over as `Unsupported`.
#[verifier::external_body]
pub(crate) fn lift(value: &Val) -> (wire: WireValue)
    ensures
        wire.deep_view() == val_wire(*value),
{
    match value {
        Val::Bool(b) => WireValue::Flag(*b),
        Val::U32(n) => WireValue::Number(*n),
        Val::String(s) => WireValue::Text(s.clone()),
        Val::List(items) => WireValue::List(items.iter().map(lift).collect()),
        Val::Variant(c, p) => WireValue::Variant(c.clone(), lift_payload(p)),
        Val::Result(Ok(p)) => WireValue::Success(lift_payload(p)),
        Val::Result(Err(p)) => WireValue::Failure(lift_payload(p)),
        _ => WireValue::Unsupported,
    }
}

/// The boxed wire value for the payload of a `Val`, where there is one.
#[verifier::external_body]
pub(crate) fn lift_payload(payload: &Option<Box<Val>>) -> (wire: Option<Box<WireValue>>)
    ensures
        payload_model(wire) == payload_wire(*payload),
{
    payload.as_ref().map(|inner| Box::new(lift(inner)))
}

} // verus!
