//! A session: one instantiation of a module, with a store and a table of
//! handles of its own, and the typed operations on it.

use crate::error::{outcome, ErrorKind, ErrorModel, GraphvizmError};
use crate::handles::{ContextHandle, EdgeHandle, GraphHandle, NodeHandle};
use crate::lifecycle::{CapabilitySet, Module, Sandbox};
use crate::reply::{
    decode, decoded, decoded_is_well_shaped, fits, reply_from, reply_of, value_model, Answer,
    AnswerModel, GuestReply, ReplyModel,
};
use crate::request::{
    export_at, export_shape, export_slot, export_table_is_one_to_one, Export, Request, Shape,
    EXPORT_COUNT,
};
use crate::runtime::{
    call_func, default_grants, define_system_interfaces, describe, empty_linker, error_text,
    exported_func, finish_grants, func_home, func_signature, func_type, grant_args, grant_stdio,
    grants_args, grants_stdio, instance_home, instantiate_component, lift, lower, open_store,
    serves_system_interfaces, state_args, state_stdio, store_identity, store_state,
    val_wire,
};
use crate::signature::{
    admit_export, fitting_results_are_few, has_type, mistyped, request_is_well_typed,
    signature_fits, TypeModel,
};
use crate::table::{HandleTable, PairState, TableModel};
use crate::wire::{sendable, AttributeValue, Wire, WireValue};
use vstd::prelude::*;
use wasmtime::component::{Func, Linker, Val};
use wasmtime::Store;
use wasmtime_wasi::p1::WasiP1Ctx;
use wasmtime_wasi::WasiCtxBuilder;

verus! {

/// One instantiation of a module. A session shares nothing that can change
/// with any other session: the store, and with it the guest's memory, and the
/// table of handles are its own.
pub struct Session {
    store: Store<WasiP1Ctx>,
    exports: Vec<Func>,
    arity: Vec<usize>,
    table: HandleTable,
    grants: CapabilitySet,
}

/// The failure for a handle that is unknown, stale, or in the wrong state.
pub open spec fn invalid_handle() -> ErrorModel {
    ErrorModel { kind: ErrorKind::InvalidHandle, detail: Seq::empty() }
}

/// How a session and a result relate to the session before a request.
///
/// A request that the table does not admit fails with `InvalidHandle` and
/// leaves the whole session as it was: the guest is not asked. For a request
/// that the table admits the guest is asked once; the result is what the
/// guest's reply decodes to, and the table is settled with that result.
pub open spec fn exchanged(
    before: Session,
    after: Session,
    request: Request,
    result: Result<AnswerModel, ErrorModel>,
) -> bool {
    if before.table().admits(request) {
        &&& exists|reply: ReplyModel| result == #[trigger] decoded(request.shape_of(), reply)
        &&& after.table() == before.table().settled(request, result)
        &&& after.grants() == before.grants()
        &&& after.guest_stdio() == before.guest_stdio()
        &&& after.guest_args() == before.guest_args()
    } else {
        &&& result == Err::<AnswerModel, ErrorModel>(invalid_handle())
        &&& after == before
    }
}

/// The model of a result that holds nothing.
pub open spec fn unit_model(r: Result<(), GraphvizmError>) -> Result<AnswerModel, ErrorModel> {
    match r {
        Ok(_) => Ok(AnswerModel::Unit),
        Err(e) => Err(e.deep_view()),
    }
}

/// The model of a result that holds a handle.
pub open spec fn handle_model<H: DeepView<V = u32>>(r: Result<H, GraphvizmError>) -> Result<
    AnswerModel,
    ErrorModel,
> {
    match r {
        Ok(handle) => Ok(AnswerModel::Number(handle.deep_view())),
        Err(e) => Err(e.deep_view()),
    }
}

/// The model of a result that holds a text.
pub open spec fn text_model(r: Result<String, GraphvizmError>) -> Result<AnswerModel, ErrorModel> {
    match r {
        Ok(text) => Ok(AnswerModel::Text(text@)),
        Err(e) => Err(e.deep_view()),
    }
}

/// The model of a result that holds a sequence of texts.
pub open spec fn texts_model(r: Result<Vec<String>, GraphvizmError>) -> Result<
    AnswerModel,
    ErrorModel,
> {
    match r {
        Ok(texts) => Ok(AnswerModel::TextList(texts.deep_view())),
        Err(e) => Err(e.deep_view()),
    }
}

/// The failure for bindings that ask for more than the sandbox allows.
pub open spec fn beyond_sandbox() -> ErrorModel {
    ErrorModel { kind: ErrorKind::Link, detail: "capability beyond what the sandbox allows"@ }
}

/// The failure for what the runtime refuses while a module is instantiated:
/// a `Link` failure with the runtime's text.
pub fn link_failure(e: &wasmtime::Error) -> (failure: GraphvizmError)
    ensures
        failure.deep_view() == (ErrorModel { kind: ErrorKind::Link, detail: error_text(*e) }),
{
    GraphvizmError::Link(describe(e))
}

/// Puts together what a guest is granted of the host: the host's standard
/// input, output and error where `stdio` is set, and else a closed input and
/// an output and error that go nowhere; and `args`, in their order, as the
/// guest's arguments.
pub fn grants_for(stdio: bool, args: &Vec<String>) -> (builder: WasiCtxBuilder)
    ensures
        grants_stdio(builder) == stdio,
        grants_args(builder) == args.deep_view(),
{
    let mut builder = default_grants();
    if stdio {
        grant_stdio(&mut builder);
    }
    grant_args(&mut builder, args);
    assert(Seq::<Seq<char>>::empty() + args.deep_view() =~= args.deep_view());
    builder
}

/// The arguments that a guest gets: those given, where the bindings hold the
/// capability for arguments, and else none.
pub open spec fn granted_args(bindings: CapabilitySet, args: Seq<Seq<char>>) -> Seq<Seq<char>> {
    if bindings.args {
        args
    } else {
        Seq::empty()
    }
}

/// Puts together what the bindings grant: the standard streams as
/// `bindings.stdio` says, and `args` where `bindings.args` is set, else no
/// arguments.
pub fn grants_of(bindings: CapabilitySet, args: &Vec<String>) -> (builder: WasiCtxBuilder)
    ensures
        grants_stdio(builder) == bindings.stdio,
        grants_args(builder) == granted_args(bindings, args.deep_view()),
{
    if bindings.args {
        grants_for(bindings.stdio, args)
    } else {
        let none: Vec<String> = Vec::new();
        assert(none.deep_view() =~= Seq::<Seq<char>>::empty());
        grants_for(bindings.stdio, &none)
    }
}

/// A linker for the sandbox that defines the system interfaces, through
/// which a guest reaches what it is granted; a `Link` failure with the
/// runtime's text where the runtime cannot define them.
pub fn system_linker(sandbox: &Sandbox) -> (r: Result<Linker<WasiP1Ctx>, GraphvizmError>)
    ensures
        r matches Ok(linker) ==> serves_system_interfaces(linker),
        r matches Err(failure) ==> failure.deep_view().kind == ErrorKind::Link,
{
    let mut linker = empty_linker(&sandbox.runtime);
    match define_system_interfaces(&mut linker) {
        Ok(()) => Ok(linker),
        Err(e) => Err(link_failure(&e)),
    }
}

/// Instantiates a module into a session of its own, with a fresh store and
/// an empty table of handles. The guest is granted what [`grants_of`] puts
/// together for `bindings` and `args`: the host's standard streams where
/// `bindings.stdio` is set, and `args` where `bindings.args` is set.
///
/// Every failure is a `Link` failure. The call fails, before the runtime is
/// asked for anything, where `bindings` asks for more than the sandbox allows
/// and where the module lacks an entry of the export table. It also fails
/// where the runtime cannot satisfy an import of the module, and where the
/// guest exports an entry with another type than the bridge calls it with.
/// In a session that comes out of it, each entry of the export table is
/// served by a function of the fitting type.
pub fn instantiate(
    sandbox: &Sandbox,
    module: &Module,
    bindings: CapabilitySet,
    args: &Vec<String>,
) -> (r: Result<Session, GraphvizmError>)
    ensures
        r matches Ok(session) ==> {
            &&& session.wf()
            &&& session.table() == TableModel::empty()
            &&& session.grants() == bindings
            &&& session.guest_stdio() == bindings.stdio
            &&& session.guest_args() == granted_args(bindings, args.deep_view())
            &&& forall|export: Export|
                signature_fits(
                    export,
                    (#[trigger] session.export_type(export)).0,
                    session.export_type(export).1,
                )
        },
        r matches Err(failure) ==> failure.deep_view().kind == ErrorKind::Link,
        !bindings.within(sandbox.capabilities()) ==> (r matches Err(failure)
            && failure.deep_view() == beyond_sandbox()),
        bindings.within(sandbox.capabilities()) && !module.exports_complete() ==> (r matches Err(
            failure,
        ) && failure.deep_view() == module.missing_export()),
{
    if !bindings.is_within(&sandbox.granted()) {
        return Err(GraphvizmError::Link("capability beyond what the sandbox allows".to_owned()));
    }
    let found = match module.resolve_exports() {
        Ok(found) => found,
        Err(failure) => {
            return Err(failure);
        },
    };
    let linker = match system_linker(sandbox) {
        Ok(linker) => linker,
        Err(failure) => {
            return Err(failure);
        },
    };
    let builder = grants_of(bindings, args);
    let mut store = match open_store(&sandbox.runtime, finish_grants(builder)) {
        Ok(store) => store,
        Err(e) => {
            return Err(link_failure(&e));
        },
    };
    let instance = match instantiate_component(&linker, &mut store, &module.component) {
        Ok(instance) => instance,
        Err(e) => {
            return Err(link_failure(&e));
        },
    };
    let mut exports: Vec<Func> = Vec::new();
    let mut arity: Vec<usize> = Vec::new();
    let mut slot: usize = 0;
    while slot < EXPORT_COUNT
        invariant
            slot <= EXPORT_COUNT,
            found@.len() == EXPORT_COUNT,
            exports@.len() == slot,
            arity@.len() == slot,
            bindings.within(sandbox.capabilities()),
            module.exports_complete(),
            instance_home(instance) == store_identity(store),
            state_stdio(store_state(store)) == bindings.stdio,
            state_args(store_state(store)) == granted_args(bindings, args.deep_view()),
            forall|i: int|
                0 <= i < exports@.len() ==> func_home(#[trigger] exports@[i]) == store_identity(
                    store,
                ),
            forall|i: int|
                0 <= i < exports@.len() ==> {
                    &&& signature_fits(
                        export_at(i),
                        func_type(#[trigger] exports@[i]).0,
                        func_type(exports@[i]).1,
                    )
                    &&& arity@[i] == func_type(exports@[i]).1.len()
                },
        decreases EXPORT_COUNT - slot,
    {
        let export = match Export::at(slot) {
            Some(export) => export,
            None => vstd::pervasive::unreached(),
        };
        match exported_func(&instance, &mut store, &found[slot]) {
            Some(func) => {
                let (params, results) = func_signature(&func, &store);
                match admit_export(export, &params, &results) {
                    Ok(count) => {
                        exports.push(func);
                        arity.push(count);
                    },
                    Err(failure) => {
                        return Err(failure);
                    },
                }
            },
            None => {
                return Err(mistyped(export));
            },
        }
        slot += 1;
    }
    Ok(Session { store, exports, arity, table: HandleTable::new(), grants: bindings })
}

/// A request fails with `InvalidHandle` exactly where the table does not
/// admit it; every other failure of a request is a fault of the sandbox or a
/// refusal by the guest, never a failure of loading or linking.
pub proof fn failures_of_a_request(
    before: Session,
    after: Session,
    request: Request,
    result: Result<AnswerModel, ErrorModel>,
)
    requires
        exchanged(before, after, request, result),
    ensures
        result == Err::<AnswerModel, ErrorModel>(invalid_handle()) <==> !before.table().admits(
            request,
        ),
        result matches Err(failure) ==> failure.kind == ErrorKind::InvalidHandle || failure.kind
            == ErrorKind::Trap || failure.kind == ErrorKind::Domain,
        result matches Ok(answer) ==> fits(request.shape_of(), answer),
{
    if before.table().admits(request) {
        let reply = choose|reply: ReplyModel| result == #[trigger] decoded(request.shape_of(), reply);
        decoded_is_well_shaped(request.shape_of(), reply);
    }
}

/// On a fresh session the version can be asked for: the request reaches the
/// guest, and a version that comes back holds at least one character. What
/// fails is a fault of the sandbox or a refusal by the guest, never a handle.
pub proof fn fresh_session_serves_version(
    before: Session,
    after: Session,
    result: Result<AnswerModel, ErrorModel>,
)
    requires
        before.table() == TableModel::empty(),
        exchanged(before, after, Request::GetVersion, result),
    ensures
        before.table().admits(Request::GetVersion),
        result matches Ok(answer) ==> answer matches AnswerModel::Text(version) && version.len()
            > 0,
        result matches Err(failure) ==> failure.kind == ErrorKind::Trap || failure.kind
            == ErrorKind::Domain,
{
    failures_of_a_request(before, after, Request::GetVersion, result);
}

/// What a request sends is what the session's function for its entry takes:
/// one value for each parameter, of the parameter's type. And that function
/// returns a value exactly where its type has a result.
pub proof fn session_requests_are_well_typed(session: Session, request: Request)
    requires
        session.wf(),
    ensures
        request.wires().len() == session.export_type(request.export_of()).0.len(),
        forall|i: int|
            0 <= i < request.wires().len() ==> has_type(
                #[trigger] request.wires()[i],
                session.export_type(request.export_of()).0[i],
            ),
        session.returns_value(request.export_of()) == (session.export_type(
            request.export_of(),
        ).1.len() > 0),
{
    let export = request.export_of();
    export_table_is_one_to_one(export, 0);
    request_is_well_typed(request, session.export_type(export).0);
}

/// A refusal by the guest is safe to retry: the session's table is as it was
/// before the request, and the same request is admitted again.
pub proof fn refusal_may_be_retried(
    before: Session,
    after: Session,
    request: Request,
    result: Result<AnswerModel, ErrorModel>,
)
    requires
        exchanged(before, after, request, result),
        result matches Err(failure) && failure.kind == ErrorKind::Domain,
    ensures
        after.table() == before.table(),
        after.table().admits(request),
{
}

/// A fault of the sandbox discards the session: no request is admitted on it
/// afterwards.
pub proof fn fault_discards_session(
    before: Session,
    after: Session,
    request: Request,
    result: Result<AnswerModel, ErrorModel>,
    next: Request,
)
    requires
        exchanged(before, after, request, result),
        result matches Err(failure) && failure.kind == ErrorKind::Trap,
    ensures
        !after.table().admits(next),
{
}

/// A layout, a rendering or a release that names a pair whose layout has been
/// released fails with `InvalidHandle` and leaves the session as it was.
pub proof fn spent_pair_is_refused(
    before: Session,
    after: Session,
    ctx: ContextHandle,
    graph: GraphHandle,
    request: Request,
    result: Result<AnswerModel, ErrorModel>,
)
    requires
        before.table().state(ctx.raw, graph.raw) == Some(PairState::Freed),
        request.names_pair(ctx, graph),
        exchanged(before, after, request, result),
    ensures
        result == Err::<AnswerModel, ErrorModel>(invalid_handle()),
        after == before,
{
}

/// A rendering of a pair that has no layout fails with `InvalidHandle` and
/// leaves the session as it was.
pub proof fn render_without_layout_is_refused(
    before: Session,
    after: Session,
    ctx: ContextHandle,
    graph: GraphHandle,
    format: &str,
    result: Result<AnswerModel, ErrorModel>,
)
    requires
        before.table().may_layout(ctx.raw, graph.raw),
        exchanged(before, after, Request::Render { ctx, graph, format }, result),
    ensures
        result == Err::<AnswerModel, ErrorModel>(invalid_handle()),
        after == before,
{
}

impl Session {
    /// Every exported function of the session belongs to the session's store,
    /// and there is one for each entry of the export table, of the type that
    /// the bridge calls the entry with. What the session records as granted
    /// is what its guest has.
    pub closed spec fn wf(&self) -> bool {
        &&& self.exports@.len() == EXPORT_COUNT
        &&& self.arity@.len() == EXPORT_COUNT
        &&& forall|i: int|
            0 <= i < self.exports@.len() ==> func_home(#[trigger] self.exports@[i])
                == store_identity(self.store)
        &&& forall|i: int|
            0 <= i < self.exports@.len() ==> {
                &&& signature_fits(
                    export_at(i),
                    func_type(#[trigger] self.exports@[i]).0,
                    func_type(self.exports@[i]).1,
                )
                &&& self.arity@[i] == func_type(self.exports@[i]).1.len()
            }
        &&& self.grants.stdio == state_stdio(store_state(self.store))
        &&& !self.grants.args ==> state_args(store_state(self.store)) == Seq::<Seq<char>>::empty()
    }

    /// Whether the guest's standard input, output and error are the host's
    /// own.
    pub closed spec fn guest_stdio(&self) -> bool {
        state_stdio(store_state(self.store))
    }

    /// The arguments that the guest gets, in their order.
    pub closed spec fn guest_args(&self) -> Seq<Seq<char>> {
        state_args(store_state(self.store))
    }

    /// The types of the parameters and of the results of the guest's function
    /// for the entry.
    pub closed spec fn export_type(&self, export: Export) -> (Seq<TypeModel>, Seq<TypeModel>) {
        func_type(self.exports@[export_slot(export)])
    }

    /// Whether the guest's function for the entry returns a value.
    pub closed spec fn returns_value(&self, export: Export) -> bool {
        self.arity@[export_slot(export)] > 0
    }

    /// The table of the session's handles.
    pub closed spec fn table(&self) -> TableModel {
        self.table@
    }

    /// What of the host the session's guest may reach.
    pub closed spec fn grants(&self) -> CapabilitySet {
        self.grants
    }

    /// The table of the session's handles.
    pub fn handles(&self) -> (table: &HandleTable)
        ensures
            table@ == self.table(),
    {
        &self.table
    }

    /// What of the host the session's guest may reach.
    pub fn granted(&self) -> (set: CapabilitySet)
        ensures
            set == self.grants(),
    {
        self.grants
    }

    /// Whether the session can still be used: its sandbox has not faulted.
    pub fn is_live(&self) -> (live: bool)
        ensures
            live == self.table().live,
    {
        self.table.is_live()
    }

    /// Hands the arguments to the guest's function for the entry and waits
    /// for what comes back.
    ///
    /// The reply is what [`reply_of`] makes of the runtime's word on the call
    /// and of the value that the call returned: a fault where the runtime
    /// reports an error, else that value, or nothing. There is such a value
    /// exactly where the guest's function returns one, so a call that
    /// brings nothing back is a call for an entry that answers with nothing.
    /// Of the session only the store changes.
    fn exchange(&mut self, export: Export, args: &Vec<WireValue>) -> (reply: GuestReply)
        requires
            old(self).wf(),
            forall|i: int| 0 <= i < args.deep_view().len() ==> sendable(#[trigger] args.deep_view()[i]),
            args.deep_view().len() == old(self).export_type(export).0.len(),
            forall|i: int|
                0 <= i < args.deep_view().len() ==> has_type(
                    #[trigger] args.deep_view()[i],
                    old(self).export_type(export).0[i],
                ),
        ensures
            final(self).wf(),
            final(self).table() == old(self).table(),
            final(self).grants() == old(self).grants(),
            final(self).guest_stdio() == old(self).guest_stdio(),
            final(self).guest_args() == old(self).guest_args(),
            forall|other: Export|
                #[trigger] final(self).returns_value(other) == old(self).returns_value(other),
            exists|called: Result<(), wasmtime::Error>, value: Option<Wire>|
                {
                    &&& reply.deep_view() == #[trigger] reply_of(called, value)
                    &&& value is Some <==> old(self).returns_value(export)
                },
            reply.deep_view() is Nothing ==> export_shape(export) == Shape::Unit,
    {
        let mut params: Vec<Val> = Vec::new();
        let mut i: usize = 0;
        while i < args.len()
            invariant
                i <= args.len(),
                params@.len() == i,
                forall|j: int|
                    0 <= j < args.deep_view().len() ==> sendable(#[trigger] args.deep_view()[j]),
                forall|j: int| 0 <= j < i ==> val_wire(#[trigger] params@[j]) == args.deep_view()[j],
            decreases args.len() - i,
        {
            assert(args.deep_view()[i as int] == args@[i as int].deep_view());
            params.push(lower(&args[i]));
            i += 1;
        }
        proof {
            export_table_is_one_to_one(export, 0);
        }
        let func = &self.exports[export.slot()];
        let count = self.arity[export.slot()];
        let mut results: Vec<Val> = Vec::new();
        let mut k: usize = 0;
        while k < count
            invariant
                k <= count,
                results@.len() == k,
            decreases count - k,
        {
            results.push(lower(&WireValue::Flag(false)));
            k += 1;
        }
        let called = call_func(func, &mut self.store, &params, &mut results);
        let value = if results.len() == 0 {
            None
        } else {
            Some(lift(&results[0]))
        };
        let ghost said = called;
        let ghost brought = value_model(value);
        let reply = reply_from(called, value);
        proof {
            export_table_is_one_to_one(export, 0);
            let ty = func_type(old(self).exports@[export_slot(export)]);
            fitting_results_are_few(export, ty.0, ty.1);
            assert(reply.deep_view() == reply_of(said, brought));
            assert(brought is Some <==> old(self).returns_value(export));
        }
        reply
    }

    /// Serves one request.
    ///
    /// Where the table does not admit the request, the call fails with
    /// `InvalidHandle` before the guest is reached, and nothing changes. Else
    /// the arguments go to the guest in their wire form, the reply is decoded
    /// for the shape that the request answers with, and the table is settled
    /// with the result.
    pub fn call(&mut self, request: &Request) -> (r: Result<Answer, GraphvizmError>)
        requires
            old(self).wf(),
        ensures
            final(self).wf(),
            exchanged(*old(self), *final(self), *request, outcome(r)),
            r matches Ok(answer) ==> fits(request.shape_of(), answer.deep_view()),
    {
        if !self.table.admits(request) {
            return Err(GraphvizmError::InvalidHandle);
        }
        let args = request.encode();
        proof {
            request.wires_are_sendable();
            session_requests_are_well_typed(*self, *request);
        }
        let reply = self.exchange(request.export(), &args);
        let answer = decode(request.shape(), &reply);
        self.table.settle(request, &answer);
        proof {
            decoded_is_well_shaped(request.shape_of(), reply.deep_view());
        }
        answer
    }

    /// The version of the engine inside the guest: a text of at least one
    /// character.
    pub fn get_version(&mut self) -> (r: Result<String, GraphvizmError>)
        requires
            old(self).wf(),
        ensures
            final(self).wf(),
            exchanged(*old(self), *final(self), Request::GetVersion, text_model(r)),
            r matches Ok(version) ==> version@.len() > 0,
    {
        match self.call(&Request::GetVersion) {
            Ok(Answer::Text(version)) => Ok(version),
            Ok(_) => vstd::pervasive::unreached(),
            Err(e) => Err(e),
        }
    }

    /// The names of the guest's plugins of a kind, in the guest's order; none
    /// where the guest knows no such kind.
    pub fn get_plugin_list(&mut self, kind: &str) -> (r: Result<Vec<String>, GraphvizmError>)
        requires
            old(self).wf(),
        ensures
            final(self).wf(),
            exchanged(*old(self), *final(self), Request::GetPluginList { kind }, texts_model(r)),
    {
        match self.call(&Request::GetPluginList { kind }) {
            Ok(Answer::TextList(names)) => Ok(names),
            Ok(_) => vstd::pervasive::unreached(),
            Err(e) => Err(e),
        }
    }

    /// Has the guest make a rendering context and records its handle.
    pub fn create_context(&mut self) -> (r: Result<ContextHandle, GraphvizmError>)
        requires
            old(self).wf(),
        ensures
            final(self).wf(),
            exchanged(*old(self), *final(self), Request::CreateContext, handle_model(r)),
    {
        match self.call(&Request::CreateContext) {
            Ok(Answer::Number(raw)) => Ok(ContextHandle { raw }),
            Ok(_) => vstd::pervasive::unreached(),
            Err(e) => Err(e),
        }
    }

    /// Has the guest make a graph and records its handle.
    pub fn create_graph(&mut self, name: &str, strict: bool, directed: bool) -> (r: Result<
        GraphHandle,
        GraphvizmError,
    >)
        requires
            old(self).wf(),
        ensures
            final(self).wf(),
            exchanged(
                *old(self),
                *final(self),
                Request::CreateGraph { name, strict, directed },
                handle_model(r),
            ),
    {
        match self.call(&Request::CreateGraph { name, strict, directed }) {
            Ok(Answer::Number(raw)) => Ok(GraphHandle { raw }),
            Ok(_) => vstd::pervasive::unreached(),
            Err(e) => Err(e),
        }
    }

    /// Adds a node to a graph that no context holds a layout of.
    ///
    /// The bridge keeps no record of a graph's nodes. Whether a name that the
    /// graph already has gives a handle or a refusal is the guest's to say,
    /// and the bridge hands on what the guest says.
    pub fn add_node(&mut self, graph: GraphHandle, name: &str) -> (r: Result<
        NodeHandle,
        GraphvizmError,
    >)
        requires
            old(self).wf(),
        ensures
            final(self).wf(),
            exchanged(*old(self), *final(self), Request::AddNode { graph, name }, handle_model(r)),
    {
        match self.call(&Request::AddNode { graph, name }) {
            Ok(Answer::Number(raw)) => Ok(NodeHandle { raw }),
            Ok(_) => vstd::pervasive::unreached(),
            Err(e) => Err(e),
        }
    }

    /// Adds an edge between two nodes of a graph that no context holds a
    /// layout of. The guest refuses an end that the graph does not have.
    pub fn add_edge(&mut self, graph: GraphHandle, tail: &str, head: &str) -> (r: Result<
        EdgeHandle,
        GraphvizmError,
    >)
        requires
            old(self).wf(),
        ensures
            final(self).wf(),
            exchanged(
                *old(self),
                *final(self),
                Request::AddEdge { graph, tail, head },
                handle_model(r),
            ),
    {
        match self.call(&Request::AddEdge { graph, tail, head }) {
            Ok(Answer::Number(raw)) => Ok(EdgeHandle { raw }),
            Ok(_) => vstd::pervasive::unreached(),
            Err(e) => Err(e),
        }
    }

    /// Sets an attribute for the nodes that are added to the graph from now
    /// on.
    pub fn set_default_node_attribute(
        &mut self,
        graph: GraphHandle,
        key: &str,
        value: &AttributeValue,
    ) -> (r: Result<(), GraphvizmError>)
        requires
            old(self).wf(),
        ensures
            final(self).wf(),
            exchanged(
                *old(self),
                *final(self),
                Request::SetDefaultNodeAttribute { graph, key, value },
                unit_model(r),
            ),
    {
        match self.call(&Request::SetDefaultNodeAttribute { graph, key, value }) {
            Ok(_) => Ok(()),
            Err(e) => Err(e),
        }
    }

    /// Sets an attribute of a node. The guest refuses a node that the graph
    /// does not have.
    pub fn set_node_attribute(
        &mut self,
        graph: GraphHandle,
        node: &str,
        key: &str,
        value: &AttributeValue,
    ) -> (r: Result<(), GraphvizmError>)
        requires
            old(self).wf(),
        ensures
            final(self).wf(),
            exchanged(
                *old(self),
                *final(self),
                Request::SetNodeAttribute { graph, node, key, value },
                unit_model(r),
            ),
    {
        match self.call(&Request::SetNodeAttribute { graph, node, key, value }) {
            Ok(_) => Ok(()),
            Err(e) => Err(e),
        }
    }

    /// Computes a layout of the graph with the named layout engine. The pair
    /// must not have a layout yet.
    pub fn layout(&mut self, ctx: ContextHandle, graph: GraphHandle, engine: &str) -> (r: Result<
        (),
        GraphvizmError,
    >)
        requires
            old(self).wf(),
        ensures
            final(self).wf(),
            exchanged(
                *old(self),
                *final(self),
                Request::Layout { ctx, graph, engine },
                unit_model(r),
            ),
    {
        match self.call(&Request::Layout { ctx, graph, engine }) {
            Ok(_) => Ok(()),
            Err(e) => Err(e),
        }
    }

    /// Renders the layout of the pair in the named format. The pair must have
    /// a layout.
    pub fn render(&mut self, ctx: ContextHandle, graph: GraphHandle, format: &str) -> (r: Result<
        String,
        GraphvizmError,
    >)
        requires
            old(self).wf(),
        ensures
            final(self).wf(),
            exchanged(
                *old(self),
                *final(self),
                Request::Render { ctx, graph, format },
                text_model(r),
            ),
    {
        match self.call(&Request::Render { ctx, graph, format }) {
            Ok(Answer::Text(document)) => Ok(document),
            Ok(_) => vstd::pervasive::unreached(),
            Err(e) => Err(e),
        }
    }

    /// Parses, lays out and renders a graph given as source text, in one
    /// step and without a graph handle. The context must be known; no pair
    /// changes its state.
    pub fn render_dot(&mut self, ctx: ContextHandle, source: &str, engine: &str, format: &str) -> (r:
        Result<String, GraphvizmError>)
        requires
            old(self).wf(),
        ensures
            final(self).wf(),
            exchanged(
                *old(self),
                *final(self),
                Request::RenderDot { ctx, source, engine, format },
                text_model(r),
            ),
    {
        match self.call(&Request::RenderDot { ctx, source, engine, format }) {
            Ok(Answer::Text(document)) => Ok(document),
            Ok(_) => vstd::pervasive::unreached(),
            Err(e) => Err(e),
        }
    }

    /// Releases the layout of the pair. The pair must have a layout, and is
    /// spent afterwards.
    pub fn free_layout(&mut self, ctx: ContextHandle, graph: GraphHandle) -> (r: Result<
        (),
        GraphvizmError,
    >)
        requires
            old(self).wf(),
        ensures
            final(self).wf(),
            exchanged(*old(self), *final(self), Request::FreeLayout { ctx, graph }, unit_model(r)),
    {
        match self.call(&Request::FreeLayout { ctx, graph }) {
            Ok(_) => Ok(()),
            Err(e) => Err(e),
        }
    }
}

} // verus!
