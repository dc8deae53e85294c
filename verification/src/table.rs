//! The table of handles that a session has been given, and the state of each
//! pair of a context and a graph.

use crate::assoc::{
    as_map, keys_unique, lemma_absent, lemma_entry, lemma_push, lemma_update, place_of,
};
use crate::error::{outcome, ErrorKind, ErrorModel, GraphvizmError};
use crate::handles::{ContextHandle, GraphHandle};
use crate::reply::{Answer, AnswerModel};
use crate::request::Request;
use vstd::prelude::*;

verus! {

/// Where a pair of a context and a graph stands in its life.
#[derive(Clone, Copy, Debug, PartialEq, Eq, Structural)]
pub enum PairState {
    /// Both handles exist; the graph has not been changed since its creation.
    Created,
    /// The graph has been changed at least once.
    Mutable,
    /// A layout has been computed for the pair.
    LaidOut,
    /// The layout has been rendered at least once.
    Rendered,
    /// The layout has been released; the pair is spent.
    Freed,
}

/// What the table records of a pair once a layout has been computed for it.
#[derive(Clone, Copy, Debug, PartialEq, Eq, Structural)]
pub enum Phase {
    LaidOut,
    Rendered,
    Freed,
}

/// The mathematical model of a [`HandleTable`].
pub struct TableModel {
    /// Cleared for good when the sandbox faults.
    pub live: bool,
    /// The contexts that the guest has given out.
    pub contexts: Set<u32>,
    /// The graphs that the guest has given out, each with whether it has been
    /// changed since.
    pub graphs: Map<u32, bool>,
    /// The pairs for which a layout has been computed, each with how far it
    /// has come since.
    pub phases: Map<(u32, u32), Phase>,
}

impl TableModel {
    /// The table of a fresh session.
    pub open spec fn empty() -> TableModel {
        TableModel { live: true, contexts: Set::empty(), graphs: Map::empty(), phases: Map::empty() }
    }

    pub open spec fn knows_context(self, c: u32) -> bool {
        self.live && self.contexts.contains(c)
    }

    pub open spec fn knows_graph(self, g: u32) -> bool {
        self.live && self.graphs.contains_key(g)
    }

    /// The state of the pair, or `None` where a handle of it is not known.
    pub open spec fn state(self, c: u32, g: u32) -> Option<PairState> {
        if !self.knows_context(c) || !self.knows_graph(g) {
            None
        } else if self.phases.contains_key((c, g)) {
            Some(
                match self.phases[(c, g)] {
                    Phase::LaidOut => PairState::LaidOut,
                    Phase::Rendered => PairState::Rendered,
                    Phase::Freed => PairState::Freed,
                },
            )
        } else if self.graphs[g] {
            Some(PairState::Mutable)
        } else {
            Some(PairState::Created)
        }
    }

    /// No layout of the graph is held by any context.
    pub open spec fn at_rest(self, g: u32) -> bool {
        forall|c: u32| #[trigger]
            self.phases.contains_key((c, g)) ==> self.phases[(c, g)] == Phase::Freed
    }

    /// Nodes, edges and attributes of the graph may be changed.
    pub open spec fn may_mutate(self, g: u32) -> bool {
        self.knows_graph(g) && self.at_rest(g)
    }

    /// A layout may be computed for the pair.
    pub open spec fn may_layout(self, c: u32, g: u32) -> bool {
        self.state(c, g) == Some(PairState::Created) || self.state(c, g) == Some(
            PairState::Mutable,
        )
    }

    /// The pair may be rendered, and its layout may be released.
    pub open spec fn may_render(self, c: u32, g: u32) -> bool {
        self.state(c, g) == Some(PairState::LaidOut) || self.state(c, g) == Some(
            PairState::Rendered,
        )
    }

    pub open spec fn with_context(self, c: u32) -> TableModel {
        TableModel { contexts: self.contexts.insert(c), ..self }
    }

    /// A graph that is already known keeps what is recorded of it.
    pub open spec fn with_graph(self, g: u32) -> TableModel {
        if self.graphs.contains_key(g) {
            self
        } else {
            TableModel { graphs: self.graphs.insert(g, false), ..self }
        }
    }

    /// A graph that is not known stays unknown.
    pub open spec fn mutated(self, g: u32) -> TableModel {
        if self.graphs.contains_key(g) {
            TableModel { graphs: self.graphs.insert(g, true), ..self }
        } else {
            self
        }
    }

    pub open spec fn in_phase(self, c: u32, g: u32, phase: Phase) -> TableModel {
        TableModel { phases: self.phases.insert((c, g), phase), ..self }
    }

    /// The table after a fault of the sandbox: no handle is known any more.
    pub open spec fn poisoned(self) -> TableModel {
        TableModel { live: false, ..self }
    }

    /// Whether the request may be handed to the guest: the session is live,
    /// each handle of the request is known, and the request is valid in the
    /// state that the handles are in.
    pub open spec fn admits(self, request: Request) -> bool {
        match request {
            Request::GetVersion => self.live,
            Request::GetPluginList { .. } => self.live,
            Request::CreateContext => self.live,
            Request::CreateGraph { .. } => self.live,
            Request::AddNode { graph, .. } => self.may_mutate(graph.raw),
            Request::AddEdge { graph, .. } => self.may_mutate(graph.raw),
            Request::SetDefaultNodeAttribute { graph, .. } => self.may_mutate(graph.raw),
            Request::SetNodeAttribute { graph, .. } => self.may_mutate(graph.raw),
            Request::Layout { ctx, graph, .. } => self.may_layout(ctx.raw, graph.raw),
            Request::Render { ctx, graph, .. } => self.may_render(ctx.raw, graph.raw),
            Request::RenderDot { ctx, .. } => self.knows_context(ctx.raw),
            Request::FreeLayout { ctx, graph } => self.may_render(ctx.raw, graph.raw),
        }
    }

    /// The table after the guest has answered a request.
    ///
    /// A fault of the sandbox poisons the table. Any other failure changes
    /// nothing. A success records the new handle, the change to the graph, or
    /// the step that the pair has taken.
    pub open spec fn settled(
        self,
        request: Request,
        answer: Result<AnswerModel, ErrorModel>,
    ) -> TableModel {
        match answer {
            Err(e) => if e.kind == ErrorKind::Trap {
                self.poisoned()
            } else {
                self
            },
            Ok(value) => match request {
                Request::CreateContext => match value {
                    AnswerModel::Number(raw) => self.with_context(raw),
                    _ => self,
                },
                Request::CreateGraph { .. } => match value {
                    AnswerModel::Number(raw) => self.with_graph(raw),
                    _ => self,
                },
                Request::AddNode { graph, .. } => self.mutated(graph.raw),
                Request::AddEdge { graph, .. } => self.mutated(graph.raw),
                Request::SetDefaultNodeAttribute { graph, .. } => self.mutated(graph.raw),
                Request::SetNodeAttribute { graph, .. } => self.mutated(graph.raw),
                Request::Layout { ctx, graph, .. } => self.in_phase(
                    ctx.raw,
                    graph.raw,
                    Phase::LaidOut,
                ),
                Request::Render { ctx, graph, .. } => self.in_phase(
                    ctx.raw,
                    graph.raw,
                    Phase::Rendered,
                ),
                Request::FreeLayout { ctx, graph } => self.in_phase(
                    ctx.raw,
                    graph.raw,
                    Phase::Freed,
                ),
                _ => self,
            },
        }
    }
}

/// One step in the life of a table: a request, and what came of it.
pub struct Step<'a> {
    pub request: Request<'a>,
    pub answer: Result<AnswerModel, ErrorModel>,
}

impl TableModel {
    /// The table after one step. A request that the table does not admit
    /// never reaches the guest and changes nothing.
    pub open spec fn after(self, step: Step) -> TableModel {
        if self.admits(step.request) {
            self.settled(step.request, step.answer)
        } else {
            self
        }
    }

    /// The table after a sequence of steps, taken in their order.
    pub open spec fn after_all(self, steps: Seq<Step>) -> TableModel
        decreases steps.len(),
    {
        if steps.len() == 0 {
            self
        } else {
            self.after_all(steps.drop_last()).after(steps.last())
        }
    }
}

/// A fresh table is live and knows no handle: it admits the requests that
/// take no handle, and no others.
pub proof fn fresh_table_admits_no_handle(request: Request)
    ensures
        TableModel::empty().admits(request) <==> (request is GetVersion || request is GetPluginList
            || request is CreateContext || request is CreateGraph),
{
}

/// A failure that is not a fault of the sandbox changes nothing: every pair
/// stays in its state, every handle stays usable, and the request that failed
/// is admitted again.
pub proof fn refusal_changes_nothing(table: TableModel, request: Request, failure: ErrorModel)
    requires
        failure.kind != ErrorKind::Trap,
    ensures
        table.settled(request, Err(failure)) == table,
        table.admits(request) ==> table.settled(request, Err(failure)).admits(request),
{
}

/// A fault of the sandbox ends the session: no request is admitted after it.
pub proof fn fault_ends_session(
    table: TableModel,
    request: Request,
    failure: ErrorModel,
    next: Request,
)
    requires
        failure.kind == ErrorKind::Trap,
    ensures
        !table.settled(request, Err(failure)).admits(next),
{
}

/// A table that is not live stays so, whatever is asked of it, and admits
/// nothing.
pub proof fn ended_session_stays_ended(table: TableModel, steps: Seq<Step>, next: Request)
    requires
        !table.live,
    ensures
        table.after_all(steps) == table,
        !table.after_all(steps).admits(next),
    decreases steps.len(),
{
    if steps.len() > 0 {
        ended_session_stays_ended(table, steps.drop_last(), steps.last().request);
    }
}

/// A new context forms a pair with every known graph, and the pair starts in
/// `Created` or `Mutable` unless the table has seen it before.
pub proof fn new_context_pairs_with_graphs(table: TableModel, raw: u32, g: u32)
    requires
        table.live,
        table.knows_graph(g),
        !table.phases.contains_key((raw, g)),
    ensures
        table.settled(Request::CreateContext, Ok(AnswerModel::Number(raw))).may_layout(raw, g),
{
}

/// A change to a graph that succeeds leaves each of the graph's pairs that
/// could be laid out in `Mutable`, from where it can still be laid out.
pub proof fn mutation_makes_mutable(
    table: TableModel,
    ctx: ContextHandle,
    graph: GraphHandle,
    request: Request,
    answer: AnswerModel,
)
    requires
        table.may_layout(ctx.raw, graph.raw),
        request.changes_graph(graph),
    ensures
        table.admits(request) <==> table.may_mutate(graph.raw),
        table.settled(request, Ok(answer)).state(ctx.raw, graph.raw) == Some(PairState::Mutable),
        table.settled(request, Ok(answer)).may_layout(ctx.raw, graph.raw),
{
}

/// A graph that some context holds a layout of cannot be changed.
pub proof fn laid_out_graph_is_fixed(table: TableModel, c: u32, g: u32)
    requires
        table.may_render(c, g),
    ensures
        !table.may_mutate(g),
{
}

/// Rendering needs a layout: while a pair is `Created` or `Mutable` it can be
/// laid out, and can neither be rendered nor have a layout released.
pub proof fn render_needs_layout(table: TableModel, c: u32, g: u32)
    requires
        table.may_layout(c, g),
    ensures
        !table.may_render(c, g),
{
}

/// A layout that succeeds takes the pair to `LaidOut`, from where it can be
/// rendered and released, and cannot be laid out again.
pub proof fn layout_enables_render(
    table: TableModel,
    ctx: ContextHandle,
    graph: GraphHandle,
    engine: &str,
    answer: AnswerModel,
)
    requires
        table.may_layout(ctx.raw, graph.raw),
    ensures
        ({
            let after = table.settled(Request::Layout { ctx, graph, engine }, Ok(answer));
            &&& after.state(ctx.raw, graph.raw) == Some(PairState::LaidOut)
            &&& after.may_render(ctx.raw, graph.raw)
            &&& !after.may_layout(ctx.raw, graph.raw)
        }),
{
}

/// A rendering that succeeds takes the pair to `Rendered`, from where it can
/// be rendered again, in the same format or another.
pub proof fn render_may_repeat(
    table: TableModel,
    ctx: ContextHandle,
    graph: GraphHandle,
    format: &str,
    answer: AnswerModel,
)
    requires
        table.may_render(ctx.raw, graph.raw),
    ensures
        ({
            let after = table.settled(Request::Render { ctx, graph, format }, Ok(answer));
            &&& after.state(ctx.raw, graph.raw) == Some(PairState::Rendered)
            &&& after.may_render(ctx.raw, graph.raw)
        }),
{
}

/// Releasing the layout takes the pair to `Freed`, where nothing that names
/// the pair is admitted.
pub proof fn free_spends_pair(
    table: TableModel,
    ctx: ContextHandle,
    graph: GraphHandle,
    answer: AnswerModel,
    next: Request,
)
    requires
        table.may_render(ctx.raw, graph.raw),
        next.names_pair(ctx, graph),
    ensures
        ({
            let after = table.settled(Request::FreeLayout { ctx, graph }, Ok(answer));
            &&& after.state(ctx.raw, graph.raw) == Some(PairState::Freed)
            &&& !after.admits(next)
        }),
{
}

/// A one-shot rendering of source text changes the state of no pair, whether
/// it succeeds or the guest refuses the source, and its context can be used
/// for the next one.
pub proof fn one_shot_rendering_changes_no_pair(
    table: TableModel,
    request: Request,
    answer: Result<AnswerModel, ErrorModel>,
)
    requires
        request is RenderDot,
        table.admits(request),
        !(answer matches Err(failure) && failure.kind == ErrorKind::Trap),
    ensures
        table.settled(request, answer) == table,
        table.settled(request, answer).admits(request),
{
}

/// One step leaves a pair that is `Freed` as it is, unless the sandbox
/// faults, after which no handle is known.
pub proof fn freed_survives_step(table: TableModel, c: u32, g: u32, step: Step)
    requires
        table.state(c, g) == Some(PairState::Freed),
    ensures
        table.after(step).state(c, g) == Some(PairState::Freed) || !table.after(step).live,
{
}

/// `Freed` is final: once the layout of a pair has been released, then
/// whatever is asked of the session afterwards, and whatever comes of it, no
/// layout, rendering or release of that pair is admitted again.
pub proof fn freed_is_final(
    table: TableModel,
    ctx: ContextHandle,
    graph: GraphHandle,
    steps: Seq<Step>,
    next: Request,
)
    requires
        table.state(ctx.raw, graph.raw) == Some(PairState::Freed),
        next.names_pair(ctx, graph),
    ensures
        !table.after_all(steps).admits(next),
{
    freed_stays_freed(table, ctx.raw, graph.raw, steps);
}

/// After any sequence of steps a pair that was `Freed` is still `Freed`,
/// unless the sandbox has faulted.
pub proof fn freed_stays_freed(table: TableModel, c: u32, g: u32, steps: Seq<Step>)
    requires
        table.state(c, g) == Some(PairState::Freed),
    ensures
        table.after_all(steps).state(c, g) == Some(PairState::Freed) || !table.after_all(
            steps,
        ).live,
    decreases steps.len(),
{
    if steps.len() > 0 {
        let before = table.after_all(steps.drop_last());
        freed_stays_freed(table, c, g, steps.drop_last());
        if before.live {
            freed_survives_step(before, c, g, steps.last());
        }
    }
}

/// The handles that one session has been given and what has been done with
/// them.
pub struct HandleTable {
    live: bool,
    contexts: Vec<u32>,
    graphs: Vec<(u32, bool)>,
    pairs: Vec<((u32, u32), Phase)>,
}

impl View for HandleTable {
    type V = TableModel;

    closed spec fn view(&self) -> TableModel {
        TableModel {
            live: self.live,
            contexts: self.contexts@.to_set(),
            graphs: as_map(self.graphs@),
            phases: as_map(self.pairs@),
        }
    }
}

impl HandleTable {
    #[verifier::type_invariant]
    spec fn well_formed(self) -> bool {
        keys_unique(self.graphs@) && keys_unique(self.pairs@)
    }

    /// The table of a fresh session: live, and without a handle.
    pub fn new() -> (table: HandleTable)
        ensures
            table@ == TableModel::empty(),
    {
        let table = HandleTable {
            live: true,
            contexts: Vec::new(),
            graphs: Vec::new(),
            pairs: Vec::new(),
        };
        proof {
            assert(table.contexts@.to_set() =~= Set::<u32>::empty());
            assert(as_map(table.graphs@) =~= Map::<u32, bool>::empty());
            assert(as_map(table.pairs@) =~= Map::<(u32, u32), Phase>::empty());
        }
        table
    }

    /// Whether the sandbox behind this table has not faulted.
    pub fn is_live(&self) -> (live: bool)
        ensures
            live == self@.live,
    {
        self.live
    }

    fn context_place(&self, c: u32) -> (found: bool)
        ensures
            found == self.contexts@.to_set().contains(c),
    {
        let mut i: usize = 0;
        while i < self.contexts.len()
            invariant
                i <= self.contexts.len(),
                forall|j: int| 0 <= j < i ==> self.contexts@[j] != c,
            decreases self.contexts.len() - i,
        {
            if self.contexts[i] == c {
                assert(self.contexts@.contains(c));
                return true;
            }
            i += 1;
        }
        assert(!self.contexts@.contains(c));
        false
    }

    fn graph_place(&self, g: u32) -> (place: Option<usize>)
        ensures
            match place {
                Some(i) => i < self.graphs@.len() && self.graphs@[i as int].0 == g,
                None => !as_map(self.graphs@).contains_key(g),
            },
    {
        let mut i: usize = 0;
        while i < self.graphs.len()
            invariant
                i <= self.graphs.len(),
                forall|j: int| 0 <= j < i ==> (#[trigger] self.graphs@[j]).0 != g,
            decreases self.graphs.len() - i,
        {
            if self.graphs[i].0 == g {
                return Some(i);
            }
            i += 1;
        }
        proof {
            lemma_absent(self.graphs@, g);
        }
        None
    }

    fn pair_place(&self, c: u32, g: u32) -> (place: Option<usize>)
        ensures
            match place {
                Some(i) => i < self.pairs@.len() && self.pairs@[i as int].0 == (c, g),
                None => !as_map(self.pairs@).contains_key((c, g)),
            },
    {
        let mut i: usize = 0;
        while i < self.pairs.len()
            invariant
                i <= self.pairs.len(),
                forall|j: int| 0 <= j < i ==> (#[trigger] self.pairs@[j]).0 != (c, g),
            decreases self.pairs.len() - i,
        {
            let key = self.pairs[i].0;
            if key.0 == c && key.1 == g {
                return Some(i);
            }
            i += 1;
        }
        proof {
            lemma_absent(self.pairs@, (c, g));
        }
        None
    }

    /// Whether the context was given out by the guest of this table.
    pub fn knows_context(&self, ctx: ContextHandle) -> (known: bool)
        ensures
            known == self@.knows_context(ctx.raw),
    {
        self.live && self.context_place(ctx.raw)
    }

    /// Whether the graph was given out by the guest of this table.
    pub fn knows_graph(&self, graph: GraphHandle) -> (known: bool)
        ensures
            known == self@.knows_graph(graph.raw),
    {
        self.live && self.graph_place(graph.raw).is_some()
    }

    /// The state of the pair, or `None` where a handle of it is not known.
    pub fn state(&self, ctx: ContextHandle, graph: GraphHandle) -> (state: Option<PairState>)
        ensures
            state == self@.state(ctx.raw, graph.raw),
    {
        proof {
            use_type_invariant(self);
        }
        if !self.live || !self.context_place(ctx.raw) {
            return None;
        }
        match self.graph_place(graph.raw) {
            None => None,
            Some(at) => {
                proof {
                    lemma_entry(self.graphs@, at as int);
                }
                match self.pair_place(ctx.raw, graph.raw) {
                    Some(i) => {
                        proof {
                            lemma_entry(self.pairs@, i as int);
                        }
                        match self.pairs[i].1 {
                            Phase::LaidOut => Some(PairState::LaidOut),
                            Phase::Rendered => Some(PairState::Rendered),
                            Phase::Freed => Some(PairState::Freed),
                        }
                    },
                    None => {
                        if self.graphs[at].1 {
                            Some(PairState::Mutable)
                        } else {
                            Some(PairState::Created)
                        }
                    },
                }
            },
        }
    }

    /// Whether nodes, edges and attributes of the graph may be changed: the
    /// graph is known and no context holds a layout of it.
    pub fn may_mutate(&self, graph: GraphHandle) -> (allowed: bool)
        ensures
            allowed == self@.may_mutate(graph.raw),
    {
        proof {
            use_type_invariant(self);
        }
        if !self.knows_graph(graph) {
            return false;
        }
        let g = graph.raw;
        let mut i: usize = 0;
        while i < self.pairs.len()
            invariant
                i <= self.pairs.len(),
                g == graph.raw,
                self@.knows_graph(g),
                keys_unique(self.pairs@),
                forall|j: int|
                    0 <= j < i && (#[trigger] self.pairs@[j]).0.1 == g ==> self.pairs@[j].1
                        == Phase::Freed,
            decreases self.pairs.len() - i,
        {
            let entry = self.pairs[i];
            if entry.0.1 == g {
                match entry.1 {
                    Phase::Freed => {},
                    _ => {
                        proof {
                            lemma_entry(self.pairs@, i as int);
                            let c = entry.0.0;
                            assert(entry.0 == (c, g));
                            assert(self@.phases.contains_key((c, g)));
                            assert(self@.phases[(c, g)] != Phase::Freed);
                        }
                        return false;
                    },
                }
            }
            i += 1;
        }
        proof {
            assert forall|c: u32| #[trigger] self@.phases.contains_key((c, g)) implies self@.phases[(
                c,
                g,
            )] == Phase::Freed by {
                lemma_entry(self.pairs@, place_of(self.pairs@, (c, g)));
            }
        }
        true
    }

    /// Whether a layout may be computed for the pair.
    pub fn may_layout(&self, ctx: ContextHandle, graph: GraphHandle) -> (allowed: bool)
        ensures
            allowed == self@.may_layout(ctx.raw, graph.raw),
    {
        match self.state(ctx, graph) {
            Some(PairState::Created) => true,
            Some(PairState::Mutable) => true,
            _ => false,
        }
    }

    /// Whether the pair may be rendered, and its layout released.
    pub fn may_render(&self, ctx: ContextHandle, graph: GraphHandle) -> (allowed: bool)
        ensures
            allowed == self@.may_render(ctx.raw, graph.raw),
    {
        match self.state(ctx, graph) {
            Some(PairState::LaidOut) => true,
            Some(PairState::Rendered) => true,
            _ => false,
        }
    }

    /// Records a context that the guest has given out.
    pub fn admit_context(&mut self, raw: u32) -> (ctx: ContextHandle)
        ensures
            final(self)@ == old(self)@.with_context(raw),
            ctx.raw == raw,
    {
        proof {
            use_type_invariant(&*self);
        }
        if !self.context_place(raw) {
            let mut contexts: Vec<u32> = Vec::new();
            core::mem::swap(&mut self.contexts, &mut contexts);
            contexts.push(raw);
            core::mem::swap(&mut self.contexts, &mut contexts);
            assert(self.contexts@.to_set() =~= old(self).contexts@.to_set().insert(raw)) by {
                let before = old(self).contexts@;
                assert forall|x: u32| self.contexts@.contains(x) <==> (before.contains(x) || x
                    == raw) by {
                    if before.contains(x) {
                        let j = choose|j: int| 0 <= j < before.len() && before[j] == x;
                        assert(self.contexts@[j] == x);
                    }
                    if x == raw {
                        assert(self.contexts@[before.len() as int] == x);
                    }
                }
            }
        } else {
            assert(old(self).contexts@.to_set().insert(raw) =~= old(self).contexts@.to_set());
        }
        ContextHandle { raw }
    }

    /// Records a graph that the guest has given out. A graph that is already
    /// known keeps what is recorded of it.
    pub fn admit_graph(&mut self, raw: u32) -> (graph: GraphHandle)
        ensures
            final(self)@ == old(self)@.with_graph(raw),
            graph.raw == raw,
    {
        proof {
            use_type_invariant(&*self);
        }
        if self.graph_place(raw).is_none() {
            proof {
                lemma_push(self.graphs@, raw, false);
            }
            let mut graphs: Vec<(u32, bool)> = Vec::new();
            core::mem::swap(&mut self.graphs, &mut graphs);
            graphs.push((raw, false));
            core::mem::swap(&mut self.graphs, &mut graphs);
        }
        GraphHandle { raw }
    }

    /// Records that the graph has been changed.
    pub fn note_mutation(&mut self, graph: GraphHandle)
        ensures
            final(self)@ == old(self)@.mutated(graph.raw),
    {
        proof {
            use_type_invariant(&*self);
        }
        match self.graph_place(graph.raw) {
            Some(at) => {
                proof {
                    lemma_update(self.graphs@, at as int, true);
                }
                let mut graphs: Vec<(u32, bool)> = Vec::new();
                core::mem::swap(&mut self.graphs, &mut graphs);
                graphs.set(at, (graph.raw, true));
                core::mem::swap(&mut self.graphs, &mut graphs);
            },
            None => {},
        }
    }

    /// Records how far the pair has come.
    pub fn note_phase(&mut self, ctx: ContextHandle, graph: GraphHandle, phase: Phase)
        ensures
            final(self)@ == old(self)@.in_phase(ctx.raw, graph.raw, phase),
    {
        proof {
            use_type_invariant(&*self);
        }
        match self.pair_place(ctx.raw, graph.raw) {
            Some(at) => {
                proof {
                    lemma_update(self.pairs@, at as int, phase);
                }
                let mut pairs: Vec<((u32, u32), Phase)> = Vec::new();
                core::mem::swap(&mut self.pairs, &mut pairs);
                pairs.set(at, ((ctx.raw, graph.raw), phase));
                core::mem::swap(&mut self.pairs, &mut pairs);
            },
            None => {
                proof {
                    lemma_push(self.pairs@, (ctx.raw, graph.raw), phase);
                }
                let mut pairs: Vec<((u32, u32), Phase)> = Vec::new();
                core::mem::swap(&mut self.pairs, &mut pairs);
                pairs.push(((ctx.raw, graph.raw), phase));
                core::mem::swap(&mut self.pairs, &mut pairs);
            },
        }
    }

    /// Records that the sandbox has faulted: from now on no handle is known.
    pub fn poison(&mut self)
        ensures
            final(self)@ == old(self)@.poisoned(),
    {
        proof {
            use_type_invariant(&*self);
        }
        self.live = false;
    }

    /// Whether the request may be handed to the guest.
    pub fn admits(&self, request: &Request) -> (admitted: bool)
        ensures
            admitted == self@.admits(*request),
    {
        match request {
            Request::GetVersion => self.live,
            Request::GetPluginList { .. } => self.live,
            Request::CreateContext => self.live,
            Request::CreateGraph { .. } => self.live,
            Request::AddNode { graph, .. } => self.may_mutate(*graph),
            Request::AddEdge { graph, .. } => self.may_mutate(*graph),
            Request::SetDefaultNodeAttribute { graph, .. } => self.may_mutate(*graph),
            Request::SetNodeAttribute { graph, .. } => self.may_mutate(*graph),
            Request::Layout { ctx, graph, .. } => self.may_layout(*ctx, *graph),
            Request::Render { ctx, graph, .. } => self.may_render(*ctx, *graph),
            Request::RenderDot { ctx, .. } => self.knows_context(*ctx),
            Request::FreeLayout { ctx, graph } => self.may_render(*ctx, *graph),
        }
    }

    /// Records what the guest has answered to a request.
    pub fn settle(&mut self, request: &Request, answer: &Result<Answer, GraphvizmError>)
        ensures
            final(self)@ == old(self)@.settled(*request, outcome(*answer)),
    {
        match answer {
            Err(e) => {
                match e {
                    GraphvizmError::Trap(_) => {
                        self.poison();
                    },
                    _ => {},
                }
            },
            Ok(value) => {
                match request {
                    Request::CreateContext => {
                        match value {
                            Answer::Number(raw) => {
                                self.admit_context(*raw);
                            },
                            _ => {},
                        }
                    },
                    Request::CreateGraph { .. } => {
                        match value {
                            Answer::Number(raw) => {
                                self.admit_graph(*raw);
                            },
                            _ => {},
                        }
                    },
                    Request::AddNode { graph, .. } => {
                        self.note_mutation(*graph);
                    },
                    Request::AddEdge { graph, .. } => {
                        self.note_mutation(*graph);
                    },
                    Request::SetDefaultNodeAttribute { graph, .. } => {
                        self.note_mutation(*graph);
                    },
                    Request::SetNodeAttribute { graph, .. } => {
                        self.note_mutation(*graph);
                    },
                    Request::Layout { ctx, graph, .. } => {
                        self.note_phase(*ctx, *graph, Phase::LaidOut);
                    },
                    Request::Render { ctx, graph, .. } => {
                        self.note_phase(*ctx, *graph, Phase::Rendered);
                    },
                    Request::FreeLayout { ctx, graph } => {
                        self.note_phase(*ctx, *graph, Phase::Freed);
                    },
                    _ => {},
                }
            },
        }
    }
}

} // verus!
