//! The operations that the guest exports, what the host sends for each, and
//! how it reads what comes back.

use crate::handles::{ContextHandle, GraphHandle};
use crate::wire::{
    attribute_wire, attribute_wire_is_sendable, sendable, AttributeValue, Wire, WireValue,
};
use vstd::prelude::*;

verus! {

/// One entry of the fixed table of functions that a guest must export.
#[derive(Clone, Copy, Debug, PartialEq, Eq, Structural)]
pub enum Export {
    GetVersion,
    GetPluginList,
    CreateContext,
    CreateGraph,
    AddNode,
    AddEdge,
    SetDefaultNodeAttribute,
    SetNodeAttribute,
    Layout,
    Render,
    RenderDot,
    FreeLayout,
}

/// The number of entries of the export table.
pub const EXPORT_COUNT: usize = 12;

/// The name of the interface under which the guest exports its functions.
pub open spec fn interface_name_spec() -> Seq<char> {
    "viz:component/viz-api"@
}

/// The name of the interface under which the guest exports its functions.
pub fn interface_name() -> (name: &'static str)
    ensures
        name@ == interface_name_spec(),
{
    "viz:component/viz-api"
}

/// The name under which the guest exports the entry.
pub open spec fn export_name(export: Export) -> Seq<char> {
    match export {
        Export::GetVersion => "get-graphviz-version"@,
        Export::GetPluginList => "get-plugin-list"@,
        Export::CreateContext => "create-context"@,
        Export::CreateGraph => "create-graph"@,
        Export::AddNode => "add-node"@,
        Export::AddEdge => "add-edge"@,
        Export::SetDefaultNodeAttribute => "set-default-node-attribute"@,
        Export::SetNodeAttribute => "set-node-attribute"@,
        Export::Layout => "layout"@,
        Export::Render => "render"@,
        Export::RenderDot => "render-dot"@,
        Export::FreeLayout => "free-layout"@,
    }
}

/// The place of the entry in the export table.
pub open spec fn export_slot(export: Export) -> int {
    match export {
        Export::GetVersion => 0,
        Export::GetPluginList => 1,
        Export::CreateContext => 2,
        Export::CreateGraph => 3,
        Export::AddNode => 4,
        Export::AddEdge => 5,
        Export::SetDefaultNodeAttribute => 6,
        Export::SetNodeAttribute => 7,
        Export::Layout => 8,
        Export::Render => 9,
        Export::RenderDot => 10,
        Export::FreeLayout => 11,
    }
}

/// The entry at a place of the export table.
pub open spec fn export_at(slot: int) -> Export {
    if slot == 0 {
        Export::GetVersion
    } else if slot == 1 {
        Export::GetPluginList
    } else if slot == 2 {
        Export::CreateContext
    } else if slot == 3 {
        Export::CreateGraph
    } else if slot == 4 {
        Export::AddNode
    } else if slot == 5 {
        Export::AddEdge
    } else if slot == 6 {
        Export::SetDefaultNodeAttribute
    } else if slot == 7 {
        Export::SetNodeAttribute
    } else if slot == 8 {
        Export::Layout
    } else if slot == 9 {
        Export::Render
    } else if slot == 10 {
        Export::RenderDot
    } else {
        Export::FreeLayout
    }
}

/// Each entry stands at its own place of the table, and each place of the
/// table holds an entry.
pub proof fn export_table_is_one_to_one(export: Export, slot: int)
    ensures
        0 <= export_slot(export) < EXPORT_COUNT,
        export_at(export_slot(export)) == export,
        0 <= slot < EXPORT_COUNT ==> export_slot(export_at(slot)) == slot,
{
}

impl Export {
    /// The place of the entry in the export table.
    pub fn slot(self) -> (slot: usize)
        ensures
            slot == export_slot(self),
            slot < EXPORT_COUNT,
    {
        match self {
            Export::GetVersion => 0,
            Export::GetPluginList => 1,
            Export::CreateContext => 2,
            Export::CreateGraph => 3,
            Export::AddNode => 4,
            Export::AddEdge => 5,
            Export::SetDefaultNodeAttribute => 6,
            Export::SetNodeAttribute => 7,
            Export::Layout => 8,
            Export::Render => 9,
            Export::RenderDot => 10,
            Export::FreeLayout => 11,
        }
    }

    /// The entry at a place of the export table, if the place is within it.
    pub fn at(slot: usize) -> (export: Option<Export>)
        ensures
            export == if slot < EXPORT_COUNT {
                Some(export_at(slot as int))
            } else {
                None
            },
    {
        if slot == 0 {
            Some(Export::GetVersion)
        } else if slot == 1 {
            Some(Export::GetPluginList)
        } else if slot == 2 {
            Some(Export::CreateContext)
        } else if slot == 3 {
            Some(Export::CreateGraph)
        } else if slot == 4 {
            Some(Export::AddNode)
        } else if slot == 5 {
            Some(Export::AddEdge)
        } else if slot == 6 {
            Some(Export::SetDefaultNodeAttribute)
        } else if slot == 7 {
            Some(Export::SetNodeAttribute)
        } else if slot == 8 {
            Some(Export::Layout)
        } else if slot == 9 {
            Some(Export::Render)
        } else if slot == 10 {
            Some(Export::RenderDot)
        } else if slot == 11 {
            Some(Export::FreeLayout)
        } else {
            None
        }
    }

    /// The kind of value that the entry answers with.
    pub fn shape(self) -> (shape: Shape)
        ensures
            shape == export_shape(self),
    {
        match self {
            Export::GetVersion => Shape::FilledText,
            Export::GetPluginList => Shape::TextList,
            Export::CreateContext => Shape::Number,
            Export::CreateGraph => Shape::Number,
            Export::AddNode => Shape::Number,
            Export::AddEdge => Shape::Number,
            Export::SetDefaultNodeAttribute => Shape::Unit,
            Export::SetNodeAttribute => Shape::Unit,
            Export::Layout => Shape::Unit,
            Export::Render => Shape::Text,
            Export::RenderDot => Shape::Text,
            Export::FreeLayout => Shape::Unit,
        }
    }

    /// The name under which the guest exports the entry.
    pub fn name(self) -> (name: &'static str)
        ensures
            name@ == export_name(self),
    {
        match self {
            Export::GetVersion => "get-graphviz-version",
            Export::GetPluginList => "get-plugin-list",
            Export::CreateContext => "create-context",
            Export::CreateGraph => "create-graph",
            Export::AddNode => "add-node",
            Export::AddEdge => "add-edge",
            Export::SetDefaultNodeAttribute => "set-default-node-attribute",
            Export::SetNodeAttribute => "set-node-attribute",
            Export::Layout => "layout",
            Export::Render => "render",
            Export::RenderDot => "render-dot",
            Export::FreeLayout => "free-layout",
        }
    }
}

/// What kind of value an operation answers with.
#[derive(Clone, Copy, Debug, PartialEq, Eq, Structural)]
pub enum Shape {
    /// Nothing but that it went well.
    Unit,
    /// A handle.
    Number,
    /// A text, which may be empty.
    Text,
    /// A text that holds at least one character.
    FilledText,
    /// A sequence of texts, in the guest's order.
    TextList,
}

/// The kind of value that an entry of the export table answers with.
pub open spec fn export_shape(export: Export) -> Shape {
    match export {
        Export::GetVersion => Shape::FilledText,
        Export::GetPluginList => Shape::TextList,
        Export::CreateContext => Shape::Number,
        Export::CreateGraph => Shape::Number,
        Export::AddNode => Shape::Number,
        Export::AddEdge => Shape::Number,
        Export::SetDefaultNodeAttribute => Shape::Unit,
        Export::SetNodeAttribute => Shape::Unit,
        Export::Layout => Shape::Unit,
        Export::Render => Shape::Text,
        Export::RenderDot => Shape::Text,
        Export::FreeLayout => Shape::Unit,
    }
}

/// One call of an exported operation, with its arguments.
#[derive(Clone, Copy, Debug)]
pub enum Request<'a> {
    GetVersion,
    GetPluginList { kind: &'a str },
    CreateContext,
    CreateGraph { name: &'a str, strict: bool, directed: bool },
    AddNode { graph: GraphHandle, name: &'a str },
    AddEdge { graph: GraphHandle, tail: &'a str, head: &'a str },
    SetDefaultNodeAttribute { graph: GraphHandle, key: &'a str, value: &'a AttributeValue },
    SetNodeAttribute { graph: GraphHandle, node: &'a str, key: &'a str, value: &'a AttributeValue },
    Layout { ctx: ContextHandle, graph: GraphHandle, engine: &'a str },
    Render { ctx: ContextHandle, graph: GraphHandle, format: &'a str },
    RenderDot { ctx: ContextHandle, source: &'a str, engine: &'a str, format: &'a str },
    FreeLayout { ctx: ContextHandle, graph: GraphHandle },
}

impl<'a> Request<'a> {
    /// The entry of the export table that serves the request.
    pub open spec fn export_of(self) -> Export {
        match self {
            Request::GetVersion => Export::GetVersion,
            Request::GetPluginList { .. } => Export::GetPluginList,
            Request::CreateContext => Export::CreateContext,
            Request::CreateGraph { .. } => Export::CreateGraph,
            Request::AddNode { .. } => Export::AddNode,
            Request::AddEdge { .. } => Export::AddEdge,
            Request::SetDefaultNodeAttribute { .. } => Export::SetDefaultNodeAttribute,
            Request::SetNodeAttribute { .. } => Export::SetNodeAttribute,
            Request::Layout { .. } => Export::Layout,
            Request::Render { .. } => Export::Render,
            Request::RenderDot { .. } => Export::RenderDot,
            Request::FreeLayout { .. } => Export::FreeLayout,
        }
    }

    /// The request changes the graph: it adds a node or an edge to it, or
    /// sets an attribute in it.
    pub open spec fn changes_graph(self, graph: GraphHandle) -> bool {
        match self {
            Request::AddNode { graph: g, .. } => g == graph,
            Request::AddEdge { graph: g, .. } => g == graph,
            Request::SetDefaultNodeAttribute { graph: g, .. } => g == graph,
            Request::SetNodeAttribute { graph: g, .. } => g == graph,
            _ => false,
        }
    }

    /// The request names the pair: it asks for a layout of it, a rendering
    /// of it, or the release of its layout.
    pub open spec fn names_pair(self, ctx: ContextHandle, graph: GraphHandle) -> bool {
        match self {
            Request::Layout { ctx: c, graph: g, .. } => c == ctx && g == graph,
            Request::Render { ctx: c, graph: g, .. } => c == ctx && g == graph,
            Request::FreeLayout { ctx: c, graph: g } => c == ctx && g == graph,
            _ => false,
        }
    }

    /// The kind of value that answers the request.
    pub open spec fn shape_of(self) -> Shape {
        export_shape(self.export_of())
    }

    /// The arguments on the wire, in the order in which the guest takes them:
    /// a text as a text, a flag as a flag, a handle as its number, an
    /// attribute value as a variant whose case is the tag.
    pub open spec fn wires(self) -> Seq<Wire> {
        match self {
            Request::GetVersion => seq![],
            Request::GetPluginList { kind } => seq![Wire::Text(kind@)],
            Request::CreateContext => seq![],
            Request::CreateGraph { name, strict, directed } => seq![
                Wire::Text(name@),
                Wire::Flag(strict),
                Wire::Flag(directed),
            ],
            Request::AddNode { graph, name } => seq![Wire::Number(graph.raw), Wire::Text(name@)],
            Request::AddEdge { graph, tail, head } => seq![
                Wire::Number(graph.raw),
                Wire::Text(tail@),
                Wire::Text(head@),
            ],
            Request::SetDefaultNodeAttribute { graph, key, value } => seq![
                Wire::Number(graph.raw),
                Wire::Text(key@),
                attribute_wire(value.deep_view()),
            ],
            Request::SetNodeAttribute { graph, node, key, value } => seq![
                Wire::Number(graph.raw),
                Wire::Text(node@),
                Wire::Text(key@),
                attribute_wire(value.deep_view()),
            ],
            Request::Layout { ctx, graph, engine } => seq![
                Wire::Number(ctx.raw),
                Wire::Number(graph.raw),
                Wire::Text(engine@),
            ],
            Request::Render { ctx, graph, format } => seq![
                Wire::Number(ctx.raw),
                Wire::Number(graph.raw),
                Wire::Text(format@),
            ],
            Request::RenderDot { ctx, source, engine, format } => seq![
                Wire::Number(ctx.raw),
                Wire::Text(source@),
                Wire::Text(engine@),
                Wire::Text(format@),
            ],
            Request::FreeLayout { ctx, graph } => seq![Wire::Number(ctx.raw), Wire::Number(graph.raw)],
        }
    }

    /// Every argument of a request can be sent.
    pub proof fn wires_are_sendable(self)
        ensures
            forall|i: int| 0 <= i < self.wires().len() ==> sendable(#[trigger] self.wires()[i]),
    {
        match self {
            Request::SetDefaultNodeAttribute { value, .. } => {
                attribute_wire_is_sendable(value.deep_view());
            },
            Request::SetNodeAttribute { value, .. } => {
                attribute_wire_is_sendable(value.deep_view());
            },
            _ => {},
        }
    }

    /// The entry of the export table that serves the request.
    pub fn export(&self) -> (export: Export)
        ensures
            export == self.export_of(),
    {
        match self {
            Request::GetVersion => Export::GetVersion,
            Request::GetPluginList { .. } => Export::GetPluginList,
            Request::CreateContext => Export::CreateContext,
            Request::CreateGraph { .. } => Export::CreateGraph,
            Request::AddNode { .. } => Export::AddNode,
            Request::AddEdge { .. } => Export::AddEdge,
            Request::SetDefaultNodeAttribute { .. } => Export::SetDefaultNodeAttribute,
            Request::SetNodeAttribute { .. } => Export::SetNodeAttribute,
            Request::Layout { .. } => Export::Layout,
            Request::Render { .. } => Export::Render,
            Request::RenderDot { .. } => Export::RenderDot,
            Request::FreeLayout { .. } => Export::FreeLayout,
        }
    }

    /// The kind of value that answers the request.
    pub fn shape(&self) -> (shape: Shape)
        ensures
            shape == self.shape_of(),
    {
        self.export().shape()
    }

    /// Puts the arguments of the request into their wire form.
    pub fn encode(&self) -> (args: Vec<WireValue>)
        ensures
            args.deep_view() == self.wires(),
    {
        let mut args: Vec<WireValue> = Vec::new();
        match self {
            Request::GetVersion => {},
            Request::GetPluginList { kind } => {
                args.push(WireValue::text(kind));
            },
            Request::CreateContext => {},
            Request::CreateGraph { name, strict, directed } => {
                args.push(WireValue::text(name));
                args.push(WireValue::flag(*strict));
                args.push(WireValue::flag(*directed));
            },
            Request::AddNode { graph, name } => {
                args.push(WireValue::number(graph.raw));
                args.push(WireValue::text(name));
            },
            Request::AddEdge { graph, tail, head } => {
                args.push(WireValue::number(graph.raw));
                args.push(WireValue::text(tail));
                args.push(WireValue::text(head));
            },
            Request::SetDefaultNodeAttribute { graph, key, value } => {
                args.push(WireValue::number(graph.raw));
                args.push(WireValue::text(key));
                args.push(value.encode());
            },
            Request::SetNodeAttribute { graph, node, key, value } => {
                args.push(WireValue::number(graph.raw));
                args.push(WireValue::text(node));
                args.push(WireValue::text(key));
                args.push(value.encode());
            },
            Request::Layout { ctx, graph, engine } => {
                args.push(WireValue::number(ctx.raw));
                args.push(WireValue::number(graph.raw));
                args.push(WireValue::text(engine));
            },
            Request::Render { ctx, graph, format } => {
                args.push(WireValue::number(ctx.raw));
                args.push(WireValue::number(graph.raw));
                args.push(WireValue::text(format));
            },
            Request::RenderDot { ctx, source, engine, format } => {
                args.push(WireValue::number(ctx.raw));
                args.push(WireValue::text(source));
                args.push(WireValue::text(engine));
                args.push(WireValue::text(format));
            },
            Request::FreeLayout { ctx, graph } => {
                args.push(WireValue::number(ctx.raw));
                args.push(WireValue::number(graph.raw));
            },
        }
        assert(args.deep_view() =~= self.wires());
        args
    }
}

} // verus!
