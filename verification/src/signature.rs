//! The types of the guest's exported functions, and whether they are the
//! types that the bridge calls them with.

use crate::error::{ErrorKind, ErrorModel, GraphvizmError};
use crate::request::{export_name, export_shape, Export, Request, Shape};
use crate::wire::{tag_case, AttributeTag, Wire};
use vstd::prelude::*;
use vstd::string::StringExecFns;

verus! {

/// The type of a value on the wire, as far as the bridge tells types apart.
#[derive(Debug, PartialEq, Eq)]
pub enum WireType {
    Flag,
    Number,
    Text,
    List(Box<WireType>),
    Variant(Vec<(String, Option<Box<WireType>>)>),
    Outcome(Option<Box<WireType>>, Option<Box<WireType>>),
    Unsupported,
}

/// The mathematical model of a [`WireType`].
pub enum TypeModel {
    Flag,
    Number,
    Text,
    List(Box<TypeModel>),
    Variant(Seq<(Seq<char>, Option<Box<TypeModel>>)>),
    Outcome(Option<Box<TypeModel>>, Option<Box<TypeModel>>),
    Unsupported,
}

pub open spec fn inner_model(inner: Option<Box<WireType>>) -> Option<Box<TypeModel>>
    decreases inner,
{
    match inner {
        Some(ty) => Some(Box::new(type_model(*ty))),
        None => None,
    }
}

pub open spec fn type_model(ty: WireType) -> TypeModel
    decreases ty,
{
    match ty {
        WireType::Flag => TypeModel::Flag,
        WireType::Number => TypeModel::Number,
        WireType::Text => TypeModel::Text,
        WireType::List(item) => TypeModel::List(Box::new(type_model(*item))),
        WireType::Variant(cases) => TypeModel::Variant(
            Seq::new(
                cases@.len(),
                |i: int|
                    if 0 <= i < cases@.len() {
                        (cases@[i].0@, inner_model(cases@[i].1))
                    } else {
                        (Seq::empty(), None)
                    },
            ),
        ),
        WireType::Outcome(ok, err) => TypeModel::Outcome(inner_model(ok), inner_model(err)),
        WireType::Unsupported => TypeModel::Unsupported,
    }
}

impl DeepView for WireType {
    type V = TypeModel;

    open spec fn deep_view(&self) -> TypeModel {
        type_model(*self)
    }
}

/// What the bridge hands to the guest as an argument.
#[derive(Clone, Copy, Debug, PartialEq, Eq, Structural)]
pub enum ParamKind {
    /// A name, a key, a source text: a string.
    Text,
    /// A switch: a boolean.
    Flag,
    /// A handle: an unsigned number of 32 bits.
    Handle,
    /// An attribute value: a variant with a case for plain text and a case
    /// for markup, each with a string.
    Attribute,
}

/// The type of an attribute value: a variant whose cases are the two tags,
/// in their order, each with a text.
pub open spec fn attribute_type() -> TypeModel {
    TypeModel::Variant(
        seq![
            (tag_case(AttributeTag::Plain), Some(Box::new(TypeModel::Text))),
            (tag_case(AttributeTag::Html), Some(Box::new(TypeModel::Text))),
        ],
    )
}

/// The type that the guest must take for an argument of a kind.
pub open spec fn kind_type(kind: ParamKind) -> TypeModel {
    match kind {
        ParamKind::Text => TypeModel::Text,
        ParamKind::Flag => TypeModel::Flag,
        ParamKind::Handle => TypeModel::Number,
        ParamKind::Attribute => attribute_type(),
    }
}

/// The kinds of the arguments of an entry of the export table, in their
/// order.
pub open spec fn kinds_of(export: Export) -> Seq<ParamKind> {
    match export {
        Export::GetVersion => seq![],
        Export::GetPluginList => seq![ParamKind::Text],
        Export::CreateContext => seq![],
        Export::CreateGraph => seq![ParamKind::Text, ParamKind::Flag, ParamKind::Flag],
        Export::AddNode => seq![ParamKind::Handle, ParamKind::Text],
        Export::AddEdge => seq![ParamKind::Handle, ParamKind::Text, ParamKind::Text],
        Export::SetDefaultNodeAttribute => seq![
            ParamKind::Handle,
            ParamKind::Text,
            ParamKind::Attribute,
        ],
        Export::SetNodeAttribute => seq![
            ParamKind::Handle,
            ParamKind::Text,
            ParamKind::Text,
            ParamKind::Attribute,
        ],
        Export::Layout => seq![ParamKind::Handle, ParamKind::Handle, ParamKind::Text],
        Export::Render => seq![ParamKind::Handle, ParamKind::Handle, ParamKind::Text],
        Export::RenderDot => seq![
            ParamKind::Handle,
            ParamKind::Text,
            ParamKind::Text,
            ParamKind::Text,
        ],
        Export::FreeLayout => seq![ParamKind::Handle, ParamKind::Handle],
    }
}

/// The parameters fit the entry: there is one for each argument, of the type
/// that the argument's kind asks for.
pub open spec fn params_fit(export: Export, params: Seq<TypeModel>) -> bool {
    &&& params.len() == kinds_of(export).len()
    &&& forall|i: int|
        0 <= i < params.len() ==> #[trigger] params[i] == kind_type(kinds_of(export)[i])
}

/// The type of a value of a shape where it comes bare; a `Unit` has none.
pub open spec fn bare_type(shape: Shape) -> Option<Box<TypeModel>> {
    match shape {
        Shape::Unit => None,
        Shape::Number => Some(Box::new(TypeModel::Number)),
        Shape::Text => Some(Box::new(TypeModel::Text)),
        Shape::FilledText => Some(Box::new(TypeModel::Text)),
        Shape::TextList => Some(Box::new(TypeModel::List(Box::new(TypeModel::Text)))),
    }
}

/// The type of an outcome of a shape: the bare type where it went well, a
/// text that says why where it did not.
pub open spec fn outcome_type(shape: Shape) -> TypeModel {
    TypeModel::Outcome(bare_type(shape), Some(Box::new(TypeModel::Text)))
}

/// The results fit the shape: the function returns the bare value (nothing
/// for a `Unit`), or an outcome of it.
pub open spec fn results_fit(shape: Shape, results: Seq<TypeModel>) -> bool {
    if results.len() == 0 {
        shape == Shape::Unit
    } else {
        &&& results.len() == 1
        &&& (Some(Box::new(results[0])) == bare_type(shape) || results[0] == outcome_type(shape))
    }
}

/// The function's type is the one that the bridge calls the entry with.
pub open spec fn signature_fits(export: Export, params: Seq<TypeModel>, results: Seq<TypeModel>) -> bool {
    params_fit(export, params) && results_fit(export_shape(export), results)
}

impl ParamKind {
    /// The kinds of the arguments of an entry of the export table, in their
    /// order.
    pub fn of(export: Export) -> (kinds: Vec<ParamKind>)
        ensures
            kinds@ == kinds_of(export),
    {
        let mut kinds: Vec<ParamKind> = Vec::new();
        match export {
            Export::GetVersion => {},
            Export::GetPluginList => {
                kinds.push(ParamKind::Text);
            },
            Export::CreateContext => {},
            Export::CreateGraph => {
                kinds.push(ParamKind::Text);
                kinds.push(ParamKind::Flag);
                kinds.push(ParamKind::Flag);
            },
            Export::AddNode => {
                kinds.push(ParamKind::Handle);
                kinds.push(ParamKind::Text);
            },
            Export::AddEdge => {
                kinds.push(ParamKind::Handle);
                kinds.push(ParamKind::Text);
                kinds.push(ParamKind::Text);
            },
            Export::SetDefaultNodeAttribute => {
                kinds.push(ParamKind::Handle);
                kinds.push(ParamKind::Text);
                kinds.push(ParamKind::Attribute);
            },
            Export::SetNodeAttribute => {
                kinds.push(ParamKind::Handle);
                kinds.push(ParamKind::Text);
                kinds.push(ParamKind::Text);
                kinds.push(ParamKind::Attribute);
            },
            Export::Layout => {
                kinds.push(ParamKind::Handle);
                kinds.push(ParamKind::Handle);
                kinds.push(ParamKind::Text);
            },
            Export::Render => {
                kinds.push(ParamKind::Handle);
                kinds.push(ParamKind::Handle);
                kinds.push(ParamKind::Text);
            },
            Export::RenderDot => {
                kinds.push(ParamKind::Handle);
                kinds.push(ParamKind::Text);
                kinds.push(ParamKind::Text);
                kinds.push(ParamKind::Text);
            },
            Export::FreeLayout => {
                kinds.push(ParamKind::Handle);
                kinds.push(ParamKind::Handle);
            },
        }
        assert(kinds@ =~= kinds_of(export));
        kinds
    }
}

/// Whether an optional inner type is there and is a text.
fn is_some_text(inner: &Option<Box<WireType>>) -> (yes: bool)
    ensures
        yes == (inner_model(*inner) == Some(Box::new(TypeModel::Text))),
{
    match inner {
        Some(ty) => match &**ty {
            WireType::Text => true,
            _ => false,
        },
        None => false,
    }
}

/// Whether a case of a variant has the name of a tag and holds a text.
fn is_tag_case(case: &(String, Option<Box<WireType>>), tag: AttributeTag) -> (yes: bool)
    ensures
        yes == (case.0@ == tag_case(tag) && inner_model(case.1) == Some(
            Box::new(TypeModel::Text),
        )),
{
    let name = match tag {
        AttributeTag::Plain => "plain".to_owned(),
        AttributeTag::Html => "html".to_owned(),
    };
    case.0 == name && is_some_text(&case.1)
}

impl WireType {
    /// Whether this is the type of an attribute value.
    pub fn is_attribute(&self) -> (yes: bool)
        ensures
            yes == (self.deep_view() == attribute_type()),
    {
        match self {
            WireType::Variant(cases) => {
                if cases.len() != 2 {
                    assert(self.deep_view()->Variant_0.len() != attribute_type()->Variant_0.len());
                    return false;
                }
                let yes = is_tag_case(&cases[0], AttributeTag::Plain) && is_tag_case(
                    &cases[1],
                    AttributeTag::Html,
                );
                proof {
                    let have = self.deep_view()->Variant_0;
                    let want = attribute_type()->Variant_0;
                    assert(have[0] == (cases@[0].0@, inner_model(cases@[0].1)));
                    assert(have[1] == (cases@[1].0@, inner_model(cases@[1].1)));
                    if yes {
                        assert(have =~= want);
                    } else {
                        assert(have[0] != want[0] || have[1] != want[1]);
                    }
                }
                yes
            },
            _ => false,
        }
    }

    /// Whether this is the type that the guest must take for an argument of
    /// the kind.
    pub fn is_kind(&self, kind: ParamKind) -> (yes: bool)
        ensures
            yes == (self.deep_view() == kind_type(kind)),
    {
        match kind {
            ParamKind::Text => match self {
                WireType::Text => true,
                _ => false,
            },
            ParamKind::Flag => match self {
                WireType::Flag => true,
                _ => false,
            },
            ParamKind::Handle => match self {
                WireType::Number => true,
                _ => false,
            },
            ParamKind::Attribute => self.is_attribute(),
        }
    }

    /// Whether this is the type of a bare value of the shape.
    pub fn is_bare(&self, shape: Shape) -> (yes: bool)
        ensures
            yes == (Some(Box::new(self.deep_view())) == bare_type(shape)),
    {
        proof {
            reveal_with_fuel(type_model, 2);
        }
        match shape {
            Shape::Unit => false,
            Shape::Number => match self {
                WireType::Number => true,
                _ => false,
            },
            Shape::Text => match self {
                WireType::Text => true,
                _ => false,
            },
            Shape::FilledText => match self {
                WireType::Text => true,
                _ => false,
            },
            Shape::TextList => match self {
                WireType::List(item) => match &**item {
                    WireType::Text => true,
                    _ => false,
                },
                _ => false,
            },
        }
    }

    /// Whether this is the type of an outcome of the shape.
    pub fn is_outcome(&self, shape: Shape) -> (yes: bool)
        ensures
            yes == (self.deep_view() == outcome_type(shape)),
    {
        match self {
            WireType::Outcome(ok, err) => {
                let ok_fits = match ok {
                    Some(inner) => inner.is_bare(shape),
                    None => match shape {
                        Shape::Unit => true,
                        _ => false,
                    },
                };
                assert(ok_fits == (inner_model(*ok) == bare_type(shape)));
                ok_fits && is_some_text(err)
            },
            _ => false,
        }
    }
}

/// Whether the parameters fit the entry.
pub fn check_params(export: Export, params: &Vec<WireType>) -> (ok: bool)
    ensures
        ok == params_fit(export, params.deep_view()),
{
    let kinds = ParamKind::of(export);
    if params.len() != kinds.len() {
        return false;
    }
    let mut i: usize = 0;
    while i < params.len()
        invariant
            i <= params.len(),
            params.len() == kinds.len(),
            kinds@ == kinds_of(export),
            forall|j: int|
                0 <= j < i ==> #[trigger] params.deep_view()[j] == kind_type(kinds_of(export)[j]),
        decreases params.len() - i,
    {
        assert(params.deep_view()[i as int] == params@[i as int].deep_view());
        if !params[i].is_kind(kinds[i]) {
            return false;
        }
        i += 1;
    }
    true
}

/// Whether the results fit the shape.
pub fn check_results(shape: Shape, results: &Vec<WireType>) -> (ok: bool)
    ensures
        ok == results_fit(shape, results.deep_view()),
{
    if results.len() == 0 {
        match shape {
            Shape::Unit => true,
            _ => false,
        }
    } else if results.len() == 1 {
        assert(results.deep_view()[0] == results@[0].deep_view());
        results[0].is_bare(shape) || results[0].is_outcome(shape)
    } else {
        false
    }
}

/// Whether a function with these parameters and results can serve the entry
/// of the export table.
pub fn check_signature(export: Export, params: &Vec<WireType>, results: &Vec<WireType>) -> (ok:
    bool)
    ensures
        ok == signature_fits(export, params.deep_view(), results.deep_view()),
{
    check_params(export, params) && check_results(export.shape(), results)
}

/// The failure for an entry that the guest exports with another type than
/// the bridge calls it with: a `Link` failure that names the entry.
pub open spec fn mistyped_export(export: Export) -> ErrorModel {
    ErrorModel { kind: ErrorKind::Link, detail: export_name(export) + ": type mismatch"@ }
}

/// The failure for an entry that the guest exports with another type than
/// the bridge calls it with.
pub fn mistyped(export: Export) -> (failure: GraphvizmError)
    ensures
        failure.deep_view() == mistyped_export(export),
{
    GraphvizmError::Link(export.name().to_owned().concat(": type mismatch"))
}

/// Admits a function of the guest to an entry of the export table where its
/// type is the one that the bridge calls the entry with, and then says how
/// many values a call of it returns; else refuses it with a `Link` failure
/// that names the entry.
pub fn admit_export(export: Export, params: &Vec<WireType>, results: &Vec<WireType>) -> (r: Result<
    usize,
    GraphvizmError,
>)
    ensures
        match r {
            Ok(arity) => signature_fits(export, params.deep_view(), results.deep_view())
                && arity == results.len(),
            Err(failure) => !signature_fits(export, params.deep_view(), results.deep_view())
                && failure.deep_view() == mistyped_export(export),
        },
{
    if check_signature(export, params, results) {
        Ok(results.len())
    } else {
        Err(mistyped(export))
    }
}

/// A function that fits an entry returns at most one value, and one that
/// returns none serves an entry that answers with nothing.
pub proof fn fitting_results_are_few(export: Export, params: Seq<TypeModel>, results: Seq<TypeModel>)
    requires
        signature_fits(export, params, results),
    ensures
        results.len() <= 1,
        results.len() == 0 ==> export_shape(export) == Shape::Unit,
{
}

/// A value on the wire is of a type.
pub open spec fn has_type(value: Wire, ty: TypeModel) -> bool {
    match value {
        Wire::Flag(_) => ty == TypeModel::Flag,
        Wire::Number(_) => ty == TypeModel::Number,
        Wire::Text(_) => ty == TypeModel::Text,
        Wire::Variant(case, Some(payload)) => {
            &&& *payload is Text
            &&& ty matches TypeModel::Variant(cases)
            &&& exists|i: int|
                0 <= i < cases.len() && #[trigger] cases[i] == (
                    case,
                    Some(Box::new(TypeModel::Text)),
                )
        },
        _ => false,
    }
}

/// What a request sends is what the signature of its entry asks for: one
/// value for each parameter, of the parameter's type.
pub proof fn request_is_well_typed(request: Request, params: Seq<TypeModel>)
    requires
        params_fit(request.export_of(), params),
    ensures
        request.wires().len() == params.len(),
        forall|i: int| 0 <= i < params.len() ==> has_type(#[trigger] request.wires()[i], params[i]),
{
    let kinds = kinds_of(request.export_of());
    assert forall|i: int| 0 <= i < params.len() implies has_type(
        #[trigger] request.wires()[i],
        params[i],
    ) by {
        assert(params[i] == kind_type(kinds[i]));
        if kinds[i] == ParamKind::Attribute {
            let cases = attribute_type()->Variant_0;
            assert(cases[0] == (tag_case(AttributeTag::Plain), Some(Box::new(TypeModel::Text))));
            assert(cases[1] == (tag_case(AttributeTag::Html), Some(Box::new(TypeModel::Text))));
        }
    }
}

} // verus!
