//! Requests on their way to the guest and replies on their way back.

use graphvizm::error::GraphvizmError;
use graphvizm::handles::{ContextHandle, GraphHandle};
use graphvizm::reply::{decode, Answer, GuestReply};
use graphvizm::request::{interface_name, Export, Request, Shape, EXPORT_COUNT};
use graphvizm::wire::{AttributeTag, AttributeValue, WireValue};

fn text(value: &str) -> WireValue {
    WireValue::Text(value.to_string())
}

fn tagged(case: &str, payload: &str) -> WireValue {
    WireValue::Variant(case.to_string(), Some(Box::new(text(payload))))
}

fn malformed<T>() -> Result<T, GraphvizmError> {
    Err(GraphvizmError::Trap("malformed reply".to_string()))
}

#[test]
fn attribute_value_keeps_tag_and_text() {
    let plain = AttributeValue::Plain("x".to_string());
    let html = AttributeValue::Html("x".to_string());
    assert_eq!(plain.tag(), AttributeTag::Plain);
    assert_eq!(html.tag(), AttributeTag::Html);
    assert_eq!(plain.payload(), "x");
    assert_eq!(html.payload(), "x");
    assert_ne!(plain, html);
}

#[test]
fn attribute_value_goes_over_as_a_variant() {
    assert_eq!(AttributeValue::Plain("red".to_string()).encode(), tagged("plain", "red"));
    assert_eq!(AttributeValue::Html("<b>A</b>".to_string()).encode(), tagged("html", "<b>A</b>"));
    assert_eq!(AttributeValue::Plain(String::new()).encode(), tagged("plain", ""));
}

#[test]
fn equal_text_with_different_tags_differs_on_the_wire() {
    let plain = AttributeValue::Plain("<b>A</b>".to_string()).encode();
    let html = AttributeValue::Html("<b>A</b>".to_string()).encode();
    assert_ne!(plain, html);
}

#[test]
fn wire_constructors_build_what_they_say() {
    assert_eq!(WireValue::flag(true), WireValue::Flag(true));
    assert_eq!(WireValue::number(7), WireValue::Number(7));
    assert_eq!(WireValue::text("dot"), text("dot"));
    assert_eq!(WireValue::variant("html", WireValue::text("x")), tagged("html", "x"));
}

#[test]
fn export_table_is_fixed() {
    assert_eq!(EXPORT_COUNT, 12);
    assert_eq!(interface_name(), "viz:component/viz-api");
    let names = [
        "get-graphviz-version",
        "get-plugin-list",
        "create-context",
        "create-graph",
        "add-node",
        "add-edge",
        "set-default-node-attribute",
        "set-node-attribute",
        "layout",
        "render",
        "render-dot",
        "free-layout",
    ];
    for (slot, name) in names.iter().enumerate() {
        let export = Export::at(slot).unwrap();
        assert_eq!(export.slot(), slot);
        assert_eq!(export.name(), *name);
    }
    assert_eq!(Export::at(12), None);
    assert_eq!(Export::at(usize::MAX), None);
}

#[test]
fn requests_without_arguments_send_nothing() {
    assert_eq!(Request::GetVersion.encode(), vec![]);
    assert_eq!(Request::CreateContext.encode(), vec![]);
    assert_eq!(Request::GetVersion.export(), Export::GetVersion);
    assert_eq!(Request::CreateContext.export(), Export::CreateContext);
    assert_eq!(Request::GetVersion.shape(), Shape::FilledText);
    assert_eq!(Request::CreateContext.shape(), Shape::Number);
}

#[test]
fn requests_send_their_arguments_in_order() {
    let ctx = ContextHandle { raw: 3 };
    let graph = GraphHandle { raw: 8 };
    assert_eq!(Request::GetPluginList { kind: "layout" }.encode(), vec![text("layout")]);
    assert_eq!(
        Request::CreateGraph { name: "g", strict: true, directed: false }.encode(),
        vec![text("g"), WireValue::Flag(true), WireValue::Flag(false)]
    );
    assert_eq!(
        Request::AddNode { graph, name: "a" }.encode(),
        vec![WireValue::Number(8), text("a")]
    );
    assert_eq!(
        Request::AddEdge { graph, tail: "a", head: "b" }.encode(),
        vec![WireValue::Number(8), text("a"), text("b")]
    );
    assert_eq!(
        Request::Layout { ctx, graph, engine: "dot" }.encode(),
        vec![WireValue::Number(3), WireValue::Number(8), text("dot")]
    );
    assert_eq!(
        Request::Render { ctx, graph, format: "svg" }.encode(),
        vec![WireValue::Number(3), WireValue::Number(8), text("svg")]
    );
    assert_eq!(
        Request::RenderDot { ctx, source: "graph {}", engine: "dot", format: "svg" }.encode(),
        vec![WireValue::Number(3), text("graph {}"), text("dot"), text("svg")]
    );
    assert_eq!(
        Request::FreeLayout { ctx, graph }.encode(),
        vec![WireValue::Number(3), WireValue::Number(8)]
    );
}

#[test]
fn attribute_requests_send_the_tag() {
    let graph = GraphHandle { raw: 8 };
    let html = AttributeValue::Html("<b>A</b>".to_string());
    let plain = AttributeValue::Plain("<b>A</b>".to_string());
    assert_eq!(
        Request::SetDefaultNodeAttribute { graph, key: "label", value: &plain }.encode(),
        vec![WireValue::Number(8), text("label"), tagged("plain", "<b>A</b>")]
    );
    assert_eq!(
        Request::SetNodeAttribute { graph, node: "a", key: "label", value: &html }.encode(),
        vec![WireValue::Number(8), text("a"), text("label"), tagged("html", "<b>A</b>")]
    );
    assert_ne!(
        Request::SetNodeAttribute { graph, node: "a", key: "label", value: &html }.encode(),
        Request::SetNodeAttribute { graph, node: "a", key: "label", value: &plain }.encode()
    );
}

#[test]
fn each_request_has_its_export_and_shape() {
    let ctx = ContextHandle { raw: 3 };
    let graph = GraphHandle { raw: 8 };
    let value = AttributeValue::Plain("red".to_string());
    let cases = [
        (Request::GetPluginList { kind: "k" }, Export::GetPluginList, Shape::TextList),
        (
            Request::CreateGraph { name: "g", strict: false, directed: false },
            Export::CreateGraph,
            Shape::Number,
        ),
        (Request::AddNode { graph, name: "a" }, Export::AddNode, Shape::Number),
        (Request::AddEdge { graph, tail: "a", head: "b" }, Export::AddEdge, Shape::Number),
        (
            Request::SetDefaultNodeAttribute { graph, key: "k", value: &value },
            Export::SetDefaultNodeAttribute,
            Shape::Unit,
        ),
        (
            Request::SetNodeAttribute { graph, node: "a", key: "k", value: &value },
            Export::SetNodeAttribute,
            Shape::Unit,
        ),
        (Request::Layout { ctx, graph, engine: "dot" }, Export::Layout, Shape::Unit),
        (Request::Render { ctx, graph, format: "svg" }, Export::Render, Shape::Text),
        (
            Request::RenderDot { ctx, source: "s", engine: "dot", format: "svg" },
            Export::RenderDot,
            Shape::Text,
        ),
        (Request::FreeLayout { ctx, graph }, Export::FreeLayout, Shape::Unit),
    ];
    for (request, export, shape) in cases.iter() {
        assert_eq!(request.export(), *export);
        assert_eq!(request.shape(), *shape);
    }
}

#[test]
fn fault_decodes_to_a_trap_with_its_text() {
    let reply = GuestReply::Fault("wasm trap: unreachable".to_string());
    for shape in [Shape::Unit, Shape::Number, Shape::Text, Shape::FilledText, Shape::TextList] {
        assert_eq!(
            decode(shape, &reply),
            Err(GraphvizmError::Trap("wasm trap: unreachable".to_string()))
        );
    }
}

#[test]
fn nothing_decodes_to_unit_only() {
    assert_eq!(decode(Shape::Unit, &GuestReply::Nothing), Ok(Answer::Unit));
    assert_eq!(decode(Shape::Number, &GuestReply::Nothing), malformed());
    assert_eq!(decode(Shape::Text, &GuestReply::Nothing), malformed());
    assert_eq!(decode(Shape::FilledText, &GuestReply::Nothing), malformed());
    assert_eq!(decode(Shape::TextList, &GuestReply::Nothing), malformed());
}

#[test]
fn bare_values_decode_by_shape() {
    assert_eq!(
        decode(Shape::Number, &GuestReply::Value(WireValue::Number(5))),
        Ok(Answer::Number(5))
    );
    assert_eq!(
        decode(Shape::Text, &GuestReply::Value(text("<svg/>"))),
        Ok(Answer::Text("<svg/>".to_string()))
    );
    assert_eq!(decode(Shape::Text, &GuestReply::Value(text(""))), Ok(Answer::Text(String::new())));
    assert_eq!(
        decode(Shape::FilledText, &GuestReply::Value(text("2.50.0"))),
        Ok(Answer::Text("2.50.0".to_string()))
    );
    assert_eq!(
        decode(Shape::TextList, &GuestReply::Value(WireValue::List(vec![text("dot"), text("neato")]))),
        Ok(Answer::TextList(vec!["dot".to_string(), "neato".to_string()]))
    );
    assert_eq!(
        decode(Shape::TextList, &GuestReply::Value(WireValue::List(vec![]))),
        Ok(Answer::TextList(vec![]))
    );
}

#[test]
fn empty_version_is_malformed() {
    assert_eq!(decode(Shape::FilledText, &GuestReply::Value(text(""))), malformed());
    assert_eq!(
        decode(Shape::FilledText, &GuestReply::Value(WireValue::Success(Some(Box::new(text("")))))),
        malformed()
    );
}

#[test]
fn values_of_the_wrong_shape_are_malformed() {
    assert_eq!(decode(Shape::Number, &GuestReply::Value(text("5"))), malformed());
    assert_eq!(decode(Shape::Text, &GuestReply::Value(WireValue::Number(5))), malformed());
    assert_eq!(decode(Shape::Unit, &GuestReply::Value(WireValue::Number(5))), malformed());
    assert_eq!(decode(Shape::Unit, &GuestReply::Value(text("x"))), malformed());
    assert_eq!(decode(Shape::TextList, &GuestReply::Value(text("dot"))), malformed());
    assert_eq!(decode(Shape::Number, &GuestReply::Value(WireValue::Flag(true))), malformed());
    assert_eq!(decode(Shape::Text, &GuestReply::Value(WireValue::Unsupported)), malformed());
    assert_eq!(decode(Shape::Text, &GuestReply::Value(tagged("plain", "x"))), malformed());
    assert_eq!(
        decode(Shape::TextList, &GuestReply::Value(WireValue::List(vec![text("dot"), WireValue::Number(1)]))),
        malformed()
    );
    assert_eq!(
        decode(Shape::Text, &GuestReply::Value(WireValue::List(vec![text("dot")]))),
        malformed()
    );
}

#[test]
fn successful_outcomes_decode_like_their_payload() {
    let ok = |value: WireValue| GuestReply::Value(WireValue::Success(Some(Box::new(value))));
    assert_eq!(decode(Shape::Unit, &GuestReply::Value(WireValue::Success(None))), Ok(Answer::Unit));
    assert_eq!(decode(Shape::Number, &ok(WireValue::Number(9))), Ok(Answer::Number(9)));
    assert_eq!(decode(Shape::Text, &ok(text("<svg/>"))), Ok(Answer::Text("<svg/>".to_string())));
    assert_eq!(
        decode(Shape::TextList, &ok(WireValue::List(vec![text("dot")]))),
        Ok(Answer::TextList(vec!["dot".to_string()]))
    );
    assert_eq!(decode(Shape::Text, &GuestReply::Value(WireValue::Success(None))), malformed());
    assert_eq!(decode(Shape::Unit, &ok(WireValue::Number(9))), malformed());
    assert_eq!(decode(Shape::Number, &ok(text("9"))), malformed());
    // An outcome within an outcome is no value.
    assert_eq!(
        decode(Shape::Number, &ok(WireValue::Success(Some(Box::new(WireValue::Number(9)))))),
        malformed()
    );
}

#[test]
fn failed_outcomes_decode_to_domain_errors() {
    let failed = |value: WireValue| GuestReply::Value(WireValue::Failure(Some(Box::new(value))));
    for shape in [Shape::Unit, Shape::Number, Shape::Text, Shape::FilledText, Shape::TextList] {
        assert_eq!(
            decode(shape, &failed(text("unknown engine"))),
            Err(GraphvizmError::Domain("unknown engine".to_string()))
        );
        assert_eq!(
            decode(shape, &GuestReply::Value(WireValue::Failure(None))),
            Err(GraphvizmError::Domain(String::new()))
        );
        assert_eq!(decode(shape, &failed(WireValue::Number(3))), malformed::<Answer>());
    }
}
