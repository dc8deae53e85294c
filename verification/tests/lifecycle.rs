//! Capabilities, the check of a binary's first bytes, and what the library
//! makes of the runtime's answers.

use graphvizm::error::GraphvizmError;
use graphvizm::lifecycle::{
    check_preamble, complete_table, component_config, component_config_within, load,
    module_from, sandbox_from, CapabilitySet,
};
use graphvizm::request::{Export, EXPORT_COUNT};
use graphvizm::session::{grants_for, grants_of, system_linker};
use wasmtime::component::ComponentExportIndex;

fn set(stdio: bool, args: bool) -> CapabilitySet {
    CapabilitySet { stdio, args }
}

#[test]
fn no_capability_is_within_every_set() {
    let none = CapabilitySet::none();
    assert_eq!(none, set(false, false));
    for limit in [set(false, false), set(true, false), set(false, true), set(true, true)] {
        assert!(none.is_within(&limit));
        assert!(limit.is_within(&limit));
        assert!(limit.is_within(&set(true, true)));
    }
}

#[test]
fn a_capability_is_not_within_a_set_without_it() {
    assert!(!set(true, false).is_within(&set(false, false)));
    assert!(!set(true, false).is_within(&set(false, true)));
    assert!(!set(false, true).is_within(&set(true, false)));
    assert!(!set(true, true).is_within(&set(true, false)));
    assert!(!set(true, true).is_within(&set(false, true)));
    assert!(set(true, false).is_within(&set(true, true)));
}

#[test]
fn preamble_is_the_magic_number_and_four_more_bytes() {
    assert!(check_preamble(&[0x00, 0x61, 0x73, 0x6d, 0x0d, 0x00, 0x01, 0x00]));
    assert!(check_preamble(&[0x00, 0x61, 0x73, 0x6d, 0x01, 0x00, 0x00, 0x00]));
    assert!(check_preamble(&[0x00, 0x61, 0x73, 0x6d, 0xff, 0xff, 0xff, 0xff, 0x00]));
    assert!(check_preamble(&wat::parse_str("(component)").unwrap()));
    assert!(check_preamble(&wat::parse_str("(module)").unwrap()));
}

#[test]
fn preamble_is_missed_by_short_or_foreign_bytes() {
    assert!(!check_preamble(&[]));
    assert!(!check_preamble(&[0x00, 0x61, 0x73, 0x6d]));
    assert!(!check_preamble(&[0x00, 0x61, 0x73, 0x6d, 0x0d, 0x00, 0x01]));
    assert!(!check_preamble(&[0x01, 0x61, 0x73, 0x6d, 0x0d, 0x00, 0x01, 0x00]));
    assert!(!check_preamble(&[0x00, 0x60, 0x73, 0x6d, 0x0d, 0x00, 0x01, 0x00]));
    assert!(!check_preamble(&[0x00, 0x61, 0x74, 0x6d, 0x0d, 0x00, 0x01, 0x00]));
    assert!(!check_preamble(&[0x00, 0x61, 0x73, 0x6e, 0x0d, 0x00, 0x01, 0x00]));
    assert!(!check_preamble(b"(component)"));
}

#[test]
fn refused_configuration_is_an_engine_init_failure_with_the_runtime_text() {
    let refused = sandbox_from(Err(wasmtime::Error::msg("no such target")), set(true, false));
    assert_eq!(refused.err(), Some(GraphvizmError::EngineInit("no such target".to_string())));
}

#[test]
fn runtime_text_holds_the_causes() {
    let inner = wasmtime::Error::msg("no such target");
    let refused = sandbox_from(Err(inner.context("invalid configuration")), set(true, false));
    assert_eq!(
        refused.err(),
        Some(GraphvizmError::EngineInit("invalid configuration: no such target".to_string()))
    );
}

#[test]
fn accepted_configuration_is_a_sandbox_with_the_capabilities() {
    let engine = wasmtime::Engine::default();
    let sandbox = sandbox_from(Ok(engine), set(false, true)).ok().unwrap();
    assert_eq!(sandbox.granted(), set(false, true));
}

#[test]
fn refused_binary_is_a_load_failure_with_the_runtime_text() {
    let refused = module_from(Err(wasmtime::Error::msg("unknown section")));
    assert_eq!(refused.err(), Some(GraphvizmError::Load("unknown section".to_string())));
}

#[test]
fn compiled_binary_is_a_module() {
    let engine = wasmtime::Engine::default();
    let bytes = wat::parse_str("(component)").unwrap();
    let compiled = wasmtime::component::Component::from_binary(&engine, &bytes);
    assert!(compiled.is_ok());
    let module = module_from(compiled).ok().unwrap();
    assert!(!module.has_all_exports());
}

/// Two places of exports of a small component, to fill a table with.
fn two_places() -> (ComponentExportIndex, ComponentExportIndex) {
    let engine = wasmtime::Engine::default();
    let text = r#"(component
        (core module $m (func (export "f")))
        (core instance $i (instantiate $m))
        (func $f (canon lift (core func $i "f")))
        (export "first" (func $f))
        (export "second" (func $f)))"#;
    let component = wasmtime::component::Component::new(&engine, wat::parse_str(text).unwrap())
        .unwrap();
    (
        component.get_export_index(None, "first").unwrap(),
        component.get_export_index(None, "second").unwrap(),
    )
}

#[test]
fn table_is_complete_where_every_lookup_found_something() {
    let (first, second) = two_places();
    assert_ne!(first, second);
    let mut lookups = vec![Some(first); EXPORT_COUNT];
    lookups[3] = Some(second);
    let table = complete_table(&lookups).unwrap();
    assert_eq!(table.len(), EXPORT_COUNT);
    for slot in 0..EXPORT_COUNT {
        assert_eq!(table[slot], if slot == 3 { second } else { first });
    }
}

#[test]
fn table_names_the_first_entry_that_was_not_found() {
    let (first, _) = two_places();
    for gap in 0..EXPORT_COUNT {
        let mut lookups = vec![Some(first); EXPORT_COUNT];
        lookups[gap] = None;
        if gap + 2 < EXPORT_COUNT {
            lookups[gap + 2] = None;
        }
        let name = Export::at(gap).unwrap().name().to_string();
        assert_eq!(complete_table(&lookups), Err(GraphvizmError::Link(name)));
    }
}

#[test]
fn table_of_too_few_lookups_lacks_the_next_entry() {
    let (first, _) = two_places();
    assert_eq!(
        complete_table(&vec![]),
        Err(GraphvizmError::Link("get-graphviz-version".to_string()))
    );
    assert_eq!(
        complete_table(&vec![Some(first); 11]),
        Err(GraphvizmError::Link("free-layout".to_string()))
    );
    assert_eq!(complete_table(&vec![Some(first); 13]).map(|table| table.len()), Ok(EXPORT_COUNT));
}

#[test]
fn sandbox_configuration_takes_components() {
    let engine = wasmtime::Engine::new(&component_config()).unwrap();
    let sandbox = sandbox_from(Ok(engine), set(false, false)).ok().unwrap();
    assert!(load(&sandbox, &wat::parse_str("(component)").unwrap()).is_ok());
    let engine = wasmtime::Engine::new(&component_config_within(1 << 16)).unwrap();
    let sandbox = sandbox_from(Ok(engine), set(false, false)).ok().unwrap();
    assert!(load(&sandbox, &wat::parse_str("(component)").unwrap()).is_ok());
}

#[test]
fn sandbox_without_component_model_loads_no_component() {
    let mut config = wasmtime::Config::new();
    config.wasm_component_model(false);
    let engine = wasmtime::Engine::new(&config).unwrap();
    let sandbox = sandbox_from(Ok(engine), set(false, false)).ok().unwrap();
    let refused = load(&sandbox, &wat::parse_str("(component)").unwrap());
    assert!(matches!(refused.err(), Some(GraphvizmError::Load(_))));
}

#[test]
fn linker_for_the_system_interfaces_can_be_made() {
    let sandbox = sandbox_from(Ok(wasmtime::Engine::default()), set(true, true)).ok().unwrap();
    assert!(system_linker(&sandbox).is_ok());
}

#[test]
fn grants_can_be_put_together_for_every_binding() {
    let args = vec!["viz".to_string(), "-Tsvg".to_string()];
    // What a builder holds cannot be read back; that the arguments reach a
    // guest is shown where a guest is run.
    let _ = grants_for(true, &args).build();
    let _ = grants_for(false, &Vec::new()).build();
    let _ = grants_of(set(true, true), &args).build();
    let _ = grants_of(set(false, false), &args).build();
}
