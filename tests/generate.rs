use tracing_usdt::generate::{binding_allowlist, generate_wrapper_source, generated_symbols, SymbolKind};
use tracing_usdt::schema::{NativeType, ProbeDefinition, ProviderDefinition, SchemaType};

fn demo() -> ProviderDefinition {
    ProviderDefinition {
        name: "demo".to_string(),
        probes: vec![ProbeDefinition { name: "tick".to_string(), types: vec![SchemaType::Int32, SchemaType::Bool] }],
    }
}

#[test]
fn demo_tick_symbols() {
    let syms = generated_symbols(&demo()).unwrap();
    assert_eq!(syms.len(), 2);
    assert_eq!(syms[0].name, "demo_tick");
    assert_eq!(syms[0].kind, SymbolKind::Entry);
    assert_eq!(syms[0].params, vec![NativeType::Int32, NativeType::Bool]);
    assert_eq!(syms[1].name, "demo_tick_enabled");
    assert_eq!(syms[1].kind, SymbolKind::EnabledQuery);
    assert!(syms[1].params.is_empty());
}

#[test]
fn demo_tick_source() {
    let src = generate_wrapper_source("// header", &demo()).unwrap();
    let expected = "// header\n\n\
void demo_tick(int32_t arg0,_Bool arg1) {\n    DEMO_TICK(arg0,arg1);\n}\n\n\
int demo_tick_enabled(void) {\n    return DEMO_TICK_ENABLED();\n}\n\n";
    assert_eq!(src, expected);
}

#[test]
fn regeneration_is_identical() {
    let a = generate_wrapper_source("// h", &demo()).unwrap();
    let b = generate_wrapper_source("// h", &demo()).unwrap();
    assert_eq!(a, b);
}

#[test]
fn unsupported_type_gives_no_source() {
    let mut def = demo();
    def.probes[0].types.push(SchemaType::Double);
    let r = generate_wrapper_source("// h", &def);
    assert_eq!(r.unwrap_err().ty, SchemaType::Double);
    assert_eq!(generated_symbols(&def).unwrap_err().ty, SchemaType::Double);
}

#[test]
fn allowlist_names_the_provider() {
    assert_eq!(binding_allowlist(&demo()), "demo.*");
}

#[test]
fn enabled_suffix_collides() {
    let mut def = demo();
    assert!(!tracing_usdt::generate::has_symbol_collision(&def));
    def.probes.push(ProbeDefinition { name: "tick_enabled".to_string(), types: vec![] });
    assert!(tracing_usdt::generate::has_symbol_collision(&def));
}
