use tracing_usdt::generate::generate_wrapper_source;
use tracing_usdt::parse::{parse_schema, tokenize, ParseError};
use tracing_usdt::schema::{map_type, NativeType, SchemaType};

#[test]
fn parses_demo_provider() {
    let d = parse_schema("provider demo {\n    probe tick(int32_t, bool);\n};\n").unwrap();
    assert_eq!(d.name, "demo");
    assert_eq!(d.probes.len(), 1);
    assert_eq!(d.probes[0].name, "tick");
    assert_eq!(d.probes[0].types, vec![SchemaType::Int32, SchemaType::Bool]);
}

#[test]
fn parses_tracing_provider_in_order() {
    let src = "provider tracing {\n probe event(char *, char *, char *);\n probe enter(char*, char*);\n probe exit(string, string);\n probe none();\n};";
    let d = parse_schema(src).unwrap();
    let names: Vec<&str> = d.probes.iter().map(|p| p.name.as_str()).collect();
    assert_eq!(names, vec!["event", "enter", "exit", "none"]);
    assert_eq!(d.probes[0].types, vec![SchemaType::Str; 3]);
    assert_eq!(d.probes[2].types, vec![SchemaType::Str; 2]);
    assert!(d.probes[3].types.is_empty());
}

#[test]
fn only_first_provider_is_read() {
    let d = parse_schema("provider a { probe x(); }; provider b { probe y(); };").unwrap();
    assert_eq!(d.name, "a");
    assert_eq!(d.probes.len(), 1);
}

#[test]
fn parse_errors() {
    assert_eq!(parse_schema("provider p { probe x(int32_t) }").unwrap_err(), ParseError::Syntax);
    assert_eq!(parse_schema("provider p { probe x(widget); };").unwrap_err(), ParseError::UnknownType);
    assert_eq!(parse_schema("provider p { probe x(); probe x(bool); };").unwrap_err(), ParseError::DuplicateProbe);
    assert_eq!(parse_schema("provider p { };").unwrap_err(), ParseError::NoProbes);
    assert_eq!(parse_schema("provider p { probe x(); } @ ").unwrap_err(), ParseError::Syntax);
    assert_eq!(parse_schema("").unwrap_err(), ParseError::Syntax);
}

#[test]
fn tokenizer_splits_words_and_marks() {
    let t = tokenize("probe a_1(char *);").unwrap();
    assert_eq!(t.len(), 7);
    assert!(tokenize("9lives").is_err());
}

#[test]
fn float_parses_but_does_not_generate() {
    let d = parse_schema("provider p { probe x(float); };").unwrap();
    assert_eq!(generate_wrapper_source("// h", &d).unwrap_err().ty, SchemaType::Float);
}

#[test]
fn type_mapping() {
    assert_eq!(map_type(SchemaType::Int32), Ok(NativeType::Int32));
    assert_eq!(map_type(SchemaType::Str), Ok(NativeType::CharPtr));
    assert_eq!(map_type(SchemaType::Double).unwrap_err().ty, SchemaType::Double);
    assert_eq!(NativeType::CharPtr.c_name(), "char*");
    assert_eq!(NativeType::UInt64.c_name(), "uint64_t");
}

#[test]
fn comments_and_pragmas_are_skipped() {
    let src = "/* probes of the demo */\n#pragma D attributes Evolving/Evolving/ISA provider demo provider\nprovider demo {\n    // one probe\n    probe tick(int32_t, bool); /* trailing */\n};\n";
    let d = parse_schema(src).unwrap();
    assert_eq!(d.name, "demo");
    assert_eq!(d.probes.len(), 1);
    assert_eq!(d.probes[0].types, vec![SchemaType::Int32, SchemaType::Bool]);
    assert_eq!(parse_schema("/* open").unwrap_err(), ParseError::Syntax);
    assert_eq!(parse_schema("provider p { probe x(); } / ").unwrap_err(), ParseError::Syntax);
}
