use tracing_usdt::parse::parse_schema;
use tracing_usdt::schema::map_type;

const PROVIDER: &str = "/* a provider */\n#pragma D attributes Evolving/Evolving/ISA provider tracing provider\nprovider tracing {\n    probe event(char*, char*, char*);\n    probe counts(uint8_t, int16_t, uint32_t, int64_t);\n    probe mixed(int8_t, uint16_t, int32_t, uint64_t, char*);\n    probe none();\n};\n";

#[test]
fn parse_agrees_with_dtrace_parser() {
    let ours = parse_schema(PROVIDER).unwrap();
    let theirs = dtrace_parser::File::try_from(PROVIDER).unwrap();
    let provider = &theirs.providers()[0];
    assert_eq!(ours.name, provider.name);
    assert_eq!(ours.probes.len(), provider.probes.len());
    for (mine, other) in ours.probes.iter().zip(provider.probes.iter()) {
        assert_eq!(mine.name, other.name);
        assert_eq!(mine.types.len(), other.types.len());
        for (t, d) in mine.types.iter().zip(other.types.iter()) {
            assert_eq!(map_type(*t).unwrap().c_name(), d.to_c_type());
        }
    }
}
