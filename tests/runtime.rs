use tracing_usdt::demo::{even, odd};
use tracing_usdt::fields::FieldSet;
use tracing_usdt::translate::{
    event_call, exit_call, plan_span, span_call, EventProbe, EventProbeStates, SpanCallback, SpanProbe,
    SpanProbeStates, USDTTracingLayer, U,
};

fn states(info: bool) -> EventProbeStates {
    EventProbeStates { event: false, trace: false, debug: false, info, warn: false, error: false }
}

#[test]
fn all_disabled_skips_event() {
    assert!(USDTTracingLayer::default().plan_event(&states(false)).is_none());
    assert!(U::default().plan_event(&states(true)).is_none());
}

#[test]
fn info_only_fires_info() {
    let probes = USDTTracingLayer::default().plan_event(&states(true)).unwrap();
    assert_eq!(probes, vec![EventProbe::Info]);
    let mut fs = FieldSet::new();
    fs.record("message", "Even called".to_string());
    fs.record("arg0", "4".to_string());
    let call = event_call("event", fs, probes);
    assert_eq!(call.message, "Even called");
    assert_eq!(call.probes, vec![EventProbe::Info]);
    let v: serde_json::Value = serde_json::from_str(&call.fields).unwrap();
    assert_eq!(v["message"], "Even called");
    assert_eq!(v["arg0"], "4");
}

#[test]
fn encoding_round_trips() {
    let mut fs = FieldSet::new();
    fs.record("x", "1".to_string());
    fs.record("msg", "hi".to_string());
    let call = span_call("span", &fs);
    let v: serde_json::Map<String, serde_json::Value> = serde_json::from_str(&call.fields).unwrap();
    assert_eq!(v.len(), 2);
    assert_eq!(v["x"], "1");
    assert_eq!(v["msg"], "hi");
    assert_eq!(call.fields, "{\"msg\":\"hi\",\"x\":\"1\"}");
}

#[test]
fn even_and_odd() {
    assert_eq!(even(4, true), 5);
    assert_eq!(even(4, false), 0);
    odd();
}

#[test]
fn message_and_later_values() {
    let mut fs = FieldSet::new();
    fs.record("a", "1".to_string());
    fs.record("a", "2".to_string());
    let call = span_call("s", &fs);
    assert_eq!(call.fields, "{\"a\":\"2\"}");
    assert_eq!(call.name, "s");
    assert_eq!(fs.message(), "");
}

#[test]
fn empty_field_set_encodes_empty_object() {
    let fs = FieldSet::new();
    assert_eq!(span_call("s", &fs).fields, "{}");
}

#[test]
fn nul_is_dropped_from_transfer_text() {
    assert_eq!(tracing_usdt::text::transfer_text("a\0b"), "ab");
    let mut fs = FieldSet::new();
    fs.record("message", "x\0y".to_string());
    let call = event_call("n\0", fs, vec![EventProbe::Event]);
    assert_eq!(call.message, "xy");
    assert_eq!(call.name, "n");
}

#[test]
fn six_way_fires_enabled_in_table_order() {
    let s = EventProbeStates { event: true, trace: false, debug: true, info: false, warn: false, error: true };
    let probes = USDTTracingLayer::default().plan_event(&s).unwrap();
    assert_eq!(probes, vec![EventProbe::Event, EventProbe::Debug, EventProbe::Error]);
    assert_eq!(U::default().plan_event(&s).unwrap(), vec![EventProbe::Event]);
}

struct CountingRuntime {
    encodings: usize,
    entries: usize,
}

impl CountingRuntime {
    fn on_event(&mut self, s: &EventProbeStates, fields: &[(&str, &str)]) {
        if let Some(probes) = USDTTracingLayer::default().plan_event(s) {
            let mut fs = FieldSet::new();
            for (k, v) in fields {
                fs.record(k, v.to_string());
            }
            self.encodings += 1;
            let call = event_call("event", fs, probes);
            self.entries += call.probes.len();
        }
    }
}

#[test]
fn disabled_probes_cost_nothing() {
    let mut rt = CountingRuntime { encodings: 0, entries: 0 };
    rt.on_event(&states(false), &[("message", "hi")]);
    assert_eq!((rt.encodings, rt.entries), (0, 0));
    rt.on_event(&states(true), &[("message", "hi")]);
    assert_eq!((rt.encodings, rt.entries), (1, 1));
}

#[test]
fn span_plans_follow_their_own_probe() {
    let enter_only = SpanProbeStates { enter: true, exit: false };
    let exit_only = SpanProbeStates { enter: false, exit: true };
    assert_eq!(plan_span(SpanCallback::NewSpan, &enter_only), Some(SpanProbe::Enter));
    assert_eq!(plan_span(SpanCallback::Exit, &enter_only), None);
    assert_eq!(plan_span(SpanCallback::NewSpan, &exit_only), None);
    assert_eq!(USDTTracingLayer::default().plan_span(SpanCallback::Exit, &exit_only), Some(SpanProbe::Exit));
    let off = SpanProbeStates { enter: false, exit: false };
    assert_eq!(U::default().plan_span(SpanCallback::NewSpan, &off), None);
}

#[test]
fn exit_hands_on_stored_fields() {
    let call = exit_call("s", Some("{\"a\":\"1\"}".to_string()));
    assert_eq!(call.name, "s");
    assert_eq!(call.fields, "{\"a\":\"1\"}");
    assert_eq!(exit_call("s", None).fields, "{}");
}

#[test]
fn field_text_ignores_recording_order() {
    let mut a = FieldSet::new();
    a.record("x", "1".to_string());
    a.record("msg", "hi".to_string());
    let mut b = FieldSet::new();
    b.record("msg", "hi".to_string());
    b.record("x", "1".to_string());
    assert_eq!(a.fields(), b.fields());
    assert_eq!(a.fields(), "{\"msg\":\"hi\",\"x\":\"1\"}");
}
