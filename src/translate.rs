use vstd::prelude::*;

use crate::fields::{json_object_text, FieldSet};
use crate::text::{lemma_without_nul_keeps, transfer_text, without_nul};

verus! {

/// The probes that an intercepted event may fire.
#[derive(Clone, Copy, Debug, PartialEq, Eq, Structural)]
pub enum EventProbe {
    Event,
    Trace,
    Debug,
    Info,
    Warn,
    Error,
}

/// Which event probes a translator serves: one generic probe, or one per severity
/// level beside the generic one.
#[derive(Clone, Copy, Debug, PartialEq, Eq, Structural)]
pub enum ProbeLevels {
    Single,
    SixWay,
}

/// What each event probe's enabled-query answered.
#[derive(Clone, Copy, Debug, PartialEq, Eq, Structural)]
pub struct EventProbeStates {
    pub event: bool,
    pub trace: bool,
    pub debug: bool,
    pub info: bool,
    pub warn: bool,
    pub error: bool,
}

/// The probes of a configuration, in the order in which they are fired.
pub open spec fn probe_table(levels: ProbeLevels) -> Seq<EventProbe> {
    match levels {
        ProbeLevels::Single => seq![EventProbe::Event],
        ProbeLevels::SixWay => seq![
            EventProbe::Event,
            EventProbe::Trace,
            EventProbe::Debug,
            EventProbe::Info,
            EventProbe::Warn,
            EventProbe::Error,
        ],
    }
}

pub open spec fn is_enabled(s: EventProbeStates, p: EventProbe) -> bool {
    match p {
        EventProbe::Event => s.event,
        EventProbe::Trace => s.trace,
        EventProbe::Debug => s.debug,
        EventProbe::Info => s.info,
        EventProbe::Warn => s.warn,
        EventProbe::Error => s.error,
    }
}

/// The probes of the configuration whose enabled-query is true, in table order.
pub open spec fn fired_probes(levels: ProbeLevels, s: EventProbeStates) -> Seq<EventProbe> {
    probe_table(levels).filter(enabled_in(s))
}

pub open spec fn enabled_in(s: EventProbeStates) -> spec_fn(EventProbe) -> bool {
    |p: EventProbe| is_enabled(s, p)
}

pub open spec fn all_disabled(levels: ProbeLevels, s: EventProbeStates) -> bool {
    forall|i: int| 0 <= i < probe_table(levels).len() ==> !is_enabled(s, #[trigger] probe_table(levels)[i])
}

fn table(levels: ProbeLevels) -> (r: Vec<EventProbe>)
    ensures
        r@ == probe_table(levels),
{
    match levels {
        ProbeLevels::Single => vec![EventProbe::Event],
        ProbeLevels::SixWay => vec![
            EventProbe::Event,
            EventProbe::Trace,
            EventProbe::Debug,
            EventProbe::Info,
            EventProbe::Warn,
            EventProbe::Error,
        ],
    }
}

fn enabled(s: &EventProbeStates, p: EventProbe) -> (r: bool)
    ensures
        r == is_enabled(*s, p),
{
    match p {
        EventProbe::Event => s.event,
        EventProbe::Trace => s.trace,
        EventProbe::Debug => s.debug,
        EventProbe::Info => s.info,
        EventProbe::Warn => s.warn,
        EventProbe::Error => s.error,
    }
}

/// Decides what an intercepted event leads to: `None` when every probe of the
/// configuration is disabled, so that no field is recorded or encoded; otherwise the
/// probes to fire, in table order.
pub fn plan_event(levels: ProbeLevels, s: &EventProbeStates) -> (r: Option<Vec<EventProbe>>)
    ensures
        r is None <==> all_disabled(levels, *s),
        r matches Some(v) ==> v@ == fired_probes(levels, *s),
{
    let t = table(levels);
    let mut out: Vec<EventProbe> = Vec::new();
    let mut i: usize = 0;
    proof {
        reveal(Seq::filter);
        assert(t@.subrange(0, 0).filter(enabled_in(*s)) =~= Seq::<EventProbe>::empty());
    }
    while i < t.len()
        invariant
            t@ == probe_table(levels),
            i <= t@.len(),
            out@ == t@.subrange(0, i as int).filter(enabled_in(*s)),
        decreases t@.len() - i,
    {
        let p = t[i];
        proof {
            let next = t@.subrange(0, i + 1);
            assert(next =~= t@.subrange(0, i as int).push(p));
            t@.subrange(0, i as int).lemma_filter_push(p, enabled_in(*s));
        }
        if enabled(s, p) {
            out.push(p);
        }
        i = i + 1;
    }
    assert(t@.subrange(0, i as int) =~= t@);
    if out.len() == 0 {
        proof {
            assert forall|k: int| 0 <= k < probe_table(levels).len() implies !is_enabled(
                *s,
                #[trigger] probe_table(levels)[k],
            ) by {
                if is_enabled(*s, probe_table(levels)[k]) {
                    t@.lemma_filter_contains(enabled_in(*s), k);
                }
            }
        }
        None
    } else {
        proof {
            if all_disabled(levels, *s) {
                t@.lemma_all_neg_filter_empty(enabled_in(*s));
            }
        }
        Some(out)
    }
}

/// The transfer texts of one event and the probes that receive them.
pub struct EventCall {
    pub name: String,
    pub message: String,
    pub fields: String,
    pub probes: Vec<EventProbe>,
}

/// The transfer texts of one span being entered or left.
pub struct SpanCall {
    pub name: String,
    pub fields: String,
}

/// Builds the transfer texts of an event once, to be shared by every probe that fires.
pub fn event_call(name: &str, record: FieldSet, probes: Vec<EventProbe>) -> (r: EventCall)
    requires
        record.wf(),
    ensures
        r.name@ == without_nul(name@),
        r.message@ == without_nul(record@.0),
        r.fields@ == json_object_text(record@.1),
        r.probes@ == probes@,
{
    let json = record.fields();
    proof {
        lemma_without_nul_keeps(json@);
    }
    let message = record.message();
    EventCall {
        name: transfer_text(name),
        message: transfer_text(message.as_str()),
        fields: transfer_text(json.as_str()),
        probes,
    }
}

/// Builds the transfer texts of a span: its name and its encoded fields.
pub fn span_call(name: &str, record: &FieldSet) -> (r: SpanCall)
    requires
        record.wf(),
    ensures
        r.name@ == without_nul(name@),
        r.fields@ == json_object_text(record@.1),
{
    let json = record.fields();
    proof {
        lemma_without_nul_keeps(json@);
    }
    SpanCall { name: transfer_text(name), fields: transfer_text(json.as_str()) }
}

/// The probes that fire when a span is opened and when it is left.
#[derive(Clone, Copy, Debug, PartialEq, Eq, Structural)]
pub enum SpanProbe {
    Enter,
    Exit,
}

/// The span callbacks: a span being opened, and a span being left.
#[derive(Clone, Copy, Debug, PartialEq, Eq, Structural)]
pub enum SpanCallback {
    NewSpan,
    Exit,
}

/// What the span probes' enabled-queries answered.
#[derive(Clone, Copy, Debug, PartialEq, Eq, Structural)]
pub struct SpanProbeStates {
    pub enter: bool,
    pub exit: bool,
}

pub open spec fn span_probe_of(cb: SpanCallback) -> SpanProbe {
    match cb {
        SpanCallback::NewSpan => SpanProbe::Enter,
        SpanCallback::Exit => SpanProbe::Exit,
    }
}

pub open spec fn span_enabled(s: SpanProbeStates, cb: SpanCallback) -> bool {
    match cb {
        SpanCallback::NewSpan => s.enter,
        SpanCallback::Exit => s.exit,
    }
}

/// Decides what a span callback leads to: `None` when the callback's own probe is
/// disabled, so that nothing is recorded or encoded; otherwise the probe to fire.
/// A span opened while the enter probe is disabled is therefore not recorded, and its
/// exit hands on the encoding of an empty field set (see [`exit_call`]).
pub fn plan_span(cb: SpanCallback, s: &SpanProbeStates) -> (r: Option<SpanProbe>)
    ensures
        r is None <==> !span_enabled(*s, cb),
        r matches Some(p) ==> p == span_probe_of(cb),
{
    match cb {
        SpanCallback::NewSpan => if s.enter {
            Some(SpanProbe::Enter)
        } else {
            None
        },
        SpanCallback::Exit => if s.exit {
            Some(SpanProbe::Exit)
        } else {
            None
        },
    }
}

/// Builds the transfer texts of a span being left: its name, and the field text stored
/// when the span was opened, or the encoding of no fields where none was stored.
pub fn exit_call(name: &str, stored: Option<String>) -> (r: SpanCall)
    ensures
        r.name@ == without_nul(name@),
        stored matches Some(t) ==> r.fields@ == without_nul(t@),
        stored is None ==> r.fields@ == json_object_text(Map::<Seq<char>, Seq<char>>::empty()),
{
    match stored {
        Some(t) => SpanCall { name: transfer_text(name), fields: transfer_text(t.as_str()) },
        None => span_call(name, &FieldSet::new()),
    }
}

/// The translator that serves the generic event probe and one probe per severity level.
pub struct USDTTracingLayer;

impl Default for USDTTracingLayer {
    fn default() -> (r: Self)
        ensures
            r == (USDTTracingLayer {}),
    {
        USDTTracingLayer
    }
}

impl USDTTracingLayer {
    /// The probes that this translator serves.
    pub fn levels(&self) -> (r: ProbeLevels)
        ensures
            r == ProbeLevels::SixWay,
    {
        ProbeLevels::SixWay
    }

    /// What an event leads to under this translator's probe table.
    pub fn plan_event(&self, s: &EventProbeStates) -> (r: Option<Vec<EventProbe>>)
        ensures
            r is None <==> all_disabled(ProbeLevels::SixWay, *s),
            r matches Some(v) ==> v@ == fired_probes(ProbeLevels::SixWay, *s),
    {
        plan_event(ProbeLevels::SixWay, s)
    }

    /// What a span callback leads to; the span probes are the same in every configuration.
    pub fn plan_span(&self, cb: SpanCallback, s: &SpanProbeStates) -> (r: Option<SpanProbe>)
        ensures
            r is None <==> !span_enabled(*s, cb),
            r matches Some(p) ==> p == span_probe_of(cb),
    {
        plan_span(cb, s)
    }
}

/// The translator that serves the generic event probe alone.
pub struct U;

impl Default for U {
    fn default() -> (r: Self)
        ensures
            r == (U {}),
    {
        U
    }
}

impl U {
    /// The probes that this translator serves.
    pub fn levels(&self) -> (r: ProbeLevels)
        ensures
            r == ProbeLevels::Single,
    {
        ProbeLevels::Single
    }

    /// What an event leads to under this translator's probe table.
    pub fn plan_event(&self, s: &EventProbeStates) -> (r: Option<Vec<EventProbe>>)
        ensures
            r is None <==> all_disabled(ProbeLevels::Single, *s),
            r matches Some(v) ==> v@ == fired_probes(ProbeLevels::Single, *s),
    {
        plan_event(ProbeLevels::Single, s)
    }

    /// What a span callback leads to; the span probes are the same in every configuration.
    pub fn plan_span(&self, cb: SpanCallback, s: &SpanProbeStates) -> (r: Option<SpanProbe>)
        ensures
            r is None <==> !span_enabled(*s, cb),
            r matches Some(p) ==> p == span_probe_of(cb),
    {
        plan_span(cb, s)
    }
}

} // verus!
