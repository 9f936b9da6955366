use vstd::prelude::*;

use crate::schema::{
    c_name, is_supported, map_type, native_of, NativeType, ProbeDefinition, ProviderDefinition,
    SchemaType, UnsupportedTypeError,
};
use crate::text::{decimal, push_decimal, push_upper, str_eq, upper};

verus! {

pub open spec fn all_supported(ts: Seq<SchemaType>) -> bool {
    forall|i: int| 0 <= i < ts.len() ==> is_supported(#[trigger] ts[i])
}

/// The native types of an argument list whose types are all supported.
pub open spec fn natives(ts: Seq<SchemaType>) -> Seq<NativeType> {
    ts.map_values(|t: SchemaType| native_of(t).unwrap())
}

pub open spec fn typed_arg(n: NativeType, i: nat) -> Seq<char> {
    c_name(n) + " arg"@ + decimal(i)
}

/// The parameter list of an entry function: `type argI`, joined by commas.
pub open spec fn typed_params(ns: Seq<NativeType>) -> Seq<char>
    decreases ns.len(),
{
    if ns.len() == 0 {
        seq![]
    } else if ns.len() == 1 {
        typed_arg(ns[0], 0)
    } else {
        typed_params(ns.drop_last()) + ","@ + typed_arg(ns.last(), (ns.len() - 1) as nat)
    }
}

/// The argument list that forwards `k` parameters: `arg0,arg1,...`.
pub open spec fn plain_args(k: nat) -> Seq<char>
    decreases k,
{
    if k == 0 {
        seq![]
    } else if k == 1 {
        "arg"@ + decimal(0)
    } else {
        plain_args((k - 1) as nat) + ","@ + "arg"@ + decimal((k - 1) as nat)
    }
}

/// The entry function and the enabled-query function of one probe.
pub open spec fn probe_text(prov: Seq<char>, probe: Seq<char>, ns: Seq<NativeType>) -> Seq<char> {
    "void "@ + prov + "_"@ + probe + "("@ + typed_params(ns) + ") {\n"@
        + "    "@ + upper(prov) + "_"@ + upper(probe) + "("@ + plain_args(ns.len()) + ");\n"@
        + "}\n\n"@
        + "int "@ + prov + "_"@ + probe + "_enabled(void) {\n"@
        + "    return "@ + upper(prov) + "_"@ + upper(probe) + "_ENABLED();\n"@
        + "}\n\n"@
}

pub open spec fn probes_text(prov: Seq<char>, probes: Seq<ProbeDefinition>) -> Seq<char>
    decreases probes.len(),
{
    if probes.len() == 0 {
        seq![]
    } else {
        probes_text(prov, probes.drop_last()) + probe_text(
            prov,
            probes.last().name@,
            natives(probes.last().types@),
        )
    }
}

pub open spec fn provider_supported(def: ProviderDefinition) -> bool {
    forall|i: int| 0 <= i < def.probes@.len() ==> all_supported(#[trigger] def.probes@[i].types@)
}

/// The whole wrapper source: the prelude line, a blank line, then each probe's functions.
pub open spec fn wrapper_source(prelude: Seq<char>, def: ProviderDefinition) -> Seq<char> {
    prelude + "\n\n"@ + probes_text(def.name@, def.probes@)
}

/// Two definitions that spell the same provider, probe by probe.
pub open spec fn same_definition(a: ProviderDefinition, b: ProviderDefinition) -> bool {
    &&& a.name@ == b.name@
    &&& a.probes@.len() == b.probes@.len()
    &&& forall|i: int|
        0 <= i < a.probes@.len() ==> (#[trigger] a.probes@[i]).name@ == b.probes@[i].name@
            && a.probes@[i].types@ == b.probes@[i].types@
}

/// The native parameter types of a probe's entry function, in argument order.
pub fn entry_parameters(probe: &ProbeDefinition) -> (r: Result<Vec<NativeType>, UnsupportedTypeError>)
    ensures
        r is Ok <==> all_supported(probe.types@),
        r matches Ok(v) ==> v@ == natives(probe.types@),
        r matches Err(e) ==> !is_supported(e.ty) && probe.types@.contains(e.ty),
{
    let mut out: Vec<NativeType> = Vec::new();
    let mut i: usize = 0;
    while i < probe.types.len()
        invariant
            i <= probe.types@.len(),
            all_supported(probe.types@.subrange(0, i as int)),
            out@ == natives(probe.types@.subrange(0, i as int)),
        decreases probe.types@.len() - i,
    {
        let t = probe.types[i];
        match map_type(t) {
            Ok(n) => {
                out.push(n);
                proof {
                    let pre = probe.types@.subrange(0, i as int);
                    let next = probe.types@.subrange(0, i + 1);
                    assert(next =~= pre.push(t));
                    assert(natives(next) =~= natives(pre).push(n));
                }
            },
            Err(e) => {
                assert(probe.types@[i as int] == t);
                return Err(e);
            },
        }
        i = i + 1;
    }
    assert(probe.types@.subrange(0, i as int) =~= probe.types@);
    Ok(out)
}

fn push_typed_params(s: &mut String, ns: &Vec<NativeType>)
    ensures
        final(s)@ == old(s)@ + typed_params(ns@),
{
    let mut i: usize = 0;
    while i < ns.len()
        invariant
            i <= ns@.len(),
            s@ == old(s)@ + typed_params(ns@.subrange(0, i as int)),
        decreases ns@.len() - i,
    {
        if i > 0 {
            s.append(",");
        }
        s.append(ns[i].c_name());
        s.append(" arg");
        push_decimal(s, i);
        proof {
            let pre = ns@.subrange(0, i as int);
            let next = ns@.subrange(0, i + 1);
            assert(next.drop_last() =~= pre);
            assert(next.last() == ns@[i as int]);
            if i == 0 {
                assert(typed_params(pre) =~= seq![]);
            }
        }
        i = i + 1;
        assert(s@ =~= old(s)@ + typed_params(ns@.subrange(0, i as int)));
    }
    assert(ns@.subrange(0, i as int) =~= ns@);
}

fn push_plain_args(s: &mut String, k: usize)
    ensures
        final(s)@ == old(s)@ + plain_args(k as nat),
{
    let mut i: usize = 0;
    while i < k
        invariant
            i <= k,
            s@ == old(s)@ + plain_args(i as nat),
        decreases k - i,
    {
        if i > 0 {
            s.append(",");
        }
        s.append("arg");
        push_decimal(s, i);
        i = i + 1;
        assert(s@ =~= old(s)@ + plain_args(i as nat));
    }
}

fn push_probe_text(s: &mut String, prov: &str, probe: &str, ns: &Vec<NativeType>)
    ensures
        final(s)@ == old(s)@ + probe_text(prov@, probe@, ns@),
{
    s.append("void ");
    s.append(prov);
    s.append("_");
    s.append(probe);
    s.append("(");
    push_typed_params(s, ns);
    s.append(") {\n");
    s.append("    ");
    push_upper(s, prov);
    s.append("_");
    push_upper(s, probe);
    s.append("(");
    push_plain_args(s, ns.len());
    s.append(");\n");
    s.append("}\n\n");
    s.append("int ");
    s.append(prov);
    s.append("_");
    s.append(probe);
    s.append("_enabled(void) {\n");
    s.append("    return ");
    push_upper(s, prov);
    s.append("_");
    push_upper(s, probe);
    s.append("_ENABLED();\n");
    s.append("}\n\n");
    assert(final(s)@ =~= old(s)@ + probe_text(prov@, probe@, ns@));
}

/// Generates the native wrapper source for every probe of `def`, after `prelude`
/// (the directive that brings in the provider header). Fails, producing no text,
/// on the first argument type that has no native representation.
pub fn generate_wrapper_source(prelude: &str, def: &ProviderDefinition) -> (r: Result<
    String,
    UnsupportedTypeError,
>)
    ensures
        r is Ok <==> provider_supported(*def),
        r matches Ok(s) ==> s@ == wrapper_source(prelude@, *def),
        r matches Err(e) ==> !is_supported(e.ty) && exists|i: int|
            0 <= i < def.probes@.len() && (#[trigger] def.probes@[i]).types@.contains(e.ty),
{
    let mut s = String::from_str(prelude);
    s.append("\n\n");
    let mut i: usize = 0;
    while i < def.probes.len()
        invariant
            i <= def.probes@.len(),
            forall|j: int| 0 <= j < i ==> all_supported(#[trigger] def.probes@[j].types@),
            s@ == prelude@ + "\n\n"@ + probes_text(def.name@, def.probes@.subrange(0, i as int)),
        decreases def.probes@.len() - i,
    {
        let probe = &def.probes[i];
        match entry_parameters(probe) {
            Ok(ns) => {
                push_probe_text(&mut s, def.name.as_str(), probe.name.as_str(), &ns);
                proof {
                    let next = def.probes@.subrange(0, i + 1);
                    assert(next.drop_last() =~= def.probes@.subrange(0, i as int));
                    assert(next.last() == def.probes@[i as int]);
                }
            },
            Err(e) => {
                return Err(e);
            },
        }
        i = i + 1;
        assert(s@ =~= prelude@ + "\n\n"@ + probes_text(def.name@, def.probes@.subrange(0, i as int)));
    }
    assert(def.probes@.subrange(0, i as int) =~= def.probes@);
    Ok(s)
}

/// Whether a generated symbol fires a probe or asks if it is enabled.
#[derive(Clone, Copy, Debug, PartialEq, Eq, Structural)]
pub enum SymbolKind {
    Entry,
    EnabledQuery,
}

/// A function of the generated artifact: its name, its kind and its parameter types.
/// An enabled-query takes no parameters and returns an integer.
#[derive(Clone, Debug)]
pub struct GeneratedSymbol {
    pub name: String,
    pub kind: SymbolKind,
    pub params: Vec<NativeType>,
}

pub open spec fn entry_name(prov: Seq<char>, probe: Seq<char>) -> Seq<char> {
    prov + "_"@ + probe
}

pub open spec fn query_name(prov: Seq<char>, probe: Seq<char>) -> Seq<char> {
    prov + "_"@ + probe + "_enabled"@
}

/// The two symbols of probe `i`: its entry at `2 * i`, its enabled-query at `2 * i + 1`.
pub open spec fn symbol_pair(def: ProviderDefinition, syms: Seq<GeneratedSymbol>, i: int) -> bool {
    &&& syms[2 * i].name@ == entry_name(def.name@, def.probes@[i].name@)
    &&& syms[2 * i].kind == SymbolKind::Entry
    &&& syms[2 * i].params@ == natives(def.probes@[i].types@)
    &&& syms[2 * i + 1].name@ == query_name(def.name@, def.probes@[i].name@)
    &&& syms[2 * i + 1].kind == SymbolKind::EnabledQuery
    &&& syms[2 * i + 1].params@.len() == 0
}

/// The symbols of the first `n` probes, two per probe.
pub open spec fn symbols_match(def: ProviderDefinition, syms: Seq<GeneratedSymbol>, n: int) -> bool {
    &&& syms.len() == 2 * n
    &&& forall|i: int| 0 <= i < n ==> #[trigger] symbol_pair(def, syms, i)
}

/// Lists the symbols that the wrapper source of `def` defines, in source order.
pub fn generated_symbols(def: &ProviderDefinition) -> (r: Result<Vec<GeneratedSymbol>, UnsupportedTypeError>)
    ensures
        r is Ok <==> provider_supported(*def),
        r matches Ok(v) ==> symbols_match(*def, v@, def.probes@.len() as int),
        r matches Err(e) ==> !is_supported(e.ty) && exists|i: int|
            0 <= i < def.probes@.len() && (#[trigger] def.probes@[i]).types@.contains(e.ty),
{
    let mut out: Vec<GeneratedSymbol> = Vec::new();
    let mut i: usize = 0;
    while i < def.probes.len()
        invariant
            i <= def.probes@.len(),
            forall|j: int| 0 <= j < i ==> all_supported(#[trigger] def.probes@[j].types@),
            symbols_match(*def, out@, i as int),
        decreases def.probes@.len() - i,
    {
        let probe = &def.probes[i];
        match entry_parameters(probe) {
            Ok(ns) => {
                let mut entry = String::from_str(def.name.as_str());
                entry.append("_");
                entry.append(probe.name.as_str());
                let mut query = entry.clone();
                query.append("_enabled");
                let ghost before = out@;
                let ghost entry_v = entry@;
                let ghost query_v = query@;
                assert(entry_v == entry_name(def.name@, def.probes@[i as int].name@));
                assert(query_v == query_name(def.name@, def.probes@[i as int].name@));
                out.push(GeneratedSymbol { name: entry, kind: SymbolKind::Entry, params: ns });
                out.push(GeneratedSymbol { name: query, kind: SymbolKind::EnabledQuery, params: Vec::new() });
                proof {
                    assert forall|j: int| 0 <= j < i + 1 implies #[trigger] symbol_pair(*def, out@, j) by {
                        if j < i {
                            assert(symbol_pair(*def, before, j));
                            assert(out@[2 * j] == before[2 * j]);
                            assert(out@[2 * j + 1] == before[2 * j + 1]);
                        } else {
                            assert(out@[2 * j].name@ == entry_v);
                            assert(out@[2 * j + 1].name@ == query_v);
                        }
                    }
                }
            },
            Err(e) => {
                return Err(e);
            },
        }
        i = i + 1;
    }
    Ok(out)
}

/// Whether the entry of one probe would take the name of another probe's enabled-query
/// (a probe `x_enabled` beside a probe `x`).
pub open spec fn symbol_collision(def: ProviderDefinition) -> bool {
    exists|i: int, j: int|
        0 <= i < def.probes@.len() && 0 <= j < def.probes@.len() && (#[trigger] def.probes@[i]).name@
            == (#[trigger] def.probes@[j]).name@ + "_enabled"@
}

/// Tells whether two generated symbols of `def` would share a name.
pub fn has_symbol_collision(def: &ProviderDefinition) -> (r: bool)
    ensures
        r == symbol_collision(*def),
{
    let n = def.probes.len();
    let mut j: usize = 0;
    while j < n
        invariant
            n == def.probes@.len(),
            j <= n,
            forall|a: int, b: int|
                0 <= a < n && 0 <= b < j ==> (#[trigger] def.probes@[a]).name@
                    != (#[trigger] def.probes@[b]).name@ + "_enabled"@,
        decreases n - j,
    {
        let mut query = def.probes[j].name.clone();
        query.append("_enabled");
        let mut i: usize = 0;
        while i < n
            invariant
                n == def.probes@.len(),
                j < n,
                i <= n,
                query@ == def.probes@[j as int].name@ + "_enabled"@,
                forall|a: int, b: int|
                    0 <= a < n && 0 <= b < j ==> (#[trigger] def.probes@[a]).name@
                        != (#[trigger] def.probes@[b]).name@ + "_enabled"@,
                forall|a: int| 0 <= a < i ==> (#[trigger] def.probes@[a]).name@ != query@,
            decreases n - i,
        {
            if str_eq(def.probes[i].name.as_str(), query.as_str()) {
                assert(def.probes@[i as int].name@ == def.probes@[j as int].name@ + "_enabled"@);
                return true;
            }
            i = i + 1;
        }
        j = j + 1;
    }
    false
}

/// The pattern that selects this provider's symbols, and no others, for bindings.
pub fn binding_allowlist(def: &ProviderDefinition) -> (r: String)
    ensures
        r@ == def.name@ + ".*"@,
{
    let mut s = String::from_str(def.name.as_str());
    s.append(".*");
    s
}

proof fn lemma_probes_text_same(prov: Seq<char>, p: Seq<ProbeDefinition>, q: Seq<ProbeDefinition>)
    requires
        p.len() == q.len(),
        forall|i: int| 0 <= i < p.len() ==> (#[trigger] p[i]).name@ == q[i].name@ && p[i].types@ == q[i].types@,
    ensures
        probes_text(prov, p) == probes_text(prov, q),
    decreases p.len(),
{
    if p.len() > 0 {
        let pl = p.drop_last();
        let ql = q.drop_last();
        assert forall|i: int| 0 <= i < pl.len() implies (#[trigger] pl[i]).name@ == ql[i].name@
            && pl[i].types@ == ql[i].types@ by {
            assert(pl[i] == p[i]);
            assert(ql[i] == q[i]);
        }
        lemma_probes_text_same(prov, pl, ql);
        assert(p.last() == p[p.len() - 1]);
    }
}

/// Generating the wrapper source twice from the same definition gives the same text:
/// the output depends on the provider name, the probe names and the argument types alone.
pub proof fn lemma_wrapper_source_deterministic(
    prelude: Seq<char>,
    a: ProviderDefinition,
    b: ProviderDefinition,
)
    requires
        same_definition(a, b),
    ensures
        wrapper_source(prelude, a) == wrapper_source(prelude, b),
{
    lemma_probes_text_same(a.name@, a.probes@, b.probes@);
}

/// The entry function of a probe has one parameter per argument, and the parameter at
/// position `i` has the native type that the mapping gives for argument `i`.
pub proof fn lemma_entry_signature_fidelity(probe: ProbeDefinition)
    requires
        all_supported(probe.types@),
    ensures
        natives(probe.types@).len() == probe.types@.len(),
        forall|i: int|
            0 <= i < probe.types@.len() ==> native_of(probe.types@[i]) == Some(
                #[trigger] natives(probe.types@)[i],
            ),
{
    assert forall|i: int| 0 <= i < probe.types@.len() implies native_of(probe.types@[i]) == Some(
        #[trigger] natives(probe.types@)[i],
    ) by {
        assert(is_supported(probe.types@[i]));
    }
}

} // verus!
