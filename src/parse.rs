use vstd::prelude::*;

use crate::schema::{
    is_ident_char, is_ident_start, is_identifier, ProbeDefinition, ProviderDefinition, SchemaType,
};
use crate::text::{push_char, str_eq};

verus! {

/// Why a schema source was rejected.
#[derive(Clone, Debug, PartialEq, Eq)]
pub enum ParseError {
    /// A character or token that the grammar does not allow at this place.
    Syntax,
    /// A type name that names no schema type.
    UnknownType,
    /// Two probes of the provider share a name.
    DuplicateProbe,
    /// The provider declares no probe.
    NoProbes,
}

/// One lexical unit of a schema source.
#[derive(Clone, Debug)]
pub enum Token {
    Word(String),
    Punct(char),
}

pub open spec fn is_punct(c: char) -> bool {
    c == '{' || c == '}' || c == '(' || c == ')' || c == ';' || c == ',' || c == '*'
}

pub open spec fn is_space(c: char) -> bool {
    c == ' ' || c == '\t' || c == '\n' || c == '\r'
}

/// Every word token is an identifier and every punctuation token is a punctuation mark.
pub open spec fn tokens_wf(toks: Seq<Token>) -> bool {
    forall|i: int|
        0 <= i < toks.len() ==> match #[trigger] toks[i] {
            Token::Word(w) => is_identifier(w@),
            Token::Punct(c) => is_punct(c),
        }
}

fn ident_start(c: char) -> (r: bool)
    ensures
        r == is_ident_start(c),
{
    ('a' <= c && c <= 'z') || ('A' <= c && c <= 'Z') || c == '_'
}

fn ident_char(c: char) -> (r: bool)
    ensures
        r == is_ident_char(c),
{
    ident_start(c) || ('0' <= c && c <= '9')
}

/// A token as a flag (a word or not) and its characters.
pub open spec fn token_view(t: Token) -> (bool, Seq<char>) {
    match t {
        Token::Word(w) => (true, w@),
        Token::Punct(c) => (false, seq![c]),
    }
}

pub open spec fn token_views(ts: Seq<Token>) -> Seq<(bool, Seq<char>)> {
    ts.map_values(|t: Token| token_view(t))
}

/// The end of the identifier characters that start at `i`.
pub open spec fn word_end(s: Seq<char>, i: int) -> int
    decreases s.len() - i,
{
    if i < 0 || i >= s.len() || !is_ident_char(s[i]) {
        i
    } else {
        word_end(s, i + 1)
    }
}

/// The end of the line that runs from `i`: the position of its line break, or the end.
pub open spec fn line_end(s: Seq<char>, i: int) -> int
    decreases s.len() - i,
{
    if i < 0 || i >= s.len() || s[i] == '\n' {
        i
    } else {
        line_end(s, i + 1)
    }
}

/// The position just after the first `*/` at or after `i`, or -1 where there is none.
pub open spec fn comment_close(s: Seq<char>, i: int) -> int
    decreases s.len() - i,
{
    if i < 0 || i + 1 >= s.len() {
        -1
    } else if s[i] == '*' && s[i + 1] == '/' {
        i + 2
    } else {
        comment_close(s, i + 1)
    }
}

pub open spec fn starts_line_comment(s: Seq<char>, i: int) -> bool {
    0 <= i < s.len() && (s[i] == '#' || (s[i] == '/' && i + 1 < s.len() && s[i + 1] == '/'))
}

pub open spec fn starts_block_comment(s: Seq<char>, i: int) -> bool {
    0 <= i && i + 1 < s.len() && s[i] == '/' && s[i + 1] == '*'
}

/// The tokens of `s` from position `i`: white space is skipped, and so are comments:
/// `/* ... */`, and from `//` or `#` (a preprocessor line such as `#pragma`) to the end
/// of the line; an unclosed `/*` is a syntax error. Each punctuation mark is a token, a word runs from an identifier start over every identifier character
/// that follows, and any other character is a syntax error.
pub open spec fn lex(s: Seq<char>, i: int) -> Result<Seq<(bool, Seq<char>)>, ParseError>
    decreases s.len() - i,
{
    if i < 0 || i >= s.len() {
        Ok(Seq::empty())
    } else if is_space(s[i]) {
        lex(s, i + 1)
    } else if starts_line_comment(s, i) {
        let j = line_end(s, i);
        if i < j <= s.len() {
            lex(s, j)
        } else {
            Err(ParseError::Syntax)
        }
    } else if starts_block_comment(s, i) {
        let j = comment_close(s, i + 2);
        if i < j <= s.len() {
            lex(s, j)
        } else {
            Err(ParseError::Syntax)
        }
    } else if is_punct(s[i]) {
        match lex(s, i + 1) {
            Ok(ts) => Ok(seq![(false, seq![s[i]])] + ts),
            Err(e) => Err(e),
        }
    } else if is_ident_start(s[i]) {
        let j = word_end(s, i + 1);
        if i < j <= s.len() {
            match lex(s, j) {
                Ok(ts) => Ok(seq![(true, s.subrange(i, j))] + ts),
                Err(e) => Err(e),
            }
        } else {
            Err(ParseError::Syntax)
        }
    } else {
        Err(ParseError::Syntax)
    }
}

/// What the tokens from some position give once `acc` is put in front of them.
pub open spec fn after_tokens(
    acc: Seq<(bool, Seq<char>)>,
    r: Result<Seq<(bool, Seq<char>)>, ParseError>,
) -> Result<Seq<(bool, Seq<char>)>, ParseError> {
    match r {
        Ok(ts) => Ok(acc + ts),
        Err(e) => Err(e),
    }
}

proof fn lemma_word_end_bounds(s: Seq<char>, i: int)
    requires
        0 <= i <= s.len(),
    ensures
        i <= word_end(s, i) <= s.len(),
        forall|k: int| i <= k < word_end(s, i) ==> is_ident_char(#[trigger] s[k]),
    decreases s.len() - i,
{
    if i < s.len() && is_ident_char(s[i]) {
        lemma_word_end_bounds(s, i + 1);
    }
}

/// Splits a schema source into words and punctuation marks as [`lex`] describes.
#[verifier::loop_isolation(false)]
pub fn tokenize(s: &str) -> (r: Result<Vec<Token>, ParseError>)
    ensures
        r matches Ok(v) ==> tokens_wf(v@) && lex(s@, 0) == Ok::<Seq<(bool, Seq<char>)>, ParseError>(
            token_views(v@),
        ),
        r matches Err(e) ==> lex(s@, 0) == Err::<Seq<(bool, Seq<char>)>, ParseError>(e),
{
    let n = s.unicode_len();
    let mut out: Vec<Token> = Vec::new();
    let mut i: usize = 0;
    assert(token_views(out@) =~= Seq::<(bool, Seq<char>)>::empty());
    while i < n
        invariant
            n == s@.len(),
            i <= n,
            tokens_wf(out@),
            lex(s@, 0) == after_tokens(token_views(out@), lex(s@, i as int)),
        decreases n - i,
    {
        let c = s.get_char(i);
        let next_is = |d: char| -> (r: bool)
            ensures
                r == (i + 1 < s@.len() && s@[i + 1] == d),
            { i + 1 < n && s.get_char(i + 1) == d };
        if c == ' ' || c == '\t' || c == '\n' || c == '\r' {
            i = i + 1;
        } else if c == '#' || (c == '/' && next_is('/')) {
            let ghost start = i as int;
            let mut k: usize = i;
            while k < n && s.get_char(k) != '\n'
                invariant
                    n == s@.len(),
                    start <= k <= n,
                    0 <= start < n,
                    s@[start] != '\n',
                    line_end(s@, start) == line_end(s@, k as int),
                decreases n - k,
            {
                k = k + 1;
            }
            proof {
                assert(line_end(s@, k as int) == k);
                if k == start {
                    assert(s@[start] == '\n');
                }
                assert(lex(s@, start) == lex(s@, k as int));
            }
            i = k;
        } else if c == '/' && next_is('*') {
            let ghost start = i as int;
            let mut k: usize = i + 2;
            while k < n - 1 && !(s.get_char(k) == '*' && s.get_char(k + 1) == '/')
                invariant
                    n == s@.len(),
                    0 <= start,
                    start + 2 <= k <= n,
                    comment_close(s@, start + 2) == comment_close(s@, k as int),
                decreases n - k,
            {
                k = k + 1;
            }
            if k >= n - 1 {
                proof {
                    assert(comment_close(s@, k as int) == -1);
                    assert(lex(s@, start) == Err::<Seq<(bool, Seq<char>)>, ParseError>(ParseError::Syntax));
                }
                return Err(ParseError::Syntax);
            }
            proof {
                assert(comment_close(s@, k as int) == k + 2);
                assert(lex(s@, start) == lex(s@, k + 2));
            }
            i = k + 2;
        } else if c == '{' || c == '}' || c == '(' || c == ')' || c == ';' || c == ',' || c == '*' {
            let ghost before = out@;
            out.push(Token::Punct(c));
            proof {
                assert(token_views(out@) =~= token_views(before) + seq![(false, seq![c])]);
                match lex(s@, i + 1) {
                    Ok(ts) => {
                        assert(token_views(before) + (seq![(false, seq![c])] + ts) =~= token_views(out@) + ts);
                    },
                    Err(e) => {},
                }
                assert forall|k: int| 0 <= k < out@.len() implies match #[trigger] out@[k] {
                    Token::Word(w) => is_identifier(w@),
                    Token::Punct(c) => is_punct(c),
                } by {
                    if k < before.len() {
                        assert(out@[k] == before[k]);
                    }
                }
            }
            i = i + 1;
        } else if ident_start(c) {
            let ghost start = i as int;
            let mut w = String::new();
            push_char(&mut w, c);
            i = i + 1;
            assert(w@ =~= s@.subrange(start, i as int));
            while i < n && ident_char(s.get_char(i))
                invariant
                    n == s@.len(),
                    0 <= start < i <= n,
                    w@ == s@.subrange(start, i as int),
                    word_end(s@, start + 1) == word_end(s@, i as int),
                decreases n - i,
            {
                let d = s.get_char(i);
                push_char(&mut w, d);
                assert(s@.subrange(start, i + 1) =~= s@.subrange(start, i as int).push(d));
                i = i + 1;
            }
            proof {
                lemma_word_end_bounds(s@, start + 1);
                assert(word_end(s@, i as int) == i);
                assert forall|k: int| 0 <= k < w@.len() implies is_ident_char(#[trigger] w@[k]) by {
                    assert(w@[k] == s@[start + k]);
                    if k > 0 {
                        assert(start + 1 <= start + k < word_end(s@, start + 1));
                    }
                }
                assert(w@[0] == s@[start]);
            }
            let ghost before = out@;
            let ghost wv = w@;
            out.push(Token::Word(w));
            proof {
                assert(token_views(out@) =~= token_views(before) + seq![(true, wv)]);
                match lex(s@, i as int) {
                    Ok(ts) => {
                        assert(token_views(before) + (seq![(true, wv)] + ts) =~= token_views(out@) + ts);
                    },
                    Err(e) => {},
                }
                assert forall|k: int| 0 <= k < out@.len() implies match #[trigger] out@[k] {
                    Token::Word(w) => is_identifier(w@),
                    Token::Punct(c) => is_punct(c),
                } by {
                    if k < before.len() {
                        assert(out@[k] == before[k]);
                    }
                }
            }
        } else {
            return Err(ParseError::Syntax);
        }
    }
    assert(token_views(out@) + Seq::<(bool, Seq<char>)>::empty() =~= token_views(out@));
    Ok(out)
}

pub open spec fn punct_at(toks: Seq<Token>, pos: int, c: char) -> bool {
    0 <= pos < toks.len() && match toks[pos] {
        Token::Punct(d) => d == c,
        Token::Word(_) => false,
    }
}

pub open spec fn word_at(toks: Seq<Token>, pos: int, w: Seq<char>) -> bool {
    0 <= pos < toks.len() && match toks[pos] {
        Token::Word(v) => v@ == w,
        Token::Punct(_) => false,
    }
}

fn is_punct_at(toks: &Vec<Token>, pos: usize, c: char) -> (r: bool)
    ensures
        r == punct_at(toks@, pos as int, c),
{
    if pos < toks.len() {
        match &toks[pos] {
            Token::Punct(d) => *d == c,
            Token::Word(_) => false,
        }
    } else {
        false
    }
}

fn is_word_at(toks: &Vec<Token>, pos: usize, w: &str) -> (r: bool)
    ensures
        r == word_at(toks@, pos as int, w@),
{
    if pos < toks.len() {
        match &toks[pos] {
            Token::Word(v) => str_eq(v.as_str(), w),
            Token::Punct(_) => false,
        }
    } else {
        false
    }
}

/// The schema type that a type name denotes, if any.
pub open spec fn type_named(w: Seq<char>) -> Option<SchemaType> {
    if w == "int8_t"@ { Some(SchemaType::Int8) }
    else if w == "int16_t"@ { Some(SchemaType::Int16) }
    else if w == "int32_t"@ { Some(SchemaType::Int32) }
    else if w == "int64_t"@ { Some(SchemaType::Int64) }
    else if w == "uint8_t"@ { Some(SchemaType::UInt8) }
    else if w == "uint16_t"@ { Some(SchemaType::UInt16) }
    else if w == "uint32_t"@ { Some(SchemaType::UInt32) }
    else if w == "uint64_t"@ { Some(SchemaType::UInt64) }
    else if w == "bool"@ { Some(SchemaType::Bool) }
    else if w == "string"@ { Some(SchemaType::Str) }
    else if w == "float"@ { Some(SchemaType::Float) }
    else if w == "double"@ { Some(SchemaType::Double) }
    else { None }
}

fn type_of_name(w: &str) -> (r: Option<SchemaType>)
    ensures
        r == type_named(w@),
{
    if str_eq(w, "int8_t") { Some(SchemaType::Int8) }
    else if str_eq(w, "int16_t") { Some(SchemaType::Int16) }
    else if str_eq(w, "int32_t") { Some(SchemaType::Int32) }
    else if str_eq(w, "int64_t") { Some(SchemaType::Int64) }
    else if str_eq(w, "uint8_t") { Some(SchemaType::UInt8) }
    else if str_eq(w, "uint16_t") { Some(SchemaType::UInt16) }
    else if str_eq(w, "uint32_t") { Some(SchemaType::UInt32) }
    else if str_eq(w, "uint64_t") { Some(SchemaType::UInt64) }
    else if str_eq(w, "bool") { Some(SchemaType::Bool) }
    else if str_eq(w, "string") { Some(SchemaType::Str) }
    else if str_eq(w, "float") { Some(SchemaType::Float) }
    else if str_eq(w, "double") { Some(SchemaType::Double) }
    else { None }
}

pub open spec fn word_text(t: Token) -> Seq<char> {
    match t {
        Token::Word(w) => w@,
        Token::Punct(_) => seq![],
    }
}

/// The argument type at `pos` and the position after it.
pub open spec fn spec_type(toks: Seq<Token>, pos: int) -> Result<(SchemaType, int), ParseError> {
    if !(0 <= pos < toks.len()) {
        Err(ParseError::Syntax)
    } else {
        match toks[pos] {
            Token::Word(w) => if w@ == "char"@ {
                if punct_at(toks, pos + 1, '*') {
                    Ok((SchemaType::Str, pos + 2))
                } else {
                    Err(ParseError::UnknownType)
                }
            } else {
                match type_named(w@) {
                    Some(t) => Ok((t, pos + 1)),
                    None => Err(ParseError::UnknownType),
                }
            },
            Token::Punct(_) => Err(ParseError::Syntax),
        }
    }
}

/// One or more argument types separated by commas, starting at `pos`.
pub open spec fn spec_type_list(toks: Seq<Token>, pos: int) -> Result<(Seq<SchemaType>, int), ParseError>
    decreases toks.len() - pos,
{
    match spec_type(toks, pos) {
        Err(e) => Err(e),
        Ok((t, q)) => if pos < q && punct_at(toks, q, ',') {
            match spec_type_list(toks, q + 1) {
                Ok((ts, r)) => Ok((seq![t] + ts, r)),
                Err(e) => Err(e),
            }
        } else {
            Ok((seq![t], q))
        },
    }
}

/// The probe `probe NAME ( TYPES ) ;` at `pos`: its name, its types, and the position after it.
pub open spec fn spec_probe(toks: Seq<Token>, pos: int) -> Result<
    ((Seq<char>, Seq<SchemaType>), int),
    ParseError,
> {
    if !word_at(toks, pos, "probe"@) || !(pos + 1 < toks.len() && toks[pos + 1] is Word)
        || !punct_at(toks, pos + 2, '(') {
        Err(ParseError::Syntax)
    } else {
        let name = word_text(toks[pos + 1]);
        let list = if punct_at(toks, pos + 3, ')') {
            Ok((Seq::<SchemaType>::empty(), pos + 3))
        } else {
            match spec_type_list(toks, pos + 3) {
                Ok((ts, q)) => if punct_at(toks, q, ')') {
                    Ok((ts, q))
                } else {
                    Err(ParseError::Syntax)
                },
                Err(e) => Err(e),
            }
        };
        match list {
            Err(e) => Err(e),
            Ok((ts, q)) => if punct_at(toks, q + 1, ';') {
                Ok(((name, ts), q + 2))
            } else {
                Err(ParseError::Syntax)
            },
        }
    }
}

pub open spec fn has_name(seen: Seq<(Seq<char>, Seq<SchemaType>)>, name: Seq<char>) -> bool {
    exists|i: int| 0 <= i < seen.len() && (#[trigger] seen[i]).0 == name
}

/// The probes from `pos` on, after those already `seen`: as long as a `probe` keyword
/// starts the next declaration, it is read, and a repeated name is an error.
pub open spec fn spec_probes(
    toks: Seq<Token>,
    pos: int,
    seen: Seq<(Seq<char>, Seq<SchemaType>)>,
) -> Result<(Seq<(Seq<char>, Seq<SchemaType>)>, int), ParseError>
    decreases toks.len() - pos,
{
    if !word_at(toks, pos, "probe"@) {
        Ok((seen, pos))
    } else {
        match spec_probe(toks, pos) {
            Err(e) => Err(e),
            Ok((p, q)) => if has_name(seen, p.0) {
                Err(ParseError::DuplicateProbe)
            } else if pos < q {
                spec_probes(toks, q, seen.push(p))
            } else {
                Err(ParseError::Syntax)
            },
        }
    }
}

/// The provider `provider NAME { PROBES }` at the start of the tokens: its name and its
/// probes. Tokens after the closing brace are not read.
pub open spec fn spec_schema(toks: Seq<Token>) -> Result<
    (Seq<char>, Seq<(Seq<char>, Seq<SchemaType>)>),
    ParseError,
> {
    if !word_at(toks, 0, "provider"@) || !(1 < toks.len() && toks[1] is Word) || !punct_at(toks, 2, '{') {
        Err(ParseError::Syntax)
    } else {
        match spec_probes(toks, 3, Seq::empty()) {
            Err(e) => Err(e),
            Ok((ps, q)) => if !punct_at(toks, q, '}') {
                Err(ParseError::Syntax)
            } else if ps.len() == 0 {
                Err(ParseError::NoProbes)
            } else {
                Ok((word_text(toks[1]), ps))
            },
        }
    }
}

/// A probe as name and types.
pub open spec fn probe_view(p: ProbeDefinition) -> (Seq<char>, Seq<SchemaType>) {
    (p.name@, p.types@)
}

pub open spec fn probe_views(ps: Seq<ProbeDefinition>) -> Seq<(Seq<char>, Seq<SchemaType>)> {
    ps.map_values(|p: ProbeDefinition| probe_view(p))
}

/// A definition as provider name and probes.
pub open spec fn definition_view(d: ProviderDefinition) -> (Seq<char>, Seq<(Seq<char>, Seq<SchemaType>)>) {
    (d.name@, probe_views(d.probes@))
}

pub open spec fn parsed_as(
    r: Result<ProviderDefinition, ParseError>,
    s: Result<(Seq<char>, Seq<(Seq<char>, Seq<SchemaType>)>), ParseError>,
) -> bool {
    match r {
        Ok(d) => s == Ok::<(Seq<char>, Seq<(Seq<char>, Seq<SchemaType>)>), ParseError>(definition_view(d)),
        Err(e) => s == Err::<(Seq<char>, Seq<(Seq<char>, Seq<SchemaType>)>), ParseError>(e),
    }
}

fn parse_type(toks: &Vec<Token>, pos: usize) -> (r: Result<(SchemaType, usize), ParseError>)
    ensures
        r matches Ok((t, q)) ==> pos < q <= toks@.len(),
        match r {
            Ok((t, q)) => spec_type(toks@, pos as int) == Ok::<(SchemaType, int), ParseError>((t, q as int)),
            Err(e) => spec_type(toks@, pos as int) == Err::<(SchemaType, int), ParseError>(e),
        },
{
    if pos >= toks.len() {
        return Err(ParseError::Syntax);
    }
    match &toks[pos] {
        Token::Word(w) => {
            if str_eq(w.as_str(), "char") {
                if is_punct_at(toks, pos + 1, '*') {
                    Ok((SchemaType::Str, pos + 2))
                } else {
                    Err(ParseError::UnknownType)
                }
            } else {
                match type_of_name(w.as_str()) {
                    Some(t) => Ok((t, pos + 1)),
                    None => Err(ParseError::UnknownType),
                }
            }
        },
        Token::Punct(_) => Err(ParseError::Syntax),
    }
}

/// What a type list from some position gives once `acc` is put in front of its types.
pub open spec fn after(
    acc: Seq<SchemaType>,
    r: Result<(Seq<SchemaType>, int), ParseError>,
) -> Result<(Seq<SchemaType>, int), ParseError> {
    match r {
        Ok((ts, q)) => Ok((acc + ts, q)),
        Err(e) => Err(e),
    }
}

fn parse_type_list(toks: &Vec<Token>, pos: usize) -> (r: Result<(Vec<SchemaType>, usize), ParseError>)
    requires
        pos <= toks@.len(),
    ensures
        r matches Ok((ts, q)) ==> pos < q <= toks@.len(),
        match r {
            Ok((ts, q)) => spec_type_list(toks@, pos as int) == Ok::<(Seq<SchemaType>, int), ParseError>((ts@, q as int)),
            Err(e) => spec_type_list(toks@, pos as int) == Err::<(Seq<SchemaType>, int), ParseError>(e),
        },
{
    let n = toks.len();
    let mut types: Vec<SchemaType> = Vec::new();
    let mut q: usize = pos;
    loop
        invariant
            n == toks@.len(),
            pos <= q <= n,
            types@.len() == 0 ==> q == pos,
            spec_type_list(toks@, pos as int) == after(types@, spec_type_list(toks@, q as int)),
        decreases n - q,
    {
        let (t, next) = match parse_type(toks, q) {
            Ok(x) => x,
            Err(e) => {
                return Err(e);
            },
        };
        let ghost prev = types@;
        types.push(t);
        assert(types@ =~= prev + seq![t]);
        if q < next && is_punct_at(toks, next, ',') {
            assert(next < n);
            proof {
                match spec_type_list(toks@, next + 1) {
                    Ok((ts, r)) => {
                        assert(prev + (seq![t] + ts) =~= types@ + ts);
                    },
                    Err(e) => {},
                }
            }
            q = next + 1;
        } else {
            assert(spec_type_list(toks@, q as int) == Ok::<(Seq<SchemaType>, int), ParseError>((seq![t], next as int)));
            return Ok((types, next));
        }
    }
}

/// Reads `probe NAME ( TYPE , ... ) ;` at `pos`. Returns the probe and the position
/// after it.
fn parse_probe(toks: &Vec<Token>, pos: usize) -> (r: Result<(ProbeDefinition, usize), ParseError>)
    requires
        tokens_wf(toks@),
    ensures
        r matches Ok((p, q)) ==> pos < q <= toks@.len() && is_identifier(p.name@),
        match r {
            Ok((p, q)) => spec_probe(toks@, pos as int) == Ok::<((Seq<char>, Seq<SchemaType>), int), ParseError>(
                (probe_view(p), q as int),
            ),
            Err(e) => spec_probe(toks@, pos as int) == Err::<((Seq<char>, Seq<SchemaType>), int), ParseError>(e),
        },
{
    if !is_word_at(toks, pos, "probe") {
        return Err(ParseError::Syntax);
    }
    let n = toks.len();
    assert(pos < n);
    let name = if pos + 1 < n {
        match &toks[pos + 1] {
            Token::Word(w) => w.clone(),
            Token::Punct(_) => {
                return Err(ParseError::Syntax);
            },
        }
    } else {
        return Err(ParseError::Syntax);
    };
    assert(name@ == word_text(toks@[pos + 1]));
    assert(is_identifier(name@));
    if !is_punct_at(toks, pos + 2, '(') {
        return Err(ParseError::Syntax);
    }
    let (types, q) = if is_punct_at(toks, pos + 3, ')') {
        (Vec::new(), pos + 3)
    } else {
        match parse_type_list(toks, pos + 3) {
            Ok((ts, q)) => {
                if !is_punct_at(toks, q, ')') {
                    return Err(ParseError::Syntax);
                }
                (ts, q)
            },
            Err(e) => {
                return Err(e);
            },
        }
    };
    assert(q < n);
    if !is_punct_at(toks, q + 1, ';') {
        return Err(ParseError::Syntax);
    }
    let p = ProbeDefinition { name, types };
    assert(probe_view(p) == (name@, types@));
    Ok((p, q + 2))
}

/// Parses the tokens of a schema: `provider NAME { PROBE ... }`, where each probe is
/// `probe NAME ( TYPE , ... ) ;` and a type is `char *` or one of the names that
/// [`type_named`] lists. Only the first provider is read.
#[verifier::loop_isolation(false)]
pub fn parse_tokens(toks: &Vec<Token>) -> (r: Result<ProviderDefinition, ParseError>)
    requires
        tokens_wf(toks@),
    ensures
        parsed_as(r, spec_schema(toks@)),
        r matches Ok(d) ==> d.wf(),
{
    if !is_word_at(toks, 0, "provider") {
        return Err(ParseError::Syntax);
    }
    let name = if 1 < toks.len() {
        match &toks[1] {
            Token::Word(w) => w.clone(),
            Token::Punct(_) => {
                return Err(ParseError::Syntax);
            },
        }
    } else {
        return Err(ParseError::Syntax);
    };
    assert(name@ == word_text(toks@[1]));
    assert(is_identifier(name@));
    if !is_punct_at(toks, 2, '{') {
        return Err(ParseError::Syntax);
    }
    let mut probes: Vec<ProbeDefinition> = Vec::new();
    let mut pos: usize = 3;
    assert(probe_views(probes@) =~= Seq::<(Seq<char>, Seq<SchemaType>)>::empty());
    while is_word_at(toks, pos, "probe")
        invariant
            tokens_wf(toks@),
            word_at(toks@, 0, "provider"@),
            1 < toks@.len() && toks@[1] is Word,
            punct_at(toks@, 2, '{'),
            name@ == word_text(toks@[1]),
            3 <= pos <= toks@.len(),
            spec_probes(toks@, 3, Seq::empty()) == spec_probes(toks@, pos as int, probe_views(probes@)),
            forall|i: int| 0 <= i < probes@.len() ==> is_identifier(#[trigger] probes@[i].name@),
            forall|i: int, j: int|
                0 <= i < j < probes@.len() ==> #[trigger] probes@[i].name@ != #[trigger] probes@[j].name@,
        decreases toks@.len() - pos,
    {
        let (probe, next) = match parse_probe(toks, pos) {
            Ok(x) => x,
            Err(e) => {
                return Err(e);
            },
        };
        let mut k: usize = 0;
        while k < probes.len()
            invariant
                k <= probes@.len(),
                forall|i: int| 0 <= i < k ==> (#[trigger] probes@[i]).name@ != probe.name@,
            decreases probes@.len() - k,
        {
            if str_eq(probes[k].name.as_str(), probe.name.as_str()) {
                proof {
                    assert(probe_views(probes@)[k as int].0 == probe.name@);
                    assert(has_name(probe_views(probes@), probe.name@));
                    assert(spec_probes(toks@, pos as int, probe_views(probes@))
                        == Err::<(Seq<(Seq<char>, Seq<SchemaType>)>, int), ParseError>(ParseError::DuplicateProbe));
                }
                return Err(ParseError::DuplicateProbe);
            }
            k = k + 1;
        }
        proof {
            if has_name(probe_views(probes@), probe.name@) {
                let i = choose|i: int| 0 <= i < probe_views(probes@).len() && (#[trigger] probe_views(probes@)[i]).0 == probe.name@;
                assert(probes@[i].name@ == probe.name@);
            }
        }
        let ghost before = probes@;
        probes.push(probe);
        proof {
            assert(probe_views(probes@) =~= probe_views(before).push(probe_view(probe)));
            assert forall|i: int, j: int|
                0 <= i < j < probes@.len() implies #[trigger] probes@[i].name@ != #[trigger] probes@[j].name@ by {
                if j < before.len() {
                    assert(probes@[i] == before[i] && probes@[j] == before[j]);
                } else {
                    assert(probes@[i] == before[i]);
                }
            }
            assert forall|i: int| 0 <= i < probes@.len() implies is_identifier(#[trigger] probes@[i].name@) by {
                if i < before.len() {
                    assert(probes@[i] == before[i]);
                }
            }
        }
        pos = next;
    }
    if !is_punct_at(toks, pos, '}') {
        return Err(ParseError::Syntax);
    }
    if probes.len() == 0 {
        return Err(ParseError::NoProbes);
    }
    Ok(ProviderDefinition { name, probes })
}

/// Parses a schema source: its tokens, as [`lex`] gives them, read as [`parse_tokens`]
/// reads them.
pub fn parse_schema(s: &str) -> (r: Result<ProviderDefinition, ParseError>)
    ensures
        r matches Ok(d) ==> d.wf(),
        lex(s@, 0) matches Err(e) ==> r == Err::<ProviderDefinition, ParseError>(e),
        lex(s@, 0) matches Ok(vs) ==> exists|toks: Seq<Token>|
            token_views(toks) == vs && tokens_wf(toks) && parsed_as(r, #[trigger] spec_schema(toks)),
{
    let toks = tokenize(s)?;
    let r = parse_tokens(&toks);
    assert(token_views(toks@) == token_views(toks@) && parsed_as(r, spec_schema(toks@)));
    r
}

} // verus!
