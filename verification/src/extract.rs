//! The symbol-resolution engine: detect the language of a source file from
//! its extension, parse the source through the external parsing engine,
//! build the structural pattern for the requested symbol, and either return
//! the exact source text of the first matching declaration or list every
//! declared symbol without duplicates.
//!
//! The engine is deterministic in the grammar, the source text and the
//! pattern, so its two acts are named by the uninterpreted functions
//! `engine_parses` and `engine_caps`; every entry point's result is then a
//! spec-level function of its arguments alone.

use vstd::prelude::*;
use vstd::string::StrSliceExecFns;
use vstd::string::StringExecFns;
use streaming_iterator::StreamingIterator;
use tree_sitter::Parser;
use tree_sitter::Query;
use tree_sitter::QueryCursor;
use crate::languages::python;
use crate::languages::rust;
use crate::languages::typescript;
use crate::text::acceptable_symbol;
use crate::text::find_first_dot;
use crate::text::is_dotted;
use crate::text::is_ident;
use crate::text::lower_matches;
use crate::text::member_part;
use crate::text::owner_part;
use crate::text::str_eq;
use crate::text::str_eq_lower;

verus! {

/// A grammar of the external parsing engine.
#[verifier::external_type_specification]
#[verifier::external_body]
pub struct ExLanguage(tree_sitter::Language);

/// A typed failure of one resolution or listing request. Every error is
/// terminal for the request; there are no partial results.
#[derive(Debug, Clone, Copy, PartialEq, Eq, Structural)]
pub enum ExtractError {
    /// The file's extension maps to no supported language.
    UnsupportedFileType,
    /// The parsing engine produced no tree for the source text.
    ParseFailure,
    /// The engine rejected a generated pattern; an internal defect, since the
    /// builders only produce well-formed patterns.
    QueryCompileError,
    /// A plain or typed lookup exhausted every applicable kind with no match.
    SymbolNotFound,
    /// A dotted `Owner.member` lookup produced no match.
    MethodNotFound,
    /// An interface lookup was requested for a language without interfaces.
    InterfaceNotSupported,
}

/// The grammar chosen for a file: one per supported extension group.
#[derive(Debug, Clone, Copy, PartialEq, Eq, Structural)]
pub enum Lang {
    Python,
    Rust,
    TypeScript,
    Tsx,
}

/// The pattern family a file uses; the TSX grammar shares the JS/TS
/// patterns.
#[derive(Debug, Clone, Copy, PartialEq, Eq, Structural)]
pub enum LangType {
    Python,
    Rust,
    TypeScript,
}

/// The kind of declaration a typed lookup asks for.
#[derive(Debug, Clone, Copy, PartialEq, Eq, Structural)]
pub enum SymbolKind {
    Function,
    Class,
    Interface,
}

/// One capture handed back by a pattern evaluation: the capture's tag from
/// the pattern text, and the exact source text the captured node spans.
#[derive(Debug, Clone)]
pub struct Capture {
    pub tag: String,
    pub text: String,
}

/// The mathematical content of a `Capture`.
pub ghost struct CaptureV {
    pub tag: Seq<char>,
    pub text: Seq<char>,
}

impl View for Capture {
    type V = CaptureV;

    open spec fn view(&self) -> CaptureV {
        CaptureV { tag: self.tag@, text: self.text@ }
    }
}

/// The mathematical content of a capture list.
pub open spec fn caps_views(caps: Seq<Capture>) -> Seq<CaptureV> {
    caps.map_values(|c: Capture| c@)
}

/// A declared symbol reported by a listing: its name as written in the
/// source, and its kind tag (`"func"`, `"class"`, `"trait"`, ...).
#[derive(Debug, Clone, PartialEq, Eq)]
pub struct Symbol {
    pub name: String,
    pub kind: String,
}

/// The mathematical content of a `Symbol`.
pub ghost struct SymbolV {
    pub name: Seq<char>,
    pub kind: Seq<char>,
}

impl View for Symbol {
    type V = SymbolV;

    open spec fn view(&self) -> SymbolV {
        SymbolV { name: self.name@, kind: self.kind@ }
    }
}

/// `t` occurs contiguously somewhere in `s`.
pub open spec fn is_substring(t: Seq<char>, s: Seq<char>) -> bool {
    exists|i: int, j: int| 0 <= i <= j <= s.len() && t == s.subrange(i, j)
}

/// The fixed extension table: which grammar serves a file extension,
/// compared case-insensitively.
pub open spec fn spec_detect_language(e: Seq<char>) -> Option<Lang> {
    if lower_matches(e, "py"@) {
        Some(Lang::Python)
    } else if lower_matches(e, "rs"@) {
        Some(Lang::Rust)
    } else if lower_matches(e, "tsx"@) {
        Some(Lang::Tsx)
    } else if lower_matches(e, "ts"@) || lower_matches(e, "mts"@) || lower_matches(e, "cts"@)
        || lower_matches(e, "js"@) || lower_matches(e, "mjs"@) || lower_matches(e, "cjs"@)
        || lower_matches(e, "jsx"@) {
        Some(Lang::TypeScript)
    } else {
        None
    }
}

/// The pattern family of an extension: Python and Rust have their own;
/// every other supported extension uses the JS/TS patterns.
pub open spec fn spec_lang_type(e: Seq<char>) -> LangType {
    if lower_matches(e, "py"@) {
        LangType::Python
    } else if lower_matches(e, "rs"@) {
        LangType::Rust
    } else {
        LangType::TypeScript
    }
}

/// Map a file extension to the grammar that serves it, or `None` for an
/// unsupported extension.
pub fn detect_language(ext: &str) -> (r: Option<Lang>)
    ensures
        r == spec_detect_language(ext@),
{
    if str_eq_lower(ext, "py") {
        Some(Lang::Python)
    } else if str_eq_lower(ext, "rs") {
        Some(Lang::Rust)
    } else if str_eq_lower(ext, "tsx") {
        Some(Lang::Tsx)
    } else if str_eq_lower(ext, "ts") || str_eq_lower(ext, "mts") || str_eq_lower(ext, "cts")
        || str_eq_lower(ext, "js") || str_eq_lower(ext, "mjs") || str_eq_lower(ext, "cjs")
        || str_eq_lower(ext, "jsx") {
        Some(Lang::TypeScript)
    } else {
        None
    }
}

/// Map a file extension to its pattern family.
pub fn lang_type(ext: &str) -> (r: LangType)
    ensures
        r == spec_lang_type(ext@),
{
    if str_eq_lower(ext, "py") {
        LangType::Python
    } else if str_eq_lower(ext, "rs") {
        LangType::Rust
    } else {
        LangType::TypeScript
    }
}

/// The grammar object for a detected language.
fn grammar_of(lang: Lang) -> tree_sitter::Language {
    match lang {
        Lang::Python => python::language(),
        Lang::Rust => rust::language(),
        Lang::TypeScript => typescript::language_typescript(),
        Lang::Tsx => typescript::language_tsx(),
    }
}

/// Whether the parsing engine produces a syntax tree for `source` under the
/// grammar of `lang`. The engine is deterministic, so this is a function of
/// the two arguments.
pub uninterp spec fn engine_parses(lang: Lang, source: Seq<char>) -> bool;

/// The captures — tag and spanned source text, in evaluation order — that
/// the engine yields when `pattern` is evaluated over the tree of `source`
/// under the grammar of `lang`; `None` when the pattern does not compile.
/// The engine is deterministic, so this is a function of the arguments.
pub uninterp spec fn engine_caps(lang: Lang, source: Seq<char>, pattern: Seq<char>) -> Option<
    Seq<CaptureV>,
>;

/// Relies on tree_sitter::Parser (new, set_language, parse): whether the
/// engine builds a tree for `source` under the grammar of `lang`. The
/// parse is deterministic in those two, so its success is what
/// `engine_parses` names.
#[verifier::external_body]
fn parse_ok(lang: Lang, source: &str) -> (r: bool)
    ensures
        r == engine_parses(lang, source@),
{
    let mut parser = Parser::new();
    if parser.set_language(&grammar_of(lang)).is_err() {
        return false;
    }
    parser.parse(source, None).is_some()
}

/// Relies on tree_sitter::Query::new and QueryCursor::matches, with the
/// pattern's `#eq?` text predicates applied during match iteration. Both
/// are deterministic in the grammar, the source and the pattern, so their
/// outcome is what `engine_caps` names; `None` means the pattern did not
/// compile. The tree queried here is parsed from this same `source`, so
/// every capture's byte range spans a slice of it.
#[verifier::external_body]
fn run_caps(lang: Lang, source: &str, pattern: &str) -> (r: Option<Vec<Capture>>)
    requires
        engine_parses(lang, source@),
    ensures
        match r {
            Some(caps) => engine_caps(lang, source@, pattern@) == Some(caps_views(caps@)) && forall|
                i: int,
            |
                0 <= i < caps@.len() ==> is_substring(#[trigger] caps@[i]@.text, source@),
            None => engine_caps(lang, source@, pattern@) is None,
        },
{
    let mut parser = Parser::new();
    let g = grammar_of(lang);
    parser.set_language(&g).ok()?;
    let tree = parser.parse(source, None)?;
    let query = Query::new(&g, pattern).ok()?;
    let mut cursor = QueryCursor::new();
    let mut matches = cursor.matches(&query, tree.root_node(), source.as_bytes());
    let mut out: Vec<Capture> = Vec::new();
    while let Some(m) = matches.next() {
        for cap in m.captures() {
            out.push(Capture { tag: query.capture_names()[cap.index as usize].to_string(), text: source.get(cap.node.byte_range()).unwrap_or("").to_string() });
        }
    }
    Some(out)
}

/// The text of the first capture in `caps` whose tag equals `tag`, in
/// evaluation order; the winner of one pattern evaluation.
pub open spec fn first_with_tag(caps: Seq<CaptureV>, tag: Seq<char>) -> Option<Seq<char>>
    decreases caps.len(),
{
    if caps.len() == 0 {
        None
    } else if caps[0].tag == tag {
        Some(caps[0].text)
    } else {
        first_with_tag(caps.drop_first(), tag)
    }
}

/// A winning text always belongs to one of the captures.
pub proof fn lemma_first_with_tag_member(caps: Seq<CaptureV>, tag: Seq<char>)
    requires
        first_with_tag(caps, tag) is Some,
    ensures
        exists|i: int|
            0 <= i < caps.len() && #[trigger] caps[i].text == first_with_tag(caps, tag)->Some_0,
    decreases caps.len(),
{
    if caps.len() == 0 {
    } else if caps[0].tag == tag {
        assert(caps[0].text == first_with_tag(caps, tag)->Some_0);
    } else {
        lemma_first_with_tag_member(caps.drop_first(), tag);
        let i = choose|i: int|
            0 <= i < caps.drop_first().len() && #[trigger] caps.drop_first()[i].text
                == first_with_tag(caps.drop_first(), tag)->Some_0;
        assert(caps[i + 1].text == first_with_tag(caps, tag)->Some_0);
    }
}

/// Select the first capture tagged `tag` and hand back its text: the
/// single-winner rule of match selection.
pub fn select_first(caps: &Vec<Capture>, tag: &str) -> (r: Option<String>)
    ensures
        match r {
            Some(t) => first_with_tag(caps_views(caps@), tag@) == Some(t@),
            None => first_with_tag(caps_views(caps@), tag@) is None,
        },
{
    let ghost cv = caps_views(caps@);
    let n = caps.len();
    let mut i: usize = 0;
    proof {
        assert(cv.skip(0) =~= cv);
    }
    while i < n
        invariant
            cv == caps_views(caps@),
            n == caps@.len(),
            cv.len() == n,
            0 <= i <= n,
            first_with_tag(cv, tag@) == first_with_tag(cv.skip(i as int), tag@),
        decreases n - i,
    {
        proof {
            assert(cv[i as int] == caps@[i as int]@);
            assert(cv.skip(i as int)[0] == cv[i as int]);
            assert(cv.skip(i as int).drop_first() =~= cv.skip(i as int + 1));
        }
        if str_eq(caps[i].tag.as_str(), tag) {
            return Some(caps[i].text.clone());
        }
        i = i + 1;
    }
    proof {
        assert(cv.skip(n as int).len() == 0);
    }
    None
}

/// The capture tag that marks a whole interface-kind declaration: traits
/// for Rust, interfaces for the JS/TS family.
pub open spec fn spec_interface_tag(lt: LangType) -> Seq<char> {
    if lt == LangType::Rust {
        "trait"@
    } else {
        "interface"@
    }
}

/// The winner of an unqualified lookup, given the captures of the three
/// kind patterns: kinds are attempted in the fixed order function, class,
/// interface, and the first kind with a match wins. The dynamic scripting
/// language has no interfaces, so its interface captures are never
/// consulted.
pub open spec fn fallback_spec(
    lt: LangType,
    fcaps: Seq<CaptureV>,
    ccaps: Seq<CaptureV>,
    icaps: Seq<CaptureV>,
) -> Option<Seq<char>> {
    if first_with_tag(fcaps, "function"@) is Some {
        first_with_tag(fcaps, "function"@)
    } else if first_with_tag(ccaps, "class"@) is Some {
        first_with_tag(ccaps, "class"@)
    } else if lt != LangType::Python {
        first_with_tag(icaps, spec_interface_tag(lt))
    } else {
        None
    }
}

/// Decide an unqualified lookup from the captures the three kind patterns
/// produced: the first kind in the order function, class, interface that
/// has a match wins; a file with none of them reports `SymbolNotFound`.
pub fn resolve_plain(
    lt: LangType,
    fcaps: &Vec<Capture>,
    ccaps: &Vec<Capture>,
    icaps: &Vec<Capture>,
) -> (r: Result<String, ExtractError>)
    ensures
        match fallback_spec(lt, caps_views(fcaps@), caps_views(ccaps@), caps_views(icaps@)) {
            Some(t) => r matches Ok(s) && s@ == t,
            None => r == Result::<String, ExtractError>::Err(ExtractError::SymbolNotFound),
        },
{
    if let Some(t) = select_first(fcaps, "function") {
        return Ok(t);
    }
    if let Some(t) = select_first(ccaps, "class") {
        return Ok(t);
    }
    if lt != LangType::Python {
        let itag = if lt == LangType::Rust {
            "trait"
        } else {
            "interface"
        };
        proof {
            assert(itag@ == spec_interface_tag(lt));
        }
        if let Some(t) = select_first(icaps, itag) {
            return Ok(t);
        }
    }
    Err(ExtractError::SymbolNotFound)
}

/// The fallback order is observable: whenever the function pattern has any
/// match, an unqualified lookup returns the function's text, never a
/// same-named class's or interface's.
pub proof fn lemma_fallback_prefers_function(
    lt: LangType,
    fcaps: Seq<CaptureV>,
    ccaps: Seq<CaptureV>,
    icaps: Seq<CaptureV>,
)
    requires
        first_with_tag(fcaps, "function"@) is Some,
    ensures
        fallback_spec(lt, fcaps, ccaps, icaps) == first_with_tag(fcaps, "function"@),
{
}

/// Decide a dotted `Owner.member` lookup from the captures its pattern
/// produced: the first capture tagged as the method wins; none means
/// `MethodNotFound`.
pub fn resolve_method(caps: &Vec<Capture>) -> (r: Result<String, ExtractError>)
    ensures
        match first_with_tag(caps_views(caps@), "method"@) {
            Some(t) => r matches Ok(s) && s@ == t,
            None => r == Result::<String, ExtractError>::Err(ExtractError::MethodNotFound),
        },
{
    match select_first(caps, "method") {
        Some(t) => Ok(t),
        None => Err(ExtractError::MethodNotFound),
    }
}

/// A capture tag that carries a declared name: it ends in `_name`.
pub open spec fn is_name_tag(tag: Seq<char>) -> bool {
    tag.len() >= 5 && tag.subrange(tag.len() - 5, tag.len() as int) == "_name"@
}

/// The kind a name-carrying tag announces: the tag with its `_name` suffix
/// stripped.
pub open spec fn kind_of_tag(tag: Seq<char>) -> Seq<char> {
    tag.take(tag.len() - 5)
}

/// Whether the listing already holds this exact `(name, kind)` pair.
pub open spec fn contains_pair(s: Seq<SymbolV>, name: Seq<char>, kind: Seq<char>) -> bool {
    exists|k: int| 0 <= k < s.len() && s[k].name == name && s[k].kind == kind
}

/// The listing derived from one evaluation of the catch-all pattern: every
/// name-carrying capture contributes its text and its tag's kind, in
/// evaluation order, except that a `(name, kind)` pair seen before is
/// silently dropped.
pub open spec fn symbols_of(caps: Seq<CaptureV>) -> Seq<SymbolV>
    decreases caps.len(),
{
    if caps.len() == 0 {
        Seq::empty()
    } else {
        let prev = symbols_of(caps.drop_last());
        let c = caps.last();
        if is_name_tag(c.tag) && !contains_pair(prev, c.text, kind_of_tag(c.tag)) {
            prev.push(SymbolV { name: c.text, kind: kind_of_tag(c.tag) })
        } else {
            prev
        }
    }
}

/// The mathematical content of a listing.
pub open spec fn sym_views(s: Seq<Symbol>) -> Seq<SymbolV> {
    s.map_values(|x: Symbol| x@)
}

/// No two entries of `s` agree on both name and kind.
pub open spec fn no_dup_pairs(s: Seq<SymbolV>) -> bool {
    forall|i: int, j: int|
        0 <= i < j < s.len() ==> !(s[i].name == s[j].name && s[i].kind == s[j].kind)
}

/// A listing never holds a duplicate `(name, kind)` pair, however many
/// overlapping pattern alternatives matched one declaration.
pub proof fn lemma_listing_no_duplicates(caps: Seq<CaptureV>)
    ensures
        no_dup_pairs(symbols_of(caps)),
    decreases caps.len(),
{
    if caps.len() == 0 {
    } else {
        lemma_listing_no_duplicates(caps.drop_last());
        let prev = symbols_of(caps.drop_last());
        let s = symbols_of(caps);
        let c = caps.last();
        if is_name_tag(c.tag) && !contains_pair(prev, c.text, kind_of_tag(c.tag)) {
            assert forall|i: int, j: int| 0 <= i < j < s.len() implies !(s[i].name == s[j].name
                && s[i].kind == s[j].kind) by {
                if j < s.len() - 1 {
                    assert(!(prev[i].name == prev[j].name && prev[i].kind == prev[j].kind));
                } else {
                    assert(!(prev[i].name == c.text && prev[i].kind == kind_of_tag(c.tag)));
                }
            }
        }
    }
}

/// Listing order is stable: entries sit at their first-seen positions, so
/// evaluating further captures only appends to what an earlier prefix of the
/// evaluation produced.
pub proof fn lemma_listing_order_stable(caps: Seq<CaptureV>, more: Seq<CaptureV>)
    ensures
        symbols_of(caps).is_prefix_of(symbols_of(caps + more)),
    decreases more.len(),
{
    if more.len() == 0 {
        assert(caps + more =~= caps);
    } else {
        lemma_listing_order_stable(caps, more.drop_last());
        assert((caps + more).drop_last() =~= caps + more.drop_last());
        let a = symbols_of(caps);
        let prev = symbols_of(caps + more.drop_last());
        let s = symbols_of(caps + more);
        // s is prev, possibly with one entry appended; the prefix survives both.
        assert(a.len() <= prev.len() <= s.len());
        assert forall|i: int| 0 <= i < a.len() implies a[i] == s[i] by {
            assert(a[i] == prev.subrange(0, a.len() as int)[i]);
            assert(prev[i] == s[i]);
        }
        assert(a =~= s.subrange(0, a.len() as int));
    }
}

/// Every name in a listing is the text of one of the captures.
pub proof fn lemma_symbol_names_from_captures(caps: Seq<CaptureV>)
    ensures
        forall|k: int|
            0 <= k < symbols_of(caps).len() ==> exists|i: int|
                0 <= i < caps.len() && #[trigger] symbols_of(caps)[k].name == caps[i].text,
    decreases caps.len(),
{
    if caps.len() == 0 {
    } else {
        lemma_symbol_names_from_captures(caps.drop_last());
        let prev = symbols_of(caps.drop_last());
        let s = symbols_of(caps);
        assert forall|k: int| 0 <= k < s.len() implies exists|i: int|
            0 <= i < caps.len() && #[trigger] s[k].name == caps[i].text by {
            if k < prev.len() {
                let i = choose|i: int|
                    0 <= i < caps.drop_last().len() && #[trigger] prev[k].name
                        == caps.drop_last()[i].text;
                assert(s[k].name == caps[i].text);
            } else {
                assert(s[k].name == caps[caps.len() - 1].text);
            }
        }
    }
}

/// Whether the listing built so far already holds the pair `(name, kind)`.
fn contains_symbol(v: &Vec<Symbol>, name: &str, kind: &str) -> (r: bool)
    ensures
        r == contains_pair(sym_views(v@), name@, kind@),
{
    let n = v.len();
    let mut j: usize = 0;
    while j < n
        invariant
            n == v@.len(),
            0 <= j <= n,
            forall|k: int|
                0 <= k < j ==> !(#[trigger] sym_views(v@)[k].name == name@ && sym_views(
                    v@,
                )[k].kind == kind@),
        decreases n - j,
    {
        if str_eq(v[j].name.as_str(), name) && str_eq(v[j].kind.as_str(), kind) {
            proof {
                assert(sym_views(v@)[j as int].name == name@);
            }
            return true;
        }
        j = j + 1;
    }
    false
}

/// Turn the captures of one catch-all evaluation into the listing: keep
/// each `(name, kind)` pair once, at its first occurrence, in evaluation
/// order.
pub fn collect_symbols(caps: &Vec<Capture>) -> (r: Vec<Symbol>)
    ensures
        sym_views(r@) == symbols_of(caps_views(caps@)),
{
    let ghost cv = caps_views(caps@);
    let n = caps.len();
    let mut out: Vec<Symbol> = Vec::new();
    let mut i: usize = 0;
    proof {
        assert(cv.take(0) =~= Seq::<CaptureV>::empty());
        assert(sym_views(out@) =~= symbols_of(cv.take(0)));
    }
    while i < n
        invariant
            cv == caps_views(caps@),
            n == caps@.len(),
            cv.len() == n,
            0 <= i <= n,
            sym_views(out@) == symbols_of(cv.take(i as int)),
        decreases n - i,
    {
        proof {
            assert(cv[i as int] == caps@[i as int]@);
            assert(cv.take(i as int + 1).drop_last() =~= cv.take(i as int));
            assert(cv.take(i as int + 1).last() == cv[i as int]);
        }
        let tag_len = caps[i].tag.as_str().unicode_len();
        if tag_len >= 5 {
            let kind = caps[i].tag.as_str().substring_char(0, tag_len - 5);
            let suffix = caps[i].tag.as_str().substring_char(tag_len - 5, tag_len);
            if str_eq(suffix, "_name") {
                proof {
                    assert(is_name_tag(cv[i as int].tag));
                    assert(kind@ =~= kind_of_tag(cv[i as int].tag));
                }
                if !contains_symbol(&out, caps[i].text.as_str(), kind) {
                    let sym = Symbol { name: caps[i].text.clone(), kind: String::from_str(kind) };
                    proof {
                        assert(sym_views(out@.push(sym)) =~= sym_views(out@).push(sym@));
                    }
                    out.push(sym);
                }
            } else {
                proof {
                    assert(cv[i as int].tag.subrange(tag_len - 5, tag_len as int) != "_name"@);
                }
            }
        }
        i = i + 1;
    }
    proof {
        assert(cv.take(n as int) =~= cv);
    }
    out
}

/// The pattern for one (language, kind) pair, or `None` where the language
/// lacks the kind: only the dynamic scripting language lacks interfaces.
pub open spec fn kind_query_spec(lt: LangType, kind: SymbolKind, name: Seq<char>) -> Option<
    Seq<char>,
> {
    match kind {
        SymbolKind::Function => match lt {
            LangType::Python => Some(python::function_query_spec(name)),
            LangType::Rust => Some(rust::function_query_spec(name)),
            LangType::TypeScript => Some(typescript::function_query_spec(name)),
        },
        SymbolKind::Class => match lt {
            LangType::Python => Some(python::class_query_spec(name)),
            LangType::Rust => Some(rust::class_query_spec(name)),
            LangType::TypeScript => Some(typescript::class_query_spec(name)),
        },
        SymbolKind::Interface => match lt {
            LangType::Python => None,
            LangType::Rust => Some(rust::trait_query_spec(name)),
            LangType::TypeScript => Some(typescript::interface_query_spec(name)),
        },
    }
}

/// The method pattern for one language, over the owner and member names.
pub open spec fn spec_method_query(lt: LangType, owner: Seq<char>, member: Seq<char>) -> Seq<
    char,
> {
    match lt {
        LangType::Python => python::method_query_spec(owner, member),
        LangType::Rust => rust::method_query_spec(owner, member),
        LangType::TypeScript => typescript::method_query_spec(owner, member),
    }
}

/// The catch-all listing pattern for one language.
pub open spec fn spec_list_query(lt: LangType) -> Seq<char> {
    match lt {
        LangType::Python => python::list_query_spec(),
        LangType::Rust => rust::list_query_spec(),
        LangType::TypeScript => typescript::list_query_spec(),
    }
}

/// The capture tag that marks the whole declaration for one (language,
/// kind) pair.
pub open spec fn kind_tag_spec(lt: LangType, kind: SymbolKind) -> Seq<char> {
    match kind {
        SymbolKind::Function => "function"@,
        SymbolKind::Class => "class"@,
        SymbolKind::Interface => spec_interface_tag(lt),
    }
}

/// Build the lookup pattern for one kind, or report that the language has
/// no such kind.
fn build_kind_query(lt: LangType, kind: SymbolKind, name: &str) -> (r: Option<String>)
    requires
        is_ident(name@),
    ensures
        match r {
            Some(q) => kind_query_spec(lt, kind, name@) == Some(q@),
            None => kind_query_spec(lt, kind, name@) is None,
        },
{
    match kind {
        SymbolKind::Function => match lt {
            LangType::Python => Some(python::function_query(name)),
            LangType::Rust => Some(rust::function_query(name)),
            LangType::TypeScript => Some(typescript::function_query(name)),
        },
        SymbolKind::Class => match lt {
            LangType::Python => Some(python::class_query(name)),
            LangType::Rust => Some(rust::class_query(name)),
            LangType::TypeScript => Some(typescript::class_query(name)),
        },
        SymbolKind::Interface => match lt {
            LangType::Python => None,
            LangType::Rust => Some(rust::trait_query(name)),
            LangType::TypeScript => Some(typescript::interface_query(name)),
        },
    }
}

/// The capture tag of the whole declaration for one (language, kind) pair.
fn kind_tag(lt: LangType, kind: SymbolKind) -> (r: &'static str)
    ensures
        r@ == kind_tag_spec(lt, kind),
{
    match kind {
        SymbolKind::Function => "function",
        SymbolKind::Class => "class",
        SymbolKind::Interface => {
            if lt == LangType::Rust {
                "trait"
            } else {
                "interface"
            }
        },
    }
}

/// The result a typed lookup owes for its arguments: detect the language,
/// build the one kind pattern, evaluate it, and take the first capture
/// tagged as the whole declaration.
pub open spec fn spec_extract_by_type(
    ext: Seq<char>,
    name: Seq<char>,
    kind: SymbolKind,
    source: Seq<char>,
) -> Result<Seq<char>, ExtractError> {
    match spec_detect_language(ext) {
        None => Err(ExtractError::UnsupportedFileType),
        Some(lang) => {
            let lt = spec_lang_type(ext);
            match kind_query_spec(lt, kind, name) {
                None => Err(ExtractError::InterfaceNotSupported),
                Some(q) => if !engine_parses(lang, source) {
                    Err(ExtractError::ParseFailure)
                } else {
                    match engine_caps(lang, source, q) {
                        None => Err(ExtractError::QueryCompileError),
                        Some(caps) => match first_with_tag(caps, kind_tag_spec(lt, kind)) {
                            Some(t) => Ok(t),
                            None => Err(ExtractError::SymbolNotFound),
                        },
                    }
                },
            }
        },
    }
}

/// The result an unqualified plain-name lookup owes: evaluate the function,
/// class and (outside Python) interface patterns and fold them in that
/// order, first match winning.
pub open spec fn spec_plain_lookup(
    lang: Lang,
    lt: LangType,
    symbol: Seq<char>,
    source: Seq<char>,
) -> Result<Seq<char>, ExtractError> {
    match engine_caps(lang, source, kind_query_spec(lt, SymbolKind::Function, symbol)->Some_0) {
        None => Err(ExtractError::QueryCompileError),
        Some(fc) => match engine_caps(
            lang,
            source,
            kind_query_spec(lt, SymbolKind::Class, symbol)->Some_0,
        ) {
            None => Err(ExtractError::QueryCompileError),
            Some(cc) => if lt == LangType::Python {
                match fallback_spec(lt, fc, cc, Seq::empty()) {
                    Some(t) => Ok(t),
                    None => Err(ExtractError::SymbolNotFound),
                }
            } else {
                match engine_caps(
                    lang,
                    source,
                    kind_query_spec(lt, SymbolKind::Interface, symbol)->Some_0,
                ) {
                    None => Err(ExtractError::QueryCompileError),
                    Some(ic) => match fallback_spec(lt, fc, cc, ic) {
                        Some(t) => Ok(t),
                        None => Err(ExtractError::SymbolNotFound),
                    },
                }
            },
        },
    }
}

/// The result a kind-unknown lookup owes for its arguments: a dotted symbol
/// goes to method resolution over the two-name pattern; a plain name goes
/// to the ordered fallback.
pub open spec fn spec_extract_symbol(ext: Seq<char>, symbol: Seq<char>, source: Seq<char>) -> Result<
    Seq<char>,
    ExtractError,
> {
    match spec_detect_language(ext) {
        None => Err(ExtractError::UnsupportedFileType),
        Some(lang) => if !engine_parses(lang, source) {
            Err(ExtractError::ParseFailure)
        } else {
            let lt = spec_lang_type(ext);
            if is_dotted(symbol) {
                match engine_caps(
                    lang,
                    source,
                    spec_method_query(lt, owner_part(symbol), member_part(symbol)),
                ) {
                    None => Err(ExtractError::QueryCompileError),
                    Some(caps) => match first_with_tag(caps, "method"@) {
                        Some(t) => Ok(t),
                        None => Err(ExtractError::MethodNotFound),
                    },
                }
            } else {
                spec_plain_lookup(lang, lt, symbol, source)
            }
        },
    }
}

/// The listing a file owes for its arguments: evaluate the catch-all
/// pattern once and fold its captures into the deduplicated listing.
pub open spec fn spec_list_symbols(ext: Seq<char>, source: Seq<char>) -> Result<
    Seq<SymbolV>,
    ExtractError,
> {
    match spec_detect_language(ext) {
        None => Err(ExtractError::UnsupportedFileType),
        Some(lang) => if !engine_parses(lang, source) {
            Err(ExtractError::ParseFailure)
        } else {
            match engine_caps(lang, source, spec_list_query(spec_lang_type(ext))) {
                None => Err(ExtractError::QueryCompileError),
                Some(caps) => Ok(symbols_of(caps)),
            }
        },
    }
}

/// Resolve a symbol whose kind the caller states explicitly: build only
/// that kind's pattern and return the first matching declaration's text.
/// An interface lookup on the dynamic scripting language always fails with
/// `InterfaceNotSupported`, whatever the source holds; an unsupported
/// extension always fails with `UnsupportedFileType`, before any parse.
pub fn extract_by_type(source: &str, ext: &str, name: &str, kind: SymbolKind) -> (r: Result<
    String,
    ExtractError,
>)
    requires
        is_ident(name@),
    ensures
        match r {
            Ok(t) => spec_extract_by_type(ext@, name@, kind, source@) == Result::<
                Seq<char>,
                ExtractError,
            >::Ok(t@),
            Err(e) => spec_extract_by_type(ext@, name@, kind, source@) == Result::<
                Seq<char>,
                ExtractError,
            >::Err(e),
        },
        (spec_detect_language(ext@) is None) <==> r == Result::<String, ExtractError>::Err(
            ExtractError::UnsupportedFileType,
        ),
        (r == Result::<String, ExtractError>::Err(ExtractError::InterfaceNotSupported)) <==> (
        spec_detect_language(ext@) is Some && spec_lang_type(ext@) == LangType::Python && kind
            == SymbolKind::Interface),
        r matches Ok(t) ==> is_substring(t@, source@),
        r != Result::<String, ExtractError>::Err(ExtractError::MethodNotFound),
{
    let lang = match detect_language(ext) {
        None => {
            return Err(ExtractError::UnsupportedFileType);
        },
        Some(l) => l,
    };
    let lt = lang_type(ext);
    let query = match build_kind_query(lt, kind, name) {
        None => {
            return Err(ExtractError::InterfaceNotSupported);
        },
        Some(q) => q,
    };
    if !parse_ok(lang, source) {
        return Err(ExtractError::ParseFailure);
    }
    let caps = match run_caps(lang, source, query.as_str()) {
        None => {
            return Err(ExtractError::QueryCompileError);
        },
        Some(c) => c,
    };
    let tag = kind_tag(lt, kind);
    match select_first(&caps, tag) {
        Some(t) => {
            proof {
                lemma_first_with_tag_member(caps_views(caps@), tag@);
                let i = choose|i: int|
                    0 <= i < caps_views(caps@).len() && #[trigger] caps_views(caps@)[i].text
                        == first_with_tag(caps_views(caps@), tag@)->Some_0;
                assert(caps@[i]@.text == t@);
            }
            Ok(t)
        },
        None => Err(ExtractError::SymbolNotFound),
    }
}

/// Resolve a symbol of unknown kind: a dotted `Owner.member` goes straight
/// to method resolution; a plain name attempts the kinds in the fixed order
/// function, class, interface and the first kind with a match wins. The
/// result is the exact source text of the winning declaration, and is a
/// function of the source, the extension and the symbol alone.
pub fn extract_symbol(source: &str, ext: &str, symbol: &str) -> (r: Result<String, ExtractError>)
    requires
        acceptable_symbol(symbol@),
    ensures
        match r {
            Ok(t) => spec_extract_symbol(ext@, symbol@, source@) == Result::<
                Seq<char>,
                ExtractError,
            >::Ok(t@),
            Err(e) => spec_extract_symbol(ext@, symbol@, source@) == Result::<
                Seq<char>,
                ExtractError,
            >::Err(e),
        },
        (spec_detect_language(ext@) is None) <==> r == Result::<String, ExtractError>::Err(
            ExtractError::UnsupportedFileType,
        ),
        r matches Ok(t) ==> is_substring(t@, source@),
        r != Result::<String, ExtractError>::Err(ExtractError::InterfaceNotSupported),
        is_dotted(symbol@) ==> r != Result::<String, ExtractError>::Err(
            ExtractError::SymbolNotFound,
        ),
        !is_dotted(symbol@) ==> r != Result::<String, ExtractError>::Err(
            ExtractError::MethodNotFound,
        ),
{
    let lang = match detect_language(ext) {
        None => {
            return Err(ExtractError::UnsupportedFileType);
        },
        Some(l) => l,
    };
    let lt = lang_type(ext);
    if !parse_ok(lang, source) {
        return Err(ExtractError::ParseFailure);
    }
    let n = symbol.unicode_len();
    let d = find_first_dot(symbol);
    if 0 < d && d < n && n - d > 1 {
        // A dotted Owner.member symbol: method resolution only.
        let owner = symbol.substring_char(0, d);
        let member = symbol.substring_char(d + 1, n);
        proof {
            assert(owner@ =~= owner_part(symbol@));
            assert(member@ =~= member_part(symbol@));
        }
        let query = match lt {
            LangType::Python => python::method_query(owner, member),
            LangType::Rust => rust::method_query(owner, member),
            LangType::TypeScript => typescript::method_query(owner, member),
        };
        let caps = match run_caps(lang, source, query.as_str()) {
            None => {
                return Err(ExtractError::QueryCompileError);
            },
            Some(c) => c,
        };
        let res = resolve_method(&caps);
        proof {
            if first_with_tag(caps_views(caps@), "method"@) is Some {
                lemma_first_with_tag_member(caps_views(caps@), "method"@);
                let i = choose|i: int|
                    0 <= i < caps_views(caps@).len() && #[trigger] caps_views(caps@)[i].text
                        == first_with_tag(caps_views(caps@), "method"@)->Some_0;
                assert(caps@[i]@.text == first_with_tag(caps_views(caps@), "method"@)->Some_0);
            }
        }
        res
    } else {
        // A plain name: try function, then class, then interface.
        let fquery = match lt {
            LangType::Python => python::function_query(symbol),
            LangType::Rust => rust::function_query(symbol),
            LangType::TypeScript => typescript::function_query(symbol),
        };
        let fcaps = match run_caps(lang, source, fquery.as_str()) {
            None => {
                return Err(ExtractError::QueryCompileError);
            },
            Some(c) => c,
        };
        let cquery = match lt {
            LangType::Python => python::class_query(symbol),
            LangType::Rust => rust::class_query(symbol),
            LangType::TypeScript => typescript::class_query(symbol),
        };
        let ccaps = match run_caps(lang, source, cquery.as_str()) {
            None => {
                return Err(ExtractError::QueryCompileError);
            },
            Some(c) => c,
        };
        let icaps: Vec<Capture>;
        if lt == LangType::Python {
            icaps = Vec::new();
            proof {
                assert(caps_views(icaps@) =~= Seq::<CaptureV>::empty());
            }
        } else {
            let iquery = if lt == LangType::Rust {
                rust::trait_query(symbol)
            } else {
                typescript::interface_query(symbol)
            };
            icaps = match run_caps(lang, source, iquery.as_str()) {
                None => {
                    return Err(ExtractError::QueryCompileError);
                },
                Some(c) => c,
            };
        }
        let res = resolve_plain(lt, &fcaps, &ccaps, &icaps);
        proof {
            if first_with_tag(caps_views(fcaps@), "function"@) is Some {
                lemma_first_with_tag_member(caps_views(fcaps@), "function"@);
                let i = choose|i: int|
                    0 <= i < caps_views(fcaps@).len() && #[trigger] caps_views(fcaps@)[i].text
                        == first_with_tag(caps_views(fcaps@), "function"@)->Some_0;
                assert(fcaps@[i]@.text == first_with_tag(caps_views(fcaps@), "function"@)->Some_0);
            }
            if first_with_tag(caps_views(ccaps@), "class"@) is Some {
                lemma_first_with_tag_member(caps_views(ccaps@), "class"@);
                let i = choose|i: int|
                    0 <= i < caps_views(ccaps@).len() && #[trigger] caps_views(ccaps@)[i].text
                        == first_with_tag(caps_views(ccaps@), "class"@)->Some_0;
                assert(ccaps@[i]@.text == first_with_tag(caps_views(ccaps@), "class"@)->Some_0);
            }
            if first_with_tag(caps_views(icaps@), spec_interface_tag(lt)) is Some {
                lemma_first_with_tag_member(caps_views(icaps@), spec_interface_tag(lt));
                let i = choose|i: int|
                    0 <= i < caps_views(icaps@).len() && #[trigger] caps_views(icaps@)[i].text
                        == first_with_tag(caps_views(icaps@), spec_interface_tag(lt))->Some_0;
                assert(icaps@[i]@.text == first_with_tag(
                    caps_views(icaps@),
                    spec_interface_tag(lt),
                )->Some_0);
            }
        }
        res
    }
}

/// List every symbol the catch-all pattern finds in the source: each
/// `(name, kind)` pair once, first occurrence kept, in evaluation order.
/// The listing is a function of the source and the extension alone.
pub fn list_symbols(source: &str, ext: &str) -> (r: Result<Vec<Symbol>, ExtractError>)
    ensures
        match r {
            Ok(syms) => spec_list_symbols(ext@, source@) == Result::<Seq<SymbolV>, ExtractError>::Ok(
                sym_views(syms@),
            ),
            Err(e) => spec_list_symbols(ext@, source@) == Result::<Seq<SymbolV>, ExtractError>::Err(
                e,
            ),
        },
        (spec_detect_language(ext@) is None) <==> r == Result::<Vec<Symbol>, ExtractError>::Err(
            ExtractError::UnsupportedFileType,
        ),
        r matches Ok(syms) ==> no_dup_pairs(sym_views(syms@)),
        r matches Ok(syms) ==> forall|k: int|
            0 <= k < syms@.len() ==> is_substring(#[trigger] syms@[k]@.name, source@),
        r matches Err(e) ==> (e == ExtractError::UnsupportedFileType || e
            == ExtractError::ParseFailure || e == ExtractError::QueryCompileError),
{
    let lang = match detect_language(ext) {
        None => {
            return Err(ExtractError::UnsupportedFileType);
        },
        Some(l) => l,
    };
    let lt = lang_type(ext);
    let query = match lt {
        LangType::Python => python::list_query(),
        LangType::Rust => rust::list_query(),
        LangType::TypeScript => typescript::list_query(),
    };
    if !parse_ok(lang, source) {
        return Err(ExtractError::ParseFailure);
    }
    let caps = match run_caps(lang, source, query) {
        None => {
            return Err(ExtractError::QueryCompileError);
        },
        Some(c) => c,
    };
    let syms = collect_symbols(&caps);
    proof {
        lemma_listing_no_duplicates(caps_views(caps@));
        lemma_symbol_names_from_captures(caps_views(caps@));
        assert forall|k: int| 0 <= k < syms@.len() implies is_substring(
            #[trigger] syms@[k]@.name,
            source@,
        ) by {
            assert(syms@[k]@ == sym_views(syms@)[k]);
            let i = choose|i: int|
                0 <= i < caps_views(caps@).len() && #[trigger] symbols_of(caps_views(caps@))[k].name
                    == caps_views(caps@)[i].text;
            assert(caps@[i]@.text == symbols_of(caps_views(caps@))[k].name);
            assert(is_substring(caps@[i]@.text, source@));
        }
    }
    Ok(syms)
}

} // verus!
