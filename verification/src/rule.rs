//! Detection rules.
//!
//! A rule carries identifying metadata and an opaque boolean predicate over a
//! field-lookup view. The predicate language itself is an external
//! capability: its grammar and evaluation live in the tau-engine crate, and
//! the engine relies only on the verdict being a function of the rule's
//! source text and of the fields of the document it is asked about.
//!
//! tau-engine's parser accepts some condition shapes that its solver cannot
//! run (it panics on them for any document), so admission screens the
//! compiled detection and turns those sources away; every [`Rule`] holds an
//! admitted source, and the match wrappers demand one.

use std::collections::HashMap;

use vstd::prelude::*;

use crate::value::{FieldValue, FieldValueV};

verus! {

/// serde_yaml's value type, carried opaquely as the scalar type of the
/// field-lookup view handed to rule predicates.
#[verifier::external_type_specification]
#[verifier::external_body]
pub struct ExYamlValue(serde_yaml::Value);

/// tau-engine's compiled expression type, carried opaquely through the
/// admission screen.
#[verifier::external_type_specification]
#[verifier::external_body]
pub struct ExTauExpression(tau_engine::core::parser::Expression);

/// tau-engine's boolean connective type, carried opaquely through the
/// admission screen.
#[verifier::external_type_specification]
#[verifier::external_body]
pub struct ExTauBoolSym(tau_engine::core::parser::BoolSym);

/// Whether the admission screen accepts this source text: tau-engine parses
/// it as a rule, and the compiled detection holds only expression shapes on
/// which tau-engine's solver is total, so the rule has a verdict — and never
/// a panic — for every document.
pub uninterp spec fn tau_parses(src: Seq<char>) -> bool;

/// What a document object holds: its scalar fields by logical name.
pub uninterp spec fn obj_fields(m: HashMap<String, serde_yaml::Value>) -> Map<
    Seq<char>,
    FieldValueV,
>;

/// The verdict of an admitted rule over a document object: whether its
/// predicate matches the object's fields. A function of the source text and
/// the fields alone.
pub uninterp spec fn tau_verdict(src: Seq<char>, doc: Map<Seq<char>, FieldValueV>) -> bool;

/// The model of an object with no fields.
pub open spec fn obj_model_empty() -> Map<Seq<char>, FieldValueV> {
    Map::empty()
}

/// The view of a list of strings.
pub open spec fn strs_view(v: Seq<String>) -> Seq<Seq<char>> {
    v.map_values(|s: String| s@)
}

/// The view of an optional string.
pub open spec fn opt_str_view(o: Option<String>) -> Option<Seq<char>> {
    match o {
        Some(s) => Some(s@),
        None => None,
    }
}

/// The view of an optional list of strings.
pub open spec fn opt_strs_view(o: Option<Vec<String>>) -> Option<Seq<Seq<char>>> {
    match o {
        Some(v) => Some(strs_view(v@)),
        None => None,
    }
}

/// A detection rule: identifying metadata and the YAML source of its
/// detection logic. Identity is the tag. A rule only ever holds a source
/// the admission screen accepted.
#[derive(Debug)]
pub struct Rule {
    tag: String,
    level: Option<String>,
    status: Option<String>,
    authors: Option<Vec<String>>,
    tau_source: String,
}

/// The mathematical model of a [`Rule`]: the metadata and the predicate's
/// source text. The predicate itself enters contracts only through
/// [`tau_verdict`] applied to that text.
pub struct RuleV {
    pub tag: Seq<char>,
    pub level: Option<Seq<char>>,
    pub status: Option<Seq<char>>,
    pub authors: Option<Seq<Seq<char>>>,
    pub tau_source: Seq<char>,
}

impl View for Rule {
    type V = RuleV;

    closed spec fn view(&self) -> RuleV {
        RuleV {
            tag: self.tag@,
            level: opt_str_view(self.level),
            status: opt_str_view(self.status),
            authors: opt_strs_view(self.authors),
            tau_source: self.tau_source@,
        }
    }
}

impl Rule {
    /// Every rule holds an admitted source.
    #[verifier::type_invariant]
    closed spec fn inv(self) -> bool {
        tau_parses(self.tau_source@)
    }

    /// Builds a rule from its metadata and the YAML source of its detection
    /// logic; nothing when the source is not admitted, so that a malformed
    /// configuration is rejected at load time rather than silently matching
    /// nothing — or aborting a run later.
    pub fn new(
        tag: String,
        level: Option<String>,
        status: Option<String>,
        authors: Option<Vec<String>>,
        tau_source: String,
    ) -> (r: Option<Rule>)
        ensures
            r is Some <==> tau_parses(tau_source@),
            r matches Some(rule) ==> rule@ == (RuleV {
                tag: tag@,
                level: opt_str_view(level),
                status: opt_str_view(status),
                authors: opt_strs_view(authors),
                tau_source: tau_source@,
            }),
    {
        if tau_accepts(tau_source.as_str()) {
            Some(Rule { tag, level, status, authors, tau_source })
        } else {
            None
        }
    }

    /// The tag reported when the rule fires.
    pub fn tag(&self) -> (r: &String)
        ensures
            r@ == self@.tag,
    {
        &self.tag
    }

    /// The rule's severity, if declared.
    pub fn level(&self) -> (r: &Option<String>)
        ensures
            opt_str_view(*r) == self@.level,
    {
        &self.level
    }

    /// The rule's status, if declared.
    pub fn status(&self) -> (r: &Option<String>)
        ensures
            opt_str_view(*r) == self@.status,
    {
        &self.status
    }

    /// The rule's authors, if declared.
    pub fn authors(&self) -> (r: &Option<Vec<String>>)
        ensures
            opt_strs_view(*r) == self@.authors,
    {
        &self.authors
    }

    /// The YAML source of the rule's detection logic: always an admitted
    /// source.
    pub fn source(&self) -> (r: &String)
        ensures
            r@ == self@.tau_source,
            tau_parses(r@),
    {
        proof {
            use_type_invariant(self);
        }
        &self.tau_source
    }
}

/// tau-engine's compiled expression type.
type TauExpr = tau_engine::core::parser::Expression;

/// tau-engine's boolean connective type.
type TauSym = tau_engine::core::parser::BoolSym;

/// tau-engine's identifier table.
type TauIds = HashMap<String, tau_engine::core::parser::Expression>;

/// Relies on tau-engine's BoolSym: whether the connective is a conjunction
/// or a disjunction, the two the solver recurses through.
#[verifier::external_body]
fn is_and_or(sym: &TauSym) -> bool {
    matches!(sym, TauSym::And | TauSym::Or)
}

/// Relies on the shape of tau-engine's solver (solve_expression and its
/// match_all and match_of helpers): accepts an expression only when every
/// recursion path of the solver out of it lands on a handled shape, so the
/// solver is total on it. Conjunction and disjunction nodes recurse; the
/// five comparisons inspect their operands shallowly and are total whatever
/// those are; an identifier must be declared; a bare value, cast, field,
/// group under a comparison connective, or optimiser matrix is exactly what
/// the solver's catch-all panics on, and is turned away.
#[verifier::external_body]
fn expr_solvable(e: &TauExpr, ids: &TauIds, ids_ok: bool) -> bool {
    match e {
        TauExpr::BooleanGroup(sym, g) => is_and_or(sym) && all_solvable(g, ids, ids_ok),
        TauExpr::BooleanExpression(l, sym, r) => !is_and_or(sym) || (expr_solvable(l, ids, ids_ok)
            && expr_solvable(r, ids, ids_ok)),
        TauExpr::Identifier(i) => ids_ok && ids.contains_key(i),
        TauExpr::Match(_, inner) => match_operand_solvable(inner, ids, ids_ok),
        TauExpr::Negate(inner) | TauExpr::Nested(_, inner) => expr_solvable(inner, ids, ids_ok),
        TauExpr::Search(_, _, _) => true,
        _ => false,
    }
}

/// Relies on tau-engine's BooleanGroup: the solver recurses into every
/// member of the group.
#[verifier::external_body]
fn all_solvable(group: &Vec<TauExpr>, ids: &TauIds, ids_ok: bool) -> bool {
    for x in group {
        if !expr_solvable(x, ids, ids_ok) {
            return false;
        }
    }
    true
}

/// Relies on tau-engine's match_all and match_of: a declared identifier or
/// a group has its members iterated, anything else is solved directly.
#[verifier::external_body]
fn match_operand_solvable(inner: &TauExpr, ids: &TauIds, ids_ok: bool) -> bool {
    match inner {
        TauExpr::Identifier(i) => ids_ok && ids.contains_key(i),
        TauExpr::BooleanGroup(_, group) => all_solvable(group, ids, ids_ok),
        other => expr_solvable(other, ids, ids_ok),
    }
}

/// Relies on tau-engine's compiled Detection: the condition and every
/// identifier body must be solvable; identifier bodies are checked with
/// identifier references disallowed (the parser never compiles one into
/// them), which also rules out reference cycles.
#[verifier::external_body]
fn detection_solvable(condition: &TauExpr, ids: &TauIds) -> bool {
    for body in ids.values() {
        if !expr_solvable(body, ids, false) {
            return false;
        }
    }
    expr_solvable(condition, ids, true)
}

/// Relies on tau_engine::Rule::from_str and on the solver's handled shapes
/// (via the screen above): admission is a function of the source text
/// alone, and an admitted source has a solver verdict for every document.
#[verifier::external_body]
pub(crate) fn tau_accepts(src: &str) -> (r: bool)
    ensures
        r == tau_parses(src@),
{
    match tau_engine::Rule::from_str(src) {
        Ok(rule) => detection_solvable(&rule.detection.expression, &rule.detection.identifiers),
        Err(_) => false,
    }
}

/// Relies on tau_engine::Rule::from_str and Rule::matches, through
/// tau-engine's Object implementation for maps from field name to scalar:
/// on an admitted source the solver is total, and the verdict is
/// deterministic in the source text and the fields of the object.
#[verifier::external_body]
pub(crate) fn tau_matches(src: &str, doc: &HashMap<String, serde_yaml::Value>) -> (r: bool)
    requires
        tau_parses(src@),
    ensures
        r == tau_verdict(src@, obj_fields(*doc)),
{
    match tau_engine::Rule::from_str(src) {
        Ok(rule) => rule.matches(doc),
        Err(_) => false,
    }
}

/// The verdict of an admitted rule over a raw record, given by the record's
/// full serialised form: whether its predicate matches the hierarchical
/// document that the text serialises. A function of the source text and the
/// record text alone.
pub uninterp spec fn tau_verdict_raw(src: Seq<char>, text: Seq<char>) -> bool;

/// Relies on tau_engine::Rule::from_str and Rule::matches, and on
/// serde_yaml::from_str to rebuild the hierarchical record from its
/// serialised form: on an admitted source the solver is total, the verdict
/// is deterministic in the source text and the record text, and an
/// unparsable or non-mapping record never matches.
#[verifier::external_body]
pub(crate) fn tau_matches_raw(src: &str, text: &str) -> (r: bool)
    requires
        tau_parses(src@),
    ensures
        r == tau_verdict_raw(src@, text@),
{
    let rule = match tau_engine::Rule::from_str(src) {
        Ok(r) => r,
        Err(_) => return false,
    };
    let value: serde_yaml::Value = match serde_yaml::from_str(text) {
        Ok(v) => v,
        Err(_) => return false,
    };
    match value.as_mapping() {
        Some(m) => rule.matches(m),
        None => false,
    }
}

/// Relies on std's HashMap::new: the new object is empty.
#[verifier::external_body]
pub(crate) fn obj_new() -> (r: HashMap<String, serde_yaml::Value>)
    ensures
        obj_fields(r) == obj_model_empty(),
{
    HashMap::new()
}

/// Relies on std's HashMap::insert: adds or replaces the entry for the key.
/// The stored value is the YAML form of the given scalar: its constructors
/// for booleans, integers and strings, and for other numbers the parse of
/// their decimal rendering.
#[verifier::external_body]
pub(crate) fn obj_insert(m: &mut HashMap<String, serde_yaml::Value>, k: String, v: &FieldValue)
    ensures
        obj_fields(*final(m)) == obj_fields(*old(m)).insert(k@, v@),
{
    let yv = match v {
        FieldValue::Bool(b) => serde_yaml::Value::Bool(*b),
        FieldValue::UInt(u) => serde_yaml::Value::Number(serde_yaml::Number::from(*u)),
        FieldValue::Int(i) => serde_yaml::Value::Number(serde_yaml::Number::from(*i)),
        FieldValue::Num(s) => match serde_yaml::from_str::<serde_yaml::Value>(s) {
            Ok(n) => n,
            Err(_) => serde_yaml::Value::String(s.clone()),
        },
        FieldValue::Str(s) => serde_yaml::Value::String(s.clone()),
    };
    m.insert(k, yv);
}

} // verus!
