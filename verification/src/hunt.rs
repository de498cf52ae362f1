//! The match engine and the hunting orchestrator.
//!
//! A mapping partitions one log family into groups; a document belongs to a
//! group iff at least one of the group's filter clauses fully matches. Rule
//! evaluation is gated behind that cheap structural check: for each matched
//! group the active rules run against the group's aliased field view, and
//! the hits of one (document, mapping) pairing are gathered into a single
//! detection.

use std::collections::HashMap;

use vstd::prelude::*;

use crate::Error;
use crate::file::{
    in_window, kind_of, pairs_view, rec_view, record_of, recs_view, spec_created, spec_find,
    Document as Doc, DocumentV as DocV, Record, RecordV,
};
use crate::rule::{
    obj_fields, obj_insert, obj_model_empty, obj_new, opt_strs_view, strs_view, tau_matches,
    tau_matches_raw, tau_verdict, tau_verdict_raw, Rule, RuleV,
};
use crate::value::{repr, repr_eq, FieldValue, FieldValueV};

verus! {

/// A named sub-partition of a mapping: a field-alias table, OR-ed filter
/// clauses that gate rule evaluation, and an optional projection list.
pub struct Group {
    /// The logical fields to project in rendered output; absent means the
    /// full serialised record is carried.
    pub default: Option<Vec<String>>,
    /// The alias table: logical field name to concrete structural path.
    pub fields: Vec<(String, String)>,
    /// The filter clauses, each a conjunction of (path, expected value)
    /// equality tests; the group matches iff some clause fully matches.
    pub filters: Vec<Vec<(String, FieldValue)>>,
    /// The group's name.
    pub name: String,
}

/// The mathematical model of a [`Group`].
pub struct GroupV {
    pub default: Option<Seq<Seq<char>>>,
    pub fields: Seq<(Seq<char>, Seq<char>)>,
    pub filters: Seq<Seq<(Seq<char>, FieldValueV)>>,
    pub name: Seq<char>,
}

/// The view of an alias table.
pub open spec fn alias_view(c: Seq<(String, String)>) -> Seq<(Seq<char>, Seq<char>)> {
    c.map_values(|p: (String, String)| (p.0@, p.1@))
}

/// The view of a list of filter clauses.
pub open spec fn filters_view(c: Seq<Vec<(String, FieldValue)>>) -> Seq<
    Seq<(Seq<char>, FieldValueV)>,
> {
    c.map_values(|cl: Vec<(String, FieldValue)>| pairs_view(cl@))
}

impl View for Group {
    type V = GroupV;

    open spec fn view(&self) -> GroupV {
        GroupV {
            default: opt_strs_view(self.default),
            fields: alias_view(self.fields@),
            filters: filters_view(self.filters@),
            name: self.name@,
        }
    }
}

/// Declarative configuration for one log family: its format kind, named
/// groups in declaration order, and a set of excluded rule tags scoped to
/// this mapping alone.
pub struct Mapping {
    /// The rule tags this mapping suppresses; the scope is this mapping only.
    pub exclusions: Vec<String>,
    /// The groups, in declaration order.
    pub groups: Vec<Group>,
    /// The format kind the mapping applies to.
    pub kind: String,
    /// The mapping's name.
    pub name: String,
}

/// The mathematical model of a [`Mapping`].
pub struct MappingV {
    pub exclusions: Seq<Seq<char>>,
    pub groups: Seq<GroupV>,
    pub kind: Seq<char>,
    pub name: Seq<char>,
}

/// The view of a list of groups.
pub open spec fn groups_view(c: Seq<Group>) -> Seq<GroupV> {
    c.map_values(|g: Group| g@)
}

impl View for Mapping {
    type V = MappingV;

    open spec fn view(&self) -> MappingV {
        MappingV {
            exclusions: strs_view(self.exclusions@),
            groups: groups_view(self.groups@),
            kind: self.kind@,
            name: self.name@,
        }
    }
}

/// One rule match within one group, or ungated.
#[derive(Debug)]
pub struct Hit {
    /// The matched rule's tag.
    pub tag: String,
    /// The matched group's name; nothing in ungated mode.
    pub group: Option<String>,
}

/// The mathematical model of a [`Hit`].
pub struct HitV {
    pub tag: Seq<char>,
    pub group: Option<Seq<char>>,
}

impl View for Hit {
    type V = HitV;

    open spec fn view(&self) -> HitV {
        HitV { tag: self.tag@, group: crate::rule::opt_str_view(self.group) }
    }
}

/// The view of a list of hits.
pub open spec fn hits_view(c: Seq<Hit>) -> Seq<HitV> {
    c.map_values(|h: Hit| h@)
}

/// The view of a list of rules.
pub open spec fn rules_view(c: Seq<Rule>) -> Seq<RuleV> {
    c.map_values(|r: Rule| r@)
}

/// A document as embedded in a detection: the record and its format tag.
#[derive(Debug)]
pub struct Document {
    /// The format tag.
    pub kind: String,
    /// The record itself.
    pub data: Record,
}

/// The mathematical model of a [`Document`].
pub struct DocumentV {
    pub kind: Seq<char>,
    pub data: RecordV,
}

impl View for Document {
    type V = DocumentV;

    open spec fn view(&self) -> DocumentV {
        DocumentV { kind: self.kind@, data: self.data@ }
    }
}

/// How the documents of a detection are carried.
#[derive(Debug)]
pub enum Kind {
    /// Several documents aggregated into one detection.
    Aggregate { documents: Vec<Document> },
    /// One document, one detection.
    Individual { document: Document },
}

/// The mathematical model of a [`Kind`].
pub enum KindV {
    Aggregate { documents: Seq<DocumentV> },
    Individual { document: DocumentV },
}

impl View for Kind {
    type V = KindV;

    open spec fn view(&self) -> KindV {
        match self {
            Kind::Aggregate { documents } => KindV::Aggregate {
                documents: documents@.map_values(|d: Document| d@),
            },
            Kind::Individual { document } => KindV::Individual { document: document@ },
        }
    }
}

/// Aggregated hits for one (document, mapping) pairing: every hit for that
/// pairing is embedded together, never one detection per individual hit.
#[derive(Debug)]
pub struct Detections {
    /// The hits, in mapping's group order then rule order.
    pub hits: Vec<Hit>,
    /// The document the hits were found on.
    pub kind: Kind,
    /// The mapping's name; nothing in ungated mode.
    pub mapping: Option<String>,
    /// The record's creation timestamp, microseconds since the epoch.
    pub timestamp: i64,
}

/// The mathematical model of a [`Detections`].
pub struct DetectionsV {
    pub hits: Seq<HitV>,
    pub kind: KindV,
    pub mapping: Option<Seq<char>>,
    pub timestamp: i64,
}

impl View for Detections {
    type V = DetectionsV;

    open spec fn view(&self) -> DetectionsV {
        DetectionsV {
            hits: hits_view(self.hits@),
            kind: self.kind@,
            mapping: crate::rule::opt_str_view(self.mapping),
            timestamp: self.timestamp,
        }
    }
}

/// The view of a list of detections.
pub open spec fn dets_view(c: Seq<Detections>) -> Seq<DetectionsV> {
    c.map_values(|d: Detections| d@)
}

/// The lookup used by filter clauses. The identifier and provider fields are
/// known to live at more than one structural path depending on the producer,
/// so those resolve through their declared fallback chains; every other path
/// resolves directly.
pub open spec fn spec_filter_lookup(r: RecordV, key: Seq<char>) -> Option<FieldValueV> {
    if key == "Event.System.EventID"@ {
        match spec_find(r, key) {
            Some(v) => Some(v),
            None => spec_find(r, "Event.System.EventID.#text"@),
        }
    } else if key == "Event.System.Provider"@ {
        spec_find(r, "Event.System.Provider_attributes.Name"@)
    } else {
        spec_find(r, key)
    }
}

/// The filter-clause lookup of one path, through the declared fallback
/// chains.
pub fn filter_lookup<'a>(r: &'a Record, key: &String) -> (res: Option<&'a FieldValue>)
    ensures
        match res {
            Some(v) => spec_filter_lookup(r@, key@) == Some(v@),
            None => spec_filter_lookup(r@, key@) is None,
        },
{
    let event_id_key = String::from_str("Event.System.EventID");
    let provider_key = String::from_str("Event.System.Provider");
    if *key == event_id_key {
        match r.find(key) {
            Some(v) => Some(v),
            None => {
                let fallback = String::from_str("Event.System.EventID.#text");
                r.find(&fallback)
            },
        }
    } else if *key == provider_key {
        let path = String::from_str("Event.System.Provider_attributes.Name");
        r.find(&path)
    } else {
        r.find(key)
    }
}

/// Whether every equality test of a clause resolves and compares equal by
/// string representation; one missing or unequal field fails the clause.
pub open spec fn clause_matches(r: RecordV, clause: Seq<(Seq<char>, FieldValueV)>) -> bool {
    forall|j: int|
        0 <= j < clause.len() ==> match spec_filter_lookup(r, (#[trigger] clause[j]).0) {
            Some(v) => repr(v) == repr(clause[j].1),
            None => false,
        }
}

/// Whether one filter clause fully matches the record.
pub fn clause_match(r: &Record, clause: &Vec<(String, FieldValue)>) -> (res: bool)
    ensures
        res == clause_matches(r@, pairs_view(clause@)),
{
    let n: usize = clause.len();
    let mut j: usize = 0;
    while j < n
        invariant
            0 <= j <= n,
            n == clause.len(),
            forall|k: int|
                0 <= k < j ==> match spec_filter_lookup(r@, (#[trigger] pairs_view(clause@)[k]).0) {
                    Some(v) => repr(v) == repr(pairs_view(clause@)[k].1),
                    None => false,
                },
        decreases n - j,
    {
        assert(pairs_view(clause@)[j as int] == (clause@[j as int].0@, clause@[j as int].1@));
        match filter_lookup(r, &clause[j].0) {
            Some(v) => {
                if !repr_eq(v, &clause[j].1) {
                    return false;
                }
            },
            None => {
                return false;
            },
        }
        j += 1;
    }
    true
}

/// Whether some filter clause of the group matches: only then is rule
/// evaluation invoked for the group.
pub open spec fn group_gate(r: RecordV, g: GroupV) -> bool {
    exists|i: int| 0 <= i < g.filters.len() && clause_matches(r, #[trigger] g.filters[i])
}

/// Whether the record belongs to the group: its filter clauses are tried in
/// declaration order and the first full match wins.
pub fn group_match(r: &Record, g: &Group) -> (res: bool)
    ensures
        res == group_gate(r@, g@),
{
    let n: usize = g.filters.len();
    let mut i: usize = 0;
    while i < n
        invariant
            0 <= i <= n,
            n == g.filters.len(),
            forall|k: int| 0 <= k < i ==> !clause_matches(r@, #[trigger] g@.filters[k]),
        decreases n - i,
    {
        assert(g@.filters[i as int] == pairs_view(g.filters@[i as int]@));
        if clause_match(r, &g.filters[i]) {
            return true;
        }
        i += 1;
    }
    false
}

/// The field view a matched group presents to rule predicates: each logical
/// name whose concrete path resolves, bound to the resolved value; a later
/// binding of a name replaces an earlier one.
pub open spec fn remap_model(r: RecordV, fields: Seq<(Seq<char>, Seq<char>)>) -> Map<
    Seq<char>,
    FieldValueV,
>
    decreases fields.len(),
{
    if fields.len() == 0 {
        obj_model_empty()
    } else {
        let prefix = remap_model(r, fields.drop_last());
        match spec_find(r, fields.last().1) {
            Some(v) => prefix.insert(fields.last().0, v),
            None => prefix,
        }
    }
}

/// Builds the aliased field view of a record for one group.
fn remap(r: &Record, fields: &Vec<(String, String)>) -> (m: HashMap<String, serde_yaml::Value>)
    ensures
        obj_fields(m) == remap_model(r@, alias_view(fields@)),
{
    let mut m = obj_new();
    let n: usize = fields.len();
    let mut i: usize = 0;
    proof {
        assert(alias_view(fields@).take(0) =~= alias_view(fields@).take(0).drop_last().take(0));
        assert(remap_model(r@, alias_view(fields@).take(0)) == obj_model_empty());
    }
    while i < n
        invariant
            0 <= i <= n,
            n == fields.len(),
            obj_fields(m) == remap_model(r@, alias_view(fields@).take(i as int)),
        decreases n - i,
    {
        assert(alias_view(fields@)[i as int] == (fields@[i as int].0@, fields@[i as int].1@));
        match r.find(&fields[i].1) {
            Some(v) => {
                obj_insert(&mut m, fields[i].0.clone(), v);
            },
            None => {},
        }
        proof {
            assert(alias_view(fields@).take(i as int + 1).drop_last() =~= alias_view(
                fields@,
            ).take(i as int));
            assert(alias_view(fields@).take(i as int + 1).last() == alias_view(
                fields@,
            )[i as int]);
        }
        i += 1;
    }
    proof {
        assert(alias_view(fields@).take(n as int) =~= alias_view(fields@));
    }
    m
}

/// Whether a tag is excluded.
pub open spec fn excluded(excl: Seq<Seq<char>>, tag: Seq<char>) -> bool {
    exists|i: int| 0 <= i < excl.len() && excl[i] == tag
}

/// Whether the tag is in the exclusion list.
fn is_excluded(exclusions: &Vec<String>, tag: &String) -> (r: bool)
    ensures
        r == excluded(strs_view(exclusions@), tag@),
{
    let n: usize = exclusions.len();
    let mut i: usize = 0;
    while i < n
        invariant
            0 <= i <= n,
            n == exclusions.len(),
            forall|k: int| 0 <= k < i ==> strs_view(exclusions@)[k] != tag@,
        decreases n - i,
    {
        assert(strs_view(exclusions@)[i as int] == exclusions@[i as int]@);
        if exclusions[i] == *tag {
            return true;
        }
        i += 1;
    }
    false
}

/// The view of an optional borrowed name.
pub open spec fn opt_name_view(o: Option<&String>) -> Option<Seq<char>> {
    match o {
        Some(s) => Some(s@),
        None => None,
    }
}

/// The hits of the active rules against one document object: the rules are
/// tried in declaration order; an excluded tag is skipped before its
/// predicate is ever invoked; every matching rule contributes a hit (no
/// short-circuit on the first match, the rules are independent).
pub open spec fn spec_hits(
    rules: Seq<RuleV>,
    exclusions: Seq<Seq<char>>,
    group: Option<Seq<char>>,
    doc: Map<Seq<char>, FieldValueV>,
) -> Seq<HitV>
    decreases rules.len(),
{
    if rules.len() == 0 {
        Seq::empty()
    } else {
        let prefix = spec_hits(rules.drop_last(), exclusions, group, doc);
        let rule = rules.last();
        if !excluded(exclusions, rule.tag) && tau_verdict(rule.tau_source, doc) {
            prefix.push(HitV { tag: rule.tag, group })
        } else {
            prefix
        }
    }
}

/// Runs the active rules against one document object.
fn rule_hits(
    rules: &Vec<Rule>,
    exclusions: &Vec<String>,
    group: Option<&String>,
    doc: &HashMap<String, serde_yaml::Value>,
) -> (r: Vec<Hit>)
    ensures
        hits_view(r@) == spec_hits(
            rules_view(rules@),
            strs_view(exclusions@),
            opt_name_view(group),
            obj_fields(*doc),
        ),
{
    let mut out: Vec<Hit> = Vec::new();
    let n: usize = rules.len();
    let mut i: usize = 0;
    proof {
        assert(hits_view(out@) =~= Seq::<HitV>::empty());
        assert(rules_view(rules@).take(0) =~= Seq::<RuleV>::empty());
    }
    while i < n
        invariant
            0 <= i <= n,
            n == rules.len(),
            hits_view(out@) == spec_hits(
                rules_view(rules@).take(i as int),
                strs_view(exclusions@),
                opt_name_view(group),
                obj_fields(*doc),
            ),
        decreases n - i,
    {
        let ghost pre = hits_view(out@);
        assert(rules_view(rules@)[i as int] == rules@[i as int]@);
        let rule = &rules[i];
        if !is_excluded(exclusions, rule.tag()) {
            if tau_matches(rule.source().as_str(), doc) {
                let name: Option<String> = match group {
                    Some(s) => Some(s.clone()),
                    None => None,
                };
                let hit = Hit { tag: rule.tag().clone(), group: name };
                assert(hit@ == (HitV { tag: rules@[i as int]@.tag, group: opt_name_view(group) }));
                out.push(hit);
                proof {
                    assert(hits_view(out@) =~= pre.push(
                        HitV { tag: rules@[i as int]@.tag, group: opt_name_view(group) },
                    ));
                }
            }
        }
        proof {
            assert(rules_view(rules@).take(i as int + 1).drop_last() =~= rules_view(
                rules@,
            ).take(i as int));
            assert(rules_view(rules@).take(i as int + 1).last() == rules_view(rules@)[i as int]);
        }
        i += 1;
    }
    proof {
        assert(rules_view(rules@).take(n as int) =~= rules_view(rules@));
    }
    out
}

/// The hits of the active rules against one raw record, given by its full
/// serialised form: the rules are tried in declaration order and every
/// matching rule contributes an ungated hit.
pub open spec fn spec_hits_raw(rules: Seq<RuleV>, text: Seq<char>) -> Seq<HitV>
    decreases rules.len(),
{
    if rules.len() == 0 {
        Seq::empty()
    } else {
        let prefix = spec_hits_raw(rules.drop_last(), text);
        let rule = rules.last();
        if tau_verdict_raw(rule.tau_source, text) {
            prefix.push(HitV { tag: rule.tag, group: None })
        } else {
            prefix
        }
    }
}

impl Record {
    /// The match engine for one gated group: nothing when no filter clause
    /// of the group matches, and rule evaluation is never invoked then;
    /// otherwise the hits of the active rules against the group's aliased
    /// field view, in rule order, skipping the excluded tags.
    pub fn hits(&self, rules: &Vec<Rule>, exclusions: &Vec<String>, group: &Group) -> (r: Option<
        Vec<Hit>,
    >)
        ensures
            r is Some <==> group_gate(self@, group@),
            r matches Some(hits) ==> hits_view(hits@) == spec_hits(
                rules_view(rules@),
                strs_view(exclusions@),
                Some(group@.name),
                remap_model(self@, group@.fields),
            ),
    {
        if !group_match(self, group) {
            return None;
        }
        let doc = remap(self, &group.fields);
        Some(rule_hits(rules, exclusions, Some(&group.name), &doc))
    }

    /// The ungated engine: when no mapping is configured the rules run
    /// directly against the raw hierarchical record, rebuilt from its full
    /// serialised form, with no remapping, no exclusions and no group name.
    pub fn ungated_hits(&self, rules: &Vec<Rule>) -> (r: Vec<Hit>)
        ensures
            hits_view(r@) == spec_hits_raw(rules_view(rules@), self@.text),
    {
        let mut out: Vec<Hit> = Vec::new();
        let n: usize = rules.len();
        let mut i: usize = 0;
        proof {
            assert(hits_view(out@) =~= Seq::<HitV>::empty());
            assert(rules_view(rules@).take(0) =~= Seq::<RuleV>::empty());
        }
        while i < n
            invariant
                0 <= i <= n,
                n == rules.len(),
                hits_view(out@) == spec_hits_raw(rules_view(rules@).take(i as int), self@.text),
            decreases n - i,
        {
            let ghost pre = hits_view(out@);
            assert(rules_view(rules@)[i as int] == rules@[i as int]@);
            let rule = &rules[i];
            if tau_matches_raw(rule.source().as_str(), self.text.as_str()) {
                let hit = Hit { tag: rule.tag().clone(), group: None };
                assert(hit@ == (HitV { tag: rules@[i as int]@.tag, group: None }));
                out.push(hit);
                proof {
                    assert(hits_view(out@) =~= pre.push(
                        HitV { tag: rules@[i as int]@.tag, group: None },
                    ));
                }
            }
            proof {
                assert(rules_view(rules@).take(i as int + 1).drop_last() =~= rules_view(
                    rules@,
                ).take(i as int));
                assert(rules_view(rules@).take(i as int + 1).last() == rules_view(
                    rules@,
                )[i as int]);
            }
            i += 1;
        }
        proof {
            assert(rules_view(rules@).take(n as int) =~= rules_view(rules@));
        }
        out
    }
}

/// The hits one mapping yields for a record: the concatenation, in group
/// declaration order, of the hits of every matched group.
pub open spec fn groups_hits(
    rules: Seq<RuleV>,
    exclusions: Seq<Seq<char>>,
    groups: Seq<GroupV>,
    r: RecordV,
) -> Seq<HitV>
    decreases groups.len(),
{
    if groups.len() == 0 {
        Seq::empty()
    } else {
        let prefix = groups_hits(rules, exclusions, groups.drop_last(), r);
        let g = groups.last();
        if group_gate(r, g) {
            prefix + spec_hits(rules, exclusions, Some(g.name), remap_model(r, g.fields))
        } else {
            prefix
        }
    }
}

/// The hits one mapping yields for a record.
pub open spec fn mapping_hits(rules: Seq<RuleV>, m: MappingV, r: RecordV) -> Seq<HitV> {
    groups_hits(rules, m.exclusions, m.groups, r)
}

/// The detections of one document across the mappings, in mapping
/// declaration order: one detection per (document, mapping) pairing with at
/// least one hit, carrying every hit of that pairing together.
pub open spec fn mappings_detections(
    rules: Seq<RuleV>,
    mappings: Seq<MappingV>,
    doc: DocV,
    ts: i64,
) -> Seq<DetectionsV>
    decreases mappings.len(),
{
    if mappings.len() == 0 {
        Seq::empty()
    } else {
        let prefix = mappings_detections(rules, mappings.drop_last(), doc, ts);
        let m = mappings.last();
        if m.kind != kind_of(doc) {
            prefix
        } else {
            let hits = mapping_hits(rules, m, record_of(doc));
            if hits.len() == 0 {
                prefix
            } else {
                prefix.push(
                    DetectionsV {
                        hits,
                        kind: KindV::Individual {
                            document: DocumentV { kind: kind_of(doc), data: record_of(doc) },
                        },
                        mapping: Some(m.name),
                        timestamp: ts,
                    },
                )
            }
        }
    }
}

/// The mathematical model of a [`Hunter`].
pub struct HunterV {
    pub mappings: Seq<MappingV>,
    pub rules: Seq<RuleV>,
    pub from: Option<i64>,
    pub skip_errors: bool,
    pub to: Option<i64>,
}

/// The detections of one time-gated document: ungated matching when no
/// mapping is configured, else one pass per mapping of the document's kind.
pub open spec fn doc_detections(h: HunterV, doc: DocV, ts: i64) -> Seq<DetectionsV> {
    if h.mappings.len() == 0 {
        let hits = spec_hits_raw(h.rules, record_of(doc).text);
        if hits.len() == 0 {
            Seq::empty()
        } else {
            seq![
                DetectionsV {
                    hits,
                    kind: KindV::Individual {
                        document: DocumentV { kind: kind_of(doc), data: record_of(doc) },
                    },
                    mapping: None,
                    timestamp: ts,
                },
            ]
        }
    } else {
        mappings_detections(h.rules, h.mappings, doc, ts)
    }
}

/// The outcome of one record of the stream: a corrupt record is always
/// skipped silently; a record whose timestamp cannot be derived is skipped
/// under `skip_errors` and fatal otherwise; a record outside the window is
/// skipped; the rest are dispatched to matching.
pub open spec fn record_step(h: HunterV, rec: Result<DocV, Error>) -> Result<
    Seq<DetectionsV>,
    Error,
> {
    match rec {
        Err(_) => Ok(Seq::<DetectionsV>::empty()),
        Ok(doc) => match spec_created(record_of(doc)) {
            None => if h.skip_errors {
                Ok(Seq::<DetectionsV>::empty())
            } else {
                Err(Error::Timestamp)
            },
            Some(ts) => if !in_window(ts, h.from, h.to) {
                Ok(Seq::<DetectionsV>::empty())
            } else {
                Ok(doc_detections(h, doc, ts))
            },
        },
    }
}

/// What hunting a record stream yields: the concatenation, in record order,
/// of each record's detections, or the first fatal error.
pub open spec fn hunt_spec(h: HunterV, records: Seq<Result<DocV, Error>>) -> Result<
    Seq<DetectionsV>,
    Error,
>
    decreases records.len(),
{
    if records.len() == 0 {
        Ok(Seq::<DetectionsV>::empty())
    } else {
        match hunt_spec(h, records.drop_last()) {
            Err(e) => Err(e),
            Ok(ds) => match record_step(h, records.last()) {
                Err(e) => Err(e),
                Ok(more) => Ok(ds + more),
            },
        }
    }
}

/// Once some prefix of the stream has failed, the whole stream fails the
/// same way.
proof fn lemma_hunt_err_persists(h: HunterV, records: Seq<Result<DocV, Error>>, j: int)
    requires
        0 <= j <= records.len(),
        hunt_spec(h, records.take(j)) is Err,
    ensures
        hunt_spec(h, records) == hunt_spec(h, records.take(j)),
    decreases records.len() - j,
{
    if j == records.len() {
        assert(records.take(j) =~= records);
    } else {
        assert(records.take(j + 1).drop_last() =~= records.take(j));
        lemma_hunt_err_persists(h, records, j + 1);
    }
}

/// The hunter: rules, mappings, the time window and the error policy,
/// immutable once built and shared read-only by every file processed.
pub struct HunterInner {
    mappings: Vec<Mapping>,
    rules: Vec<Rule>,
    from: Option<i64>,
    skip_errors: bool,
    to: Option<i64>,
}

/// Orchestrates decoding, time gating, mapping dispatch and rule matching
/// over one record stream at a time.
pub struct Hunter {
    inner: HunterInner,
}

impl View for Hunter {
    type V = HunterV;

    closed spec fn view(&self) -> HunterV {
        HunterV {
            mappings: mappings_view(self.inner.mappings@),
            rules: rules_view(self.inner.rules@),
            from: self.inner.from,
            skip_errors: self.inner.skip_errors,
            to: self.inner.to,
        }
    }
}

/// The view of a list of mappings.
pub open spec fn mappings_view(c: Seq<Mapping>) -> Seq<MappingV> {
    c.map_values(|m: Mapping| m@)
}

/// The mathematical model of a [`HunterBuilder`].
pub struct HunterBuilderV {
    pub mappings: Option<Seq<MappingV>>,
    pub rules: Option<Seq<RuleV>>,
    pub from: Option<i64>,
    pub skip_errors: Option<bool>,
    pub to: Option<i64>,
}

/// Builds a [`Hunter`]: a rule set, zero or more mappings, optional time
/// bounds and the error policy.
pub struct HunterBuilder {
    mappings: Option<Vec<Mapping>>,
    rules: Option<Vec<Rule>>,
    from: Option<i64>,
    skip_errors: Option<bool>,
    to: Option<i64>,
}

impl View for HunterBuilder {
    type V = HunterBuilderV;

    closed spec fn view(&self) -> HunterBuilderV {
        HunterBuilderV {
            mappings: match self.mappings {
                Some(m) => Some(mappings_view(m@)),
                None => None,
            },
            rules: match self.rules {
                Some(r) => Some(rules_view(r@)),
                None => None,
            },
            from: self.from,
            skip_errors: self.skip_errors,
            to: self.to,
        }
    }
}

impl HunterBuilder {
    /// A builder with nothing set.
    pub fn new() -> (r: Self)
        ensures
            r@.mappings is None,
            r@.rules is None,
            r@.from is None,
            r@.skip_errors is None,
            r@.to is None,
    {
        HunterBuilder { mappings: None, rules: None, from: None, skip_errors: None, to: None }
    }

    /// Builds the hunter: absent parts default to no mappings, no rules, no
    /// bounds, and errors not skipped.
    pub fn build(self) -> (r: Result<Hunter, Error>)
        ensures
            r is Ok,
            r matches Ok(h) ==> {
                &&& h@.mappings == match self@.mappings {
                    Some(m) => m,
                    None => Seq::<MappingV>::empty(),
                }
                &&& h@.rules == match self@.rules {
                    Some(rs) => rs,
                    None => Seq::<RuleV>::empty(),
                }
                &&& h@.from == self@.from
                &&& h@.skip_errors == match self@.skip_errors {
                    Some(b) => b,
                    None => false,
                }
                &&& h@.to == self@.to
            },
    {
        let mappings = match self.mappings {
            Some(m) => m,
            None => Vec::new(),
        };
        let rules = match self.rules {
            Some(r) => r,
            None => Vec::new(),
        };
        let skip_errors = match self.skip_errors {
            Some(b) => b,
            None => false,
        };
        proof {
            assert(mappings_view(Seq::<Mapping>::empty()) =~= Seq::<MappingV>::empty());
            assert(rules_view(Seq::<Rule>::empty()) =~= Seq::<RuleV>::empty());
        }
        Ok(
            Hunter {
                inner: HunterInner { mappings, rules, from: self.from, skip_errors, to: self.to },
            },
        )
    }

    /// Sets the lower time bound, exclusive.
    pub fn from(self, timestamp: i64) -> (r: Self)
        ensures
            r@.from == Some(timestamp),
            r@.mappings == self@.mappings,
            r@.rules == self@.rules,
            r@.skip_errors == self@.skip_errors,
            r@.to == self@.to,
    {
        HunterBuilder {
            mappings: self.mappings,
            rules: self.rules,
            from: Some(timestamp),
            skip_errors: self.skip_errors,
            to: self.to,
        }
    }

    /// Sets the mappings.
    pub fn mappings(self, mappings: Vec<Mapping>) -> (r: Self)
        ensures
            r@.mappings == Some(mappings_view(mappings@)),
            r@.rules == self@.rules,
            r@.from == self@.from,
            r@.skip_errors == self@.skip_errors,
            r@.to == self@.to,
    {
        HunterBuilder {
            mappings: Some(mappings),
            rules: self.rules,
            from: self.from,
            skip_errors: self.skip_errors,
            to: self.to,
        }
    }

    /// Sets the rule set.
    pub fn rules(self, rules: Vec<Rule>) -> (r: Self)
        ensures
            r@.rules == Some(rules_view(rules@)),
            r@.mappings == self@.mappings,
            r@.from == self@.from,
            r@.skip_errors == self@.skip_errors,
            r@.to == self@.to,
    {
        HunterBuilder {
            mappings: self.mappings,
            rules: Some(rules),
            from: self.from,
            skip_errors: self.skip_errors,
            to: self.to,
        }
    }

    /// Sets whether otherwise-fatal per-file and per-record errors are
    /// silently skipped.
    pub fn skip_errors(self, skip: bool) -> (r: Self)
        ensures
            r@.skip_errors == Some(skip),
            r@.mappings == self@.mappings,
            r@.rules == self@.rules,
            r@.from == self@.from,
            r@.to == self@.to,
    {
        HunterBuilder {
            mappings: self.mappings,
            rules: self.rules,
            from: self.from,
            skip_errors: Some(skip),
            to: self.to,
        }
    }

    /// Sets the upper time bound, exclusive.
    pub fn to(self, timestamp: i64) -> (r: Self)
        ensures
            r@.to == Some(timestamp),
            r@.mappings == self@.mappings,
            r@.rules == self@.rules,
            r@.from == self@.from,
            r@.skip_errors == self@.skip_errors,
    {
        HunterBuilder {
            mappings: self.mappings,
            rules: self.rules,
            from: self.from,
            skip_errors: self.skip_errors,
            to: Some(timestamp),
        }
    }
}

impl Hunter {
    /// A fresh builder.
    pub fn builder() -> (r: HunterBuilder)
        ensures
            r@.mappings is None,
            r@.rules is None,
            r@.from is None,
            r@.skip_errors is None,
            r@.to is None,
    {
        HunterBuilder::new()
    }

    /// The detections of one time-gated document.
    fn doc_dets(&self, doc: &Doc, ts: i64) -> (r: Vec<Detections>)
        ensures
            dets_view(r@) == doc_detections(self@, doc@, ts),
    {
        let mut out: Vec<Detections> = Vec::new();
        if self.inner.mappings.len() == 0 {
            let hits = doc.record().ungated_hits(&self.inner.rules);
            if hits.len() > 0 {
                let document = Document { kind: doc.kind(), data: doc.record().duplicate() };
                let det = Detections {
                    hits,
                    kind: Kind::Individual { document },
                    mapping: None,
                    timestamp: ts,
                };
                out.push(det);
            }
            proof {
                assert(dets_view(out@) =~= doc_detections(self@, doc@, ts));
            }
        } else {
            let nm: usize = self.inner.mappings.len();
            let mut mi: usize = 0;
            proof {
                assert(self@.mappings.take(0) =~= Seq::<MappingV>::empty());
                assert(dets_view(out@) =~= Seq::<DetectionsV>::empty());
            }
            while mi < nm
                invariant
                    0 <= mi <= nm,
                    nm == self.inner.mappings.len(),
                    self@.mappings == mappings_view(self.inner.mappings@),
                    self@.rules == rules_view(self.inner.rules@),
                    dets_view(out@) == mappings_detections(
                        self@.rules,
                        self@.mappings.take(mi as int),
                        doc@,
                        ts,
                    ),
                decreases nm - mi,
            {
                let ghost pre = dets_view(out@);
                assert(self@.mappings[mi as int] == self.inner.mappings@[mi as int]@);
                let mapping = &self.inner.mappings[mi];
                let doc_kind = doc.kind();
                if mapping.kind == doc_kind {
                    let mut hits: Vec<Hit> = Vec::new();
                    let ng: usize = mapping.groups.len();
                    let mut gi: usize = 0;
                    proof {
                        assert(mapping@.groups.take(0) =~= Seq::<GroupV>::empty());
                        assert(hits_view(hits@) =~= Seq::<HitV>::empty());
                    }
                    while gi < ng
                        invariant
                            0 <= gi <= ng,
                            ng == mapping.groups.len(),
                            mapping@ == self.inner.mappings@[mi as int]@,
                            self@.rules == rules_view(self.inner.rules@),
                            hits_view(hits@) == groups_hits(
                                self@.rules,
                                mapping@.exclusions,
                                mapping@.groups.take(gi as int),
                                record_of(doc@),
                            ),
                        decreases ng - gi,
                    {
                        let ghost hpre = hits_view(hits@);
                        assert(mapping@.groups[gi as int] == mapping.groups@[gi as int]@);
                        let group = &mapping.groups[gi];
                        match doc.record().hits(&self.inner.rules, &mapping.exclusions, group) {
                            Some(mut h) => {
                                proof {
                                    assert(hits_view(hits@ + h@) =~= hits_view(hits@) + hits_view(
                                        h@,
                                    ));
                                }
                                hits.append(&mut h);
                            },
                            None => {},
                        }
                        proof {
                            assert(mapping@.groups.take(gi as int + 1).drop_last()
                                =~= mapping@.groups.take(gi as int));
                            assert(mapping@.groups.take(gi as int + 1).last() == mapping@.groups[gi
                                as int]);
                        }
                        gi += 1;
                    }
                    proof {
                        assert(mapping@.groups.take(ng as int) =~= mapping@.groups);
                    }
                    if hits.len() > 0 {
                        let document = Document {
                            kind: doc.kind(),
                            data: doc.record().duplicate(),
                        };
                        let det = Detections {
                            hits,
                            kind: Kind::Individual { document },
                            mapping: Some(mapping.name.clone()),
                            timestamp: ts,
                        };
                        out.push(det);
                        proof {
                            assert(dets_view(out@) =~= pre.push(dets_view(out@).last()));
                        }
                    }
                }
                proof {
                    assert(self@.mappings.take(mi as int + 1).drop_last() =~= self@.mappings.take(
                        mi as int,
                    ));
                    assert(self@.mappings.take(mi as int + 1).last() == self@.mappings[mi as int]);
                }
                mi += 1;
            }
            proof {
                assert(self@.mappings.take(nm as int) =~= self@.mappings);
            }
        }
        out
    }

    /// One record of the stream, as the hunter treats it: a corrupt record
    /// is always skipped silently; a record whose timestamp cannot be
    /// derived is skipped under `skip_errors` and fatal otherwise; a record
    /// outside the window is skipped; the rest are dispatched against every
    /// mapping of their format (or run ungated when no mapping is
    /// configured) and their hits aggregated into detections.
    pub fn hunt_record(&self, record: &Result<Doc, Error>) -> (r: Result<Vec<Detections>, Error>)
        ensures
            match r {
                Ok(ds) => record_step(self@, rec_view(*record)) matches Ok(ds2) && ds2
                    == dets_view(ds@),
                Err(e) => record_step(self@, rec_view(*record)) matches Err(e2) && e2 == e,
            },
    {
        proof {
            assert(dets_view(Seq::<Detections>::empty()) =~= Seq::<DetectionsV>::empty());
        }
        match record {
            Err(_) => Ok(Vec::new()),
            Ok(doc) => {
                let rec = doc.record();
                match rec.created() {
                    None => {
                        if self.inner.skip_errors {
                            Ok(Vec::new())
                        } else {
                            Err(Error::Timestamp)
                        }
                    },
                    Some(ts) => {
                        let mut pass = true;
                        if let Some(f) = self.inner.from {
                            if ts <= f {
                                pass = false;
                            }
                        }
                        if let Some(t) = self.inner.to {
                            if ts >= t {
                                pass = false;
                            }
                        }
                        if pass {
                            Ok(self.doc_dets(doc, ts))
                        } else {
                            Ok(Vec::new())
                        }
                    },
                }
            },
        }
    }

    /// Hunts one container's already-decoded record stream: each record is
    /// handled as by [`Hunter::hunt_record`] and the detections are
    /// gathered. The output order is record order, then mapping declaration
    /// order, then group declaration order.
    pub fn hunt(&self, records: &Vec<Result<Doc, Error>>) -> (r: Result<Vec<Detections>, Error>)
        ensures
            match r {
                Ok(ds) => hunt_spec(self@, recs_view(records@)) matches Ok(ds2) && ds2
                    == dets_view(ds@),
                Err(e) => hunt_spec(self@, recs_view(records@)) matches Err(e2) && e2 == e,
            },
    {
        let mut detections: Vec<Detections> = Vec::new();
        let n: usize = records.len();
        let mut i: usize = 0;
        proof {
            assert(recs_view(records@).take(0) =~= Seq::<Result<DocV, Error>>::empty());
            assert(dets_view(detections@) =~= Seq::<DetectionsV>::empty());
        }
        while i < n
            invariant
                0 <= i <= n,
                n == records.len(),
                hunt_spec(self@, recs_view(records@).take(i as int)) == Ok::<
                    Seq<DetectionsV>,
                    Error,
                >(dets_view(detections@)),
            decreases n - i,
        {
            let ghost rv = recs_view(records@);
            assert(rv[i as int] == rec_view(records@[i as int]));
            proof {
                assert(rv.take(i as int + 1).drop_last() =~= rv.take(i as int));
                assert(rv.take(i as int + 1).last() == rv[i as int]);
            }
            match self.hunt_record(&records[i]) {
                Ok(mut more) => {
                    proof {
                        assert(dets_view(detections@ + more@) =~= dets_view(detections@)
                            + dets_view(more@));
                    }
                    detections.append(&mut more);
                },
                Err(e) => {
                    proof {
                        lemma_hunt_err_persists(self@, rv, i as int + 1);
                    }
                    return Err(e);
                },
            }
            i += 1;
        }
        proof {
            assert(recs_view(records@).take(n as int) =~= recs_view(records@));
        }
        Ok(detections)
    }

    /// The active mappings.
    pub fn mappings(&self) -> (r: &Vec<Mapping>)
        ensures
            mappings_view(r@) == self@.mappings,
    {
        &self.inner.mappings
    }

    /// The active rule set.
    pub fn rules(&self) -> (r: &Vec<Rule>)
        ensures
            rules_view(r@) == self@.rules,
    {
        &self.inner.rules
    }
}

/// When no filter clause of a group matches a record, the group contributes
/// no hits for it, whatever the rules: removing the unmatched group from a
/// mapping leaves the mapping's hits unchanged. Rule evaluation is gated
/// behind the structural filters.
pub proof fn lemma_unmatched_group_no_hits(
    rules: Seq<RuleV>,
    exclusions: Seq<Seq<char>>,
    groups: Seq<GroupV>,
    r: RecordV,
    i: int,
)
    requires
        0 <= i < groups.len(),
        !group_gate(r, groups[i]),
    ensures
        groups_hits(rules, exclusions, groups, r) == groups_hits(
            rules,
            exclusions,
            groups.remove(i),
            r,
        ),
    decreases groups.len(),
{
    if i == groups.len() - 1 {
        assert(groups.remove(i) =~= groups.drop_last());
    } else {
        assert(groups.drop_last()[i] == groups[i]);
        lemma_unmatched_group_no_hits(rules, exclusions, groups.drop_last(), r, i);
        assert(groups.remove(i).drop_last() =~= groups.drop_last().remove(i));
        assert(groups.remove(i).last() == groups.last());
    }
}

/// A filter clause matches iff every one of its equality tests resolves and
/// compares equal by string representation: one missing or unequal field
/// fails the whole clause.
pub proof fn lemma_failed_test_fails_clause(
    r: RecordV,
    clause: Seq<(Seq<char>, FieldValueV)>,
    j: int,
)
    requires
        0 <= j < clause.len(),
        match spec_filter_lookup(r, clause[j].0) {
            Some(v) => repr(v) != repr(clause[j].1),
            None => true,
        },
    ensures
        !clause_matches(r, clause),
{
    assert(!(match spec_filter_lookup(r, clause[j].0) {
        Some(v) => repr(v) == repr(clause[j].1),
        None => false,
    }));
}

/// Alias priority: when the first path of the identifier's fallback chain
/// resolves, its value is the one used, even if a later path of the chain
/// also resolves — possibly to a different value.
pub proof fn lemma_alias_priority(r: RecordV, v: FieldValueV)
    requires
        spec_find(r, "Event.System.EventID"@) == Some(v),
    ensures
        spec_filter_lookup(r, "Event.System.EventID"@) == Some(v),
{
}

/// The time window is strictly exclusive at both of its boundaries: a
/// record stamped strictly between the bounds passes, and only such a
/// record.
pub proof fn lemma_window_strict(ts: i64, from: i64, to: i64)
    ensures
        in_window(ts, Some(from), Some(to)) == (from < ts && ts < to),
{
}

/// A record stamped exactly at `from` or exactly at `to` contributes no
/// detections: it falls outside the hunter's window.
pub proof fn lemma_hunter_boundary(h: HunterV, doc: DocV, ts: i64)
    requires
        spec_created(record_of(doc)) == Some(ts),
        h.from == Some(ts) || h.to == Some(ts),
    ensures
        record_step(h, Ok(doc)) matches Ok(ds) && ds == Seq::<DetectionsV>::empty(),
{
}

/// Determinism: what a hunt yields is a function of the configuration and
/// the record stream alone, so two hunters built alike yield the identical
/// detection sequence, in the same order, over the same records.
pub proof fn lemma_hunt_deterministic(
    h1: HunterV,
    h2: HunterV,
    records: Seq<Result<DocV, Error>>,
)
    requires
        h1 == h2,
    ensures
        hunt_spec(h1, records) == hunt_spec(h2, records),
{
}

/// Under an exclusion list that holds a tag, no hit with that tag is ever
/// produced: the excluded rule is skipped before its predicate is invoked.
pub proof fn lemma_excluded_tag_never_hits(
    rules: Seq<RuleV>,
    exclusions: Seq<Seq<char>>,
    group: Option<Seq<char>>,
    doc: Map<Seq<char>, FieldValueV>,
    tag: Seq<char>,
    k: int,
)
    requires
        excluded(exclusions, tag),
        0 <= k < spec_hits(rules, exclusions, group, doc).len(),
    ensures
        spec_hits(rules, exclusions, group, doc)[k].tag != tag,
    decreases rules.len(),
{
    if rules.len() > 0 {
        let prefix = spec_hits(rules.drop_last(), exclusions, group, doc);
        if k < prefix.len() {
            lemma_excluded_tag_never_hits(rules.drop_last(), exclusions, group, doc, tag, k);
        }
    }
}

/// Exclusions are scoped to their owning mapping alone: under a second
/// exclusion list that does not hold the rule's tag, the same rule still
/// produces its hit for the same document whenever its predicate matches.
pub proof fn lemma_unexcluded_tag_hits(
    rules: Seq<RuleV>,
    exclusions: Seq<Seq<char>>,
    group: Option<Seq<char>>,
    doc: Map<Seq<char>, FieldValueV>,
    i: int,
)
    requires
        0 <= i < rules.len(),
        !excluded(exclusions, rules[i].tag),
        tau_verdict(rules[i].tau_source, doc),
    ensures
        exists|k: int|
            0 <= k < spec_hits(rules, exclusions, group, doc).len()
                && #[trigger] spec_hits(rules, exclusions, group, doc)[k] == (HitV {
                tag: rules[i].tag,
                group,
            }),
    decreases rules.len(),
{
    let hits = spec_hits(rules, exclusions, group, doc);
    if i == rules.len() - 1 {
        assert(hits[hits.len() - 1] == (HitV { tag: rules[i].tag, group }));
    } else {
        assert(rules.drop_last()[i] == rules[i]);
        lemma_unexcluded_tag_hits(rules.drop_last(), exclusions, group, doc, i);
        let prefix = spec_hits(rules.drop_last(), exclusions, group, doc);
        let k = choose|k: int|
            0 <= k < prefix.len() && #[trigger] prefix[k] == (HitV { tag: rules[i].tag, group });
        assert(hits[k] == (HitV { tag: rules[i].tag, group }));
    }
}

} // verus!
