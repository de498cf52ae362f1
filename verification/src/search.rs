//! The search pipeline: a lazy, single-pass filter over raw records,
//! independent of any mapping or rule set.
//!
//! All filters are optional and combine independently: an equality test on
//! the record's identifier field, the same strictly exclusive time window as
//! the hunter, and exactly one text filter — a regular expression or a
//! literal substring (optionally case-insensitive) — against the record's
//! full serialised form. Validation rejects a searcher with neither text
//! filter, which would silently match nothing.

use vstd::prelude::*;

use crate::Error;
use crate::file::{
    docs_view, in_window, rec_view, record_of, recs_view, spec_created, spec_find,
    Document as Doc, DocumentV as DocV, Record, RecordV,
};
use crate::strings::{chars_of, lower_of, to_lower};
use crate::value::{FieldValue, FieldValueV};

verus! {

/// Whether regex::Regex::new accepts this pattern.
pub uninterp spec fn regex_valid(pattern: Seq<char>) -> bool;

/// Whether the regular expression matches somewhere in the text: a function
/// of the pattern and the text alone.
pub uninterp spec fn regex_accepts(pattern: Seq<char>, text: Seq<char>) -> bool;

/// Relies on regex::Regex::new: acceptance is a function of the pattern
/// alone.
#[verifier::external_body]
pub(crate) fn regex_compiles(pattern: &str) -> (r: bool)
    ensures
        r == regex_valid(pattern@),
{
    regex::Regex::new(pattern).is_ok()
}

/// Relies on regex::Regex::new and Regex::is_match: the verdict is a
/// function of the pattern and the text alone.
#[verifier::external_body]
pub(crate) fn regex_match(pattern: &str, text: &str) -> (r: bool)
    requires
        regex_valid(pattern@),
    ensures
        r == regex_accepts(pattern@, text@),
{
    match regex::Regex::new(pattern) {
        Ok(re) => re.is_match(text),
        Err(_) => false,
    }
}

/// Whether the pattern occurs contiguously in the text.
pub open spec fn is_substring(text: Seq<char>, pat: Seq<char>) -> bool {
    exists|i: int|
        0 <= i <= text.len() - pat.len() && #[trigger] text.subrange(i, i + pat.len()) == pat
}

/// Whether the pattern occurs at position `i` of the text.
fn match_at(text: &Vec<char>, pat: &Vec<char>, i: usize) -> (r: bool)
    requires
        i + pat@.len() <= text@.len(),
    ensures
        r == (text@.subrange(i as int, i as int + pat@.len() as int) == pat@),
{
    let m: usize = pat.len();
    let mut j: usize = 0;
    while j < m
        invariant
            0 <= j <= m,
            m == pat.len(),
            i + m <= text.len(),
            forall|l: int| 0 <= l < j ==> text@[i + l] == pat@[l],
        decreases m - j,
    {
        if text[i + j] != pat[j] {
            assert(text@.subrange(i as int, i as int + pat@.len() as int)[j as int] == text@[i + j]);
            return false;
        }
        j += 1;
    }
    assert(text@.subrange(i as int, i as int + pat@.len() as int) =~= pat@);
    true
}

/// The literal substring search of the text filter.
pub fn contains_chars(text: &Vec<char>, pat: &Vec<char>) -> (r: bool)
    ensures
        r == is_substring(text@, pat@),
{
    if pat.len() == 0 {
        proof {
            assert(text@.subrange(0, 0 + pat@.len() as int) =~= pat@);
        }
        return true;
    }
    if pat.len() > text.len() {
        return false;
    }
    let limit: usize = text.len() - pat.len();
    let mut i: usize = 0;
    loop
        invariant
            0 <= i <= limit,
            limit == text@.len() - pat@.len(),
            1 <= pat@.len() <= text@.len(),
            forall|k: int|
                0 <= k < i ==> #[trigger] text@.subrange(k, k + pat@.len() as int) != pat@,
        decreases limit - i,
    {
        if match_at(text, pat, i) {
            return true;
        }
        if i == limit {
            assert(!is_substring(text@, pat@));
            return false;
        }
        i += 1;
    }
}

/// The text filter's verdict over a record's serialised form: the regular
/// expression when one is set, else the literal pattern (folded when case is
/// ignored), else no match at all.
pub open spec fn spec_matches(
    r: RecordV,
    regex: Option<Seq<char>>,
    pattern: Option<Seq<char>>,
    ignore_case: bool,
) -> bool {
    match regex {
        Some(p) => regex_accepts(p, r.text),
        None => match pattern {
            Some(p) => if ignore_case {
                is_substring(lower_of(r.text), lower_of(p))
            } else {
                is_substring(r.text, p)
            },
            None => false,
        },
    }
}

/// The identifier field of a record, resolved through its fallback chain.
pub open spec fn spec_event_id(r: RecordV) -> Option<FieldValueV> {
    match spec_find(r, "Event.System.EventID.#text"@) {
        Some(v) => Some(v),
        None => spec_find(r, "Event.System.EventID"@),
    }
}

/// Whether the record passes the identifier filter: no filter, or the
/// resolved identifier is the expected number.
pub open spec fn event_id_ok(r: RecordV, id: Option<u32>) -> bool {
    match id {
        None => true,
        Some(e) => match spec_event_id(r) {
            Some(FieldValueV::UInt(u)) => u == e as u64,
            _ => false,
        },
    }
}

/// Whether the record passes the identifier filter.
fn event_id_pass(r: &Record, id: &Option<u32>) -> (res: bool)
    ensures
        res == event_id_ok(r@, *id),
{
    match id {
        None => true,
        Some(e) => {
            let key = String::from_str("Event.System.EventID.#text");
            let found = match r.find(&key) {
                Some(v) => Some(v),
                None => {
                    let fallback = String::from_str("Event.System.EventID");
                    r.find(&fallback)
                },
            };
            match found {
                Some(FieldValue::UInt(u)) => *u == (*e as u64),
                _ => false,
            }
        },
    }
}

impl Record {
    /// The text filter against the record's full serialised form: the
    /// regular expression when one is set, else the literal pattern,
    /// case-folded on both sides when case is ignored; with neither set,
    /// nothing matches.
    pub fn matches(&self, regex: &Option<String>, pattern: &Option<String>, ignore_case: bool) -> (r:
        bool)
        requires
            regex matches Some(p) ==> regex_valid(p@),
        ensures
            r == spec_matches(
                self@,
                crate::rule::opt_str_view(*regex),
                crate::rule::opt_str_view(*pattern),
                ignore_case,
            ),
    {
        if let Some(re) = regex {
            regex_match(re.as_str(), self.text.as_str())
        } else if let Some(p) = pattern {
            if ignore_case {
                let lowered_text = to_lower(self.text.as_str());
                let lowered_pat = to_lower(p.as_str());
                let tc = chars_of(lowered_text.as_str());
                let pc = chars_of(lowered_pat.as_str());
                contains_chars(&tc, &pc)
            } else {
                let tc = chars_of(self.text.as_str());
                let pc = chars_of(p.as_str());
                contains_chars(&tc, &pc)
            }
        } else {
            false
        }
    }
}

/// The mathematical model of a [`Searcher`].
pub struct SearcherV {
    pub event_id: Option<u32>,
    pub pattern: Option<Seq<char>>,
    pub regex: Option<Seq<char>>,
    pub from: Option<i64>,
    pub ignore_case: bool,
    pub skip_errors: bool,
    pub to: Option<i64>,
}

/// The searcher's filters, immutable once built.
pub struct SearcherInner {
    event_id: Option<u32>,
    pattern: Option<String>,
    regex: Option<String>,
    from: Option<i64>,
    ignore_case: bool,
    skip_errors: bool,
    to: Option<i64>,
}

impl SearcherInner {
    /// A searcher always carries a text filter, and a compilable one.
    #[verifier::type_invariant]
    spec fn wf(self) -> bool {
        &&& (self.pattern is Some || self.regex is Some)
        &&& (self.regex matches Some(p) ==> regex_valid(p@))
    }
}

impl View for SearcherInner {
    type V = SearcherV;

    closed spec fn view(&self) -> SearcherV {
        SearcherV {
            event_id: self.event_id,
            pattern: crate::rule::opt_str_view(self.pattern),
            regex: crate::rule::opt_str_view(self.regex),
            from: self.from,
            ignore_case: self.ignore_case,
            skip_errors: self.skip_errors,
            to: self.to,
        }
    }
}

/// Applies time, identifier and text filters over a decoded record stream,
/// yielding the raw records that pass all of them.
pub struct Searcher {
    inner: SearcherInner,
}

impl View for Searcher {
    type V = SearcherV;

    closed spec fn view(&self) -> SearcherV {
        self.inner@
    }
}

/// The outcome of one record of the stream: a corrupt record is always
/// skipped silently; a record whose timestamp cannot be derived is skipped
/// under `skip_errors` and fatal otherwise; the rest pass iff they clear the
/// window, the identifier filter and the text filter.
pub open spec fn search_step(s: SearcherV, rec: Result<DocV, Error>) -> Result<
    Option<DocV>,
    Error,
> {
    match rec {
        Err(_) => Ok(Option::<DocV>::None),
        Ok(doc) => {
            let r = record_of(doc);
            match spec_created(r) {
                None => if s.skip_errors {
                    Ok(Option::<DocV>::None)
                } else {
                    Err(Error::Timestamp)
                },
                Some(ts) => if !in_window(ts, s.from, s.to) {
                    Ok(Option::<DocV>::None)
                } else if !event_id_ok(r, s.event_id) {
                    Ok(Option::<DocV>::None)
                } else if spec_matches(r, s.regex, s.pattern, s.ignore_case) {
                    Ok(Some(doc))
                } else {
                    Ok(Option::<DocV>::None)
                },
            }
        },
    }
}

/// What searching a record stream yields: the passing records in record
/// order, or the first fatal error.
pub open spec fn search_spec(s: SearcherV, records: Seq<Result<DocV, Error>>) -> Result<
    Seq<DocV>,
    Error,
>
    decreases records.len(),
{
    if records.len() == 0 {
        Ok(Seq::<DocV>::empty())
    } else {
        match search_spec(s, records.drop_last()) {
            Err(e) => Err(e),
            Ok(ds) => match search_step(s, records.last()) {
                Err(e) => Err(e),
                Ok(Some(d)) => Ok(ds.push(d)),
                Ok(None) => Ok(ds),
            },
        }
    }
}

/// Once some prefix of the stream has failed, the whole stream fails the
/// same way.
proof fn lemma_search_err_persists(s: SearcherV, records: Seq<Result<DocV, Error>>, j: int)
    requires
        0 <= j <= records.len(),
        search_spec(s, records.take(j)) is Err,
    ensures
        search_spec(s, records) == search_spec(s, records.take(j)),
    decreases records.len() - j,
{
    if j == records.len() {
        assert(records.take(j) =~= records);
    } else {
        assert(records.take(j + 1).drop_last() =~= records.take(j));
        lemma_search_err_persists(s, records, j + 1);
    }
}

/// The mathematical model of a [`SearcherBuilder`].
pub struct SearcherBuilderV {
    pub event_id: Option<u32>,
    pub pattern: Option<Seq<char>>,
    pub regex: Option<Seq<char>>,
    pub from: Option<i64>,
    pub ignore_case: Option<bool>,
    pub skip_errors: Option<bool>,
    pub to: Option<i64>,
}

/// Builds a [`Searcher`]: the optional filters and the error policy.
pub struct SearcherBuilder {
    event_id: Option<u32>,
    pattern: Option<String>,
    regex: Option<String>,
    from: Option<i64>,
    ignore_case: Option<bool>,
    skip_errors: Option<bool>,
    to: Option<i64>,
}

impl View for SearcherBuilder {
    type V = SearcherBuilderV;

    closed spec fn view(&self) -> SearcherBuilderV {
        SearcherBuilderV {
            event_id: self.event_id,
            pattern: crate::rule::opt_str_view(self.pattern),
            regex: crate::rule::opt_str_view(self.regex),
            from: self.from,
            ignore_case: self.ignore_case,
            skip_errors: self.skip_errors,
            to: self.to,
        }
    }
}

impl SearcherBuilder {
    /// A builder with nothing set.
    pub fn new() -> (r: Self)
        ensures
            r@.event_id is None,
            r@.pattern is None,
            r@.regex is None,
            r@.from is None,
            r@.ignore_case is None,
            r@.skip_errors is None,
            r@.to is None,
    {
        SearcherBuilder {
            event_id: None,
            pattern: None,
            regex: None,
            from: None,
            ignore_case: None,
            skip_errors: None,
            to: None,
        }
    }

    /// Builds the searcher. Construction is rejected when neither a pattern
    /// nor a regular expression is set (every record would silently be
    /// rejected), and when the regular expression does not compile; case
    /// sensitivity and the error policy default to off.
    pub fn build(self) -> (r: Result<Searcher, Error>)
        ensures
            ({
                let v = self@;
                match r {
                    Ok(s) => {
                        &&& (v.pattern is Some || v.regex is Some)
                        &&& (v.regex matches Some(p) ==> regex_valid(p))
                        &&& s@.event_id == v.event_id
                        &&& s@.pattern == v.pattern
                        &&& s@.regex == v.regex
                        &&& s@.from == v.from
                        &&& s@.ignore_case == match v.ignore_case {
                            Some(b) => b,
                            None => false,
                        }
                        &&& s@.skip_errors == match v.skip_errors {
                            Some(b) => b,
                            None => false,
                        }
                        &&& s@.to == v.to
                    },
                    Err(e) => {
                        ||| {
                            &&& e == Error::MissingFilter
                            &&& v.pattern is None
                            &&& v.regex is None
                        }
                        ||| {
                            &&& e == Error::InvalidRegex
                            &&& v.regex matches Some(p) && !regex_valid(p)
                        }
                    },
                }
            }),
    {
        if self.pattern.is_none() && self.regex.is_none() {
            return Err(Error::MissingFilter);
        }
        if let Some(re) = &self.regex {
            if !regex_compiles(re.as_str()) {
                return Err(Error::InvalidRegex);
            }
        }
        let ignore_case = match self.ignore_case {
            Some(b) => b,
            None => false,
        };
        let skip_errors = match self.skip_errors {
            Some(b) => b,
            None => false,
        };
        Ok(
            Searcher {
                inner: SearcherInner {
                    event_id: self.event_id,
                    pattern: self.pattern,
                    regex: self.regex,
                    from: self.from,
                    ignore_case,
                    skip_errors,
                    to: self.to,
                },
            },
        )
    }

    /// Sets the identifier filter.
    pub fn event_id(self, event_id: u32) -> (r: Self)
        ensures
            r@.event_id == Some(event_id),
            r@.pattern == self@.pattern,
            r@.regex == self@.regex,
            r@.from == self@.from,
            r@.ignore_case == self@.ignore_case,
            r@.skip_errors == self@.skip_errors,
            r@.to == self@.to,
    {
        SearcherBuilder {
            event_id: Some(event_id),
            pattern: self.pattern,
            regex: self.regex,
            from: self.from,
            ignore_case: self.ignore_case,
            skip_errors: self.skip_errors,
            to: self.to,
        }
    }

    /// Sets the lower time bound, exclusive.
    pub fn from(self, timestamp: i64) -> (r: Self)
        ensures
            r@.from == Some(timestamp),
            r@.event_id == self@.event_id,
            r@.pattern == self@.pattern,
            r@.regex == self@.regex,
            r@.ignore_case == self@.ignore_case,
            r@.skip_errors == self@.skip_errors,
            r@.to == self@.to,
    {
        SearcherBuilder {
            event_id: self.event_id,
            pattern: self.pattern,
            regex: self.regex,
            from: Some(timestamp),
            ignore_case: self.ignore_case,
            skip_errors: self.skip_errors,
            to: self.to,
        }
    }

    /// Sets whether the literal pattern is matched case-insensitively.
    pub fn ignore_case(self, ignore: bool) -> (r: Self)
        ensures
            r@.ignore_case == Some(ignore),
            r@.event_id == self@.event_id,
            r@.pattern == self@.pattern,
            r@.regex == self@.regex,
            r@.from == self@.from,
            r@.skip_errors == self@.skip_errors,
            r@.to == self@.to,
    {
        SearcherBuilder {
            event_id: self.event_id,
            pattern: self.pattern,
            regex: self.regex,
            from: self.from,
            ignore_case: Some(ignore),
            skip_errors: self.skip_errors,
            to: self.to,
        }
    }

    /// Sets the literal substring pattern.
    pub fn pattern(self, pattern: String) -> (r: Self)
        ensures
            r@.pattern == Some(pattern@),
            r@.event_id == self@.event_id,
            r@.regex == self@.regex,
            r@.from == self@.from,
            r@.ignore_case == self@.ignore_case,
            r@.skip_errors == self@.skip_errors,
            r@.to == self@.to,
    {
        SearcherBuilder {
            event_id: self.event_id,
            pattern: Some(pattern),
            regex: self.regex,
            from: self.from,
            ignore_case: self.ignore_case,
            skip_errors: self.skip_errors,
            to: self.to,
        }
    }

    /// Sets the regular expression, by its source text.
    pub fn regex(self, regex: String) -> (r: Self)
        ensures
            r@.regex == Some(regex@),
            r@.event_id == self@.event_id,
            r@.pattern == self@.pattern,
            r@.from == self@.from,
            r@.ignore_case == self@.ignore_case,
            r@.skip_errors == self@.skip_errors,
            r@.to == self@.to,
    {
        SearcherBuilder {
            event_id: self.event_id,
            pattern: self.pattern,
            regex: Some(regex),
            from: self.from,
            ignore_case: self.ignore_case,
            skip_errors: self.skip_errors,
            to: self.to,
        }
    }

    /// Sets whether otherwise-fatal per-record errors are silently skipped.
    pub fn skip_errors(self, skip: bool) -> (r: Self)
        ensures
            r@.skip_errors == Some(skip),
            r@.event_id == self@.event_id,
            r@.pattern == self@.pattern,
            r@.regex == self@.regex,
            r@.from == self@.from,
            r@.ignore_case == self@.ignore_case,
            r@.to == self@.to,
    {
        SearcherBuilder {
            event_id: self.event_id,
            pattern: self.pattern,
            regex: self.regex,
            from: self.from,
            ignore_case: self.ignore_case,
            skip_errors: Some(skip),
            to: self.to,
        }
    }

    /// Sets the upper time bound, exclusive.
    pub fn to(self, timestamp: i64) -> (r: Self)
        ensures
            r@.to == Some(timestamp),
            r@.event_id == self@.event_id,
            r@.pattern == self@.pattern,
            r@.regex == self@.regex,
            r@.from == self@.from,
            r@.ignore_case == self@.ignore_case,
            r@.skip_errors == self@.skip_errors,
    {
        SearcherBuilder {
            event_id: self.event_id,
            pattern: self.pattern,
            regex: self.regex,
            from: self.from,
            ignore_case: self.ignore_case,
            skip_errors: self.skip_errors,
            to: Some(timestamp),
        }
    }
}

impl Searcher {
    /// A fresh builder.
    pub fn builder() -> (r: SearcherBuilder)
        ensures
            r@.event_id is None,
            r@.pattern is None,
            r@.regex is None,
            r@.from is None,
            r@.ignore_case is None,
            r@.skip_errors is None,
            r@.to is None,
    {
        SearcherBuilder::new()
    }

    /// One record of the stream, as the searcher treats it: a corrupt
    /// record is always skipped silently; a record whose timestamp cannot
    /// be derived is skipped under `skip_errors` and fatal otherwise; the
    /// record is yielded iff it clears the window, the identifier filter
    /// and the text filter.
    pub fn search_record(&self, record: &Result<Doc, Error>) -> (r: Result<Option<Doc>, Error>)
        ensures
            match r {
                Ok(Some(d)) => search_step(self@, rec_view(*record)) matches Ok(yielded)
                    && yielded == Some(d@),
                Ok(None) => search_step(self@, rec_view(*record)) matches Ok(yielded)
                    && yielded is None,
                Err(e) => search_step(self@, rec_view(*record)) matches Err(e2) && e2 == e,
            },
    {
        match record {
            Err(_) => Ok(None),
            Ok(doc) => {
                proof {
                    use_type_invariant(&self.inner);
                }
                let rec = doc.record();
                match rec.created() {
                    None => {
                        if self.inner.skip_errors {
                            Ok(None)
                        } else {
                            Err(Error::Timestamp)
                        }
                    },
                    Some(ts) => {
                        let mut pass = true;
                        if let Some(f) = self.inner.from {
                            if ts <= f {
                                pass = false;
                            }
                        }
                        if let Some(t) = self.inner.to {
                            if ts >= t {
                                pass = false;
                            }
                        }
                        if pass && event_id_pass(rec, &self.inner.event_id) {
                            if rec.matches(
                                &self.inner.regex,
                                &self.inner.pattern,
                                self.inner.ignore_case,
                            ) {
                                Ok(Some(doc.duplicate()))
                            } else {
                                Ok(None)
                            }
                        } else {
                            Ok(None)
                        }
                    },
                }
            },
        }
    }

    /// Searches one container's already-decoded record stream: each record
    /// is handled as by [`Searcher::search_record`] and the yielded records
    /// are gathered. Per-file order is preserved.
    pub fn search(&self, records: &Vec<Result<Doc, Error>>) -> (r: Result<Vec<Doc>, Error>)
        ensures
            match r {
                Ok(ds) => search_spec(self@, recs_view(records@)) matches Ok(ds2) && ds2
                    == docs_view(ds@),
                Err(e) => search_spec(self@, recs_view(records@)) matches Err(e2) && e2 == e,
            },
    {
        let mut out: Vec<Doc> = Vec::new();
        let n: usize = records.len();
        let mut i: usize = 0;
        proof {
            assert(recs_view(records@).take(0) =~= Seq::<Result<DocV, Error>>::empty());
            assert(docs_view(out@) =~= Seq::<DocV>::empty());
        }
        while i < n
            invariant
                0 <= i <= n,
                n == records.len(),
                search_spec(self@, recs_view(records@).take(i as int)) == Ok::<Seq<DocV>, Error>(
                    docs_view(out@),
                ),
            decreases n - i,
        {
            let ghost rv = recs_view(records@);
            let ghost pre = docs_view(out@);
            assert(rv[i as int] == rec_view(records@[i as int]));
            proof {
                assert(rv.take(i as int + 1).drop_last() =~= rv.take(i as int));
                assert(rv.take(i as int + 1).last() == rv[i as int]);
            }
            match self.search_record(&records[i]) {
                Ok(Some(doc)) => {
                    out.push(doc);
                    proof {
                        assert(docs_view(out@) =~= pre.push(out@.last()@));
                    }
                },
                Ok(None) => {},
                Err(e) => {
                    proof {
                        lemma_search_err_persists(self@, rv, i as int + 1);
                    }
                    return Err(e);
                },
            }
            i += 1;
        }
        proof {
            assert(recs_view(records@).take(n as int) =~= recs_view(records@));
        }
        Ok(out)
    }
}

/// Alias priority for the searcher's identifier: the first path of the
/// fallback chain wins even when the second also resolves — possibly to a
/// different value.
pub proof fn lemma_event_id_priority(r: RecordV, v: FieldValueV)
    requires
        spec_find(r, "Event.System.EventID.#text"@) == Some(v),
    ensures
        spec_event_id(r) == Some(v),
{
}

/// A record stamped exactly at `from` or exactly at `to` is never yielded:
/// it falls outside the searcher's window, which is strictly exclusive at
/// both boundaries.
pub proof fn lemma_searcher_boundary(s: SearcherV, doc: DocV, ts: i64)
    requires
        spec_created(record_of(doc)) == Some(ts),
        s.from == Some(ts) || s.to == Some(ts),
    ensures
        search_step(s, Ok(doc)) matches Ok(yielded) && yielded is None,
{
}

} // verus!
