//! The document abstraction: a closed set of supported container formats
//! behind one uniform iteration and lookup interface.
//!
//! A decoded record exposes its scalar fields at dotted structural paths.
//! Lookup returns the first field at a path; a few logical fields that are
//! known to live at more than one path resolve through an ordered fallback
//! chain. The record's creation timestamp is derived from a fixed well-known
//! path.

use vstd::prelude::*;

use crate::value::{FieldValue, FieldValueV};
use crate::value::dup_value;

verus! {

/// One decoded record: its scalar fields keyed by dotted structural path, in
/// document order, together with its full serialised form (the text the
/// searcher's filters match against).
#[derive(Debug)]
pub struct Record {
    /// Scalar fields keyed by dotted path.
    pub fields: Vec<(String, FieldValue)>,
    /// The record's full serialised form.
    pub text: String,
}

/// The mathematical model of a [`Record`].
pub struct RecordV {
    pub fields: Seq<(Seq<char>, FieldValueV)>,
    pub text: Seq<char>,
}

/// The view of a list of (path, value) pairs.
pub open spec fn pairs_view(c: Seq<(String, FieldValue)>) -> Seq<(Seq<char>, FieldValueV)> {
    c.map_values(|p: (String, FieldValue)| (p.0@, p.1@))
}

impl View for Record {
    type V = RecordV;

    open spec fn view(&self) -> RecordV {
        RecordV { fields: pairs_view(self.fields@), text: self.text@ }
    }
}

/// The first value among `fields` whose path is `key`.
pub open spec fn find_in(fields: Seq<(Seq<char>, FieldValueV)>, key: Seq<char>) -> Option<
    FieldValueV,
>
    decreases fields.len(),
{
    if fields.len() == 0 {
        None
    } else if fields[0].0 == key {
        Some(fields[0].1)
    } else {
        find_in(fields.drop_first(), key)
    }
}

/// What `find` returns: the first field of the record at the given path.
pub open spec fn spec_find(r: RecordV, key: Seq<char>) -> Option<FieldValueV> {
    find_in(r.fields, key)
}

/// The path at which every record's creation timestamp lives.
pub open spec fn timestamp_path() -> Seq<char> {
    "Event.System.TimeCreated_attributes.SystemTime"@
}

/// What a record's creation timestamp is: the timestamp field parsed into
/// microseconds since the epoch, or nothing when the field is absent, not a
/// string, or unparsable.
pub open spec fn spec_created(r: RecordV) -> Option<i64> {
    match spec_find(r, timestamp_path()) {
        Some(FieldValueV::Str(s)) => match ts_parts_of(s) {
            Some(p) => Some((p.0 * 1_000_000 + p.1) as i64),
            None => None,
        },
        _ => None,
    }
}

/// Whether a timestamp lies strictly inside the window: a record stamped
/// exactly `from` or exactly `to` is outside.
pub open spec fn in_window(ts: i64, from: Option<i64>, to: Option<i64>) -> bool {
    &&& (from matches Some(f) ==> ts > f)
    &&& (to matches Some(t) ==> ts < t)
}

/// What chrono makes of a timestamp string: seconds since the epoch and the
/// microsecond part, a function of the characters alone.
pub uninterp spec fn ts_parts_of(s: Seq<char>) -> Option<(i64, u32)>;

/// Relies on chrono's NaiveDateTime::parse_from_str with the format
/// `%Y-%m-%dT%H:%M:%S%.6fZ`, and on DateTime's timestamp and
/// timestamp_subsec_micros: the outcome is a function of the characters
/// alone; chrono's representable range (about ±262,000 years) keeps the
/// seconds within ±9·10^12, and the microsecond part below 2·10^6 (values
/// above 10^6 stand for a leap second).
#[verifier::external_body]
fn parse_system_time(s: &str) -> (r: Option<(i64, u32)>)
    ensures
        r == ts_parts_of(s@),
        r matches Some(p) ==> -9_000_000_000_000 <= p.0 <= 9_000_000_000_000 && p.1 < 2_000_000,
{
    match chrono::NaiveDateTime::parse_from_str(s, "%Y-%m-%dT%H:%M:%S%.6fZ") {
        Ok(t) => {
            let utc = t.and_utc();
            Some((utc.timestamp(), utc.timestamp_subsec_micros()))
        },
        Err(_) => None,
    }
}

impl Record {
    /// The first field of the record at the given path, if any.
    pub fn find(&self, key: &String) -> (r: Option<&FieldValue>)
        ensures
            match r {
                Some(v) => spec_find(self@, key@) == Some(v@),
                None => spec_find(self@, key@) is None,
            },
    {
        let n: usize = self.fields.len();
        let mut i: usize = 0;
        assert(self@.fields.skip(0) =~= self@.fields);
        while i < n
            invariant
                0 <= i <= n,
                n == self.fields.len(),
                find_in(self@.fields, key@) == find_in(self@.fields.skip(i as int), key@),
            decreases n - i,
        {
            assert(self@.fields.skip(i as int)[0] == (self.fields@[i as int].0@,
            self.fields@[i as int].1@));
            if self.fields[i].0 == *key {
                assert(find_in(self@.fields.skip(i as int), key@) == Some(
                    self.fields@[i as int].1@,
                ));
                return Some(&self.fields[i].1);
            }
            assert(self@.fields.skip(i as int).drop_first() =~= self@.fields.skip(i as int + 1));
            i += 1;
        }
        assert(self@.fields.skip(n as int) =~= Seq::<(Seq<char>, FieldValueV)>::empty());
        None
    }

    /// The record's creation timestamp in microseconds since the epoch, or
    /// nothing when it cannot be derived.
    pub fn created(&self) -> (r: Option<i64>)
        ensures
            r == spec_created(self@),
    {
        let key = String::from_str("Event.System.TimeCreated_attributes.SystemTime");
        match self.find(&key) {
            Some(FieldValue::Str(s)) => match parse_system_time(s.as_str()) {
                Some(p) => Some(p.0 * 1_000_000 + p.1 as i64),
                None => None,
            },
            _ => None,
        }
    }

    /// A copy of the record.
    pub fn duplicate(&self) -> (r: Record)
        ensures
            r@ == self@,
    {
        let n: usize = self.fields.len();
        let mut fields: Vec<(String, FieldValue)> = Vec::new();
        let mut i: usize = 0;
        while i < n
            invariant
                0 <= i <= n,
                n == self.fields.len(),
                fields@.len() == i,
                forall|j: int|
                    0 <= j < i ==> (#[trigger] fields@[j]).0@ == self.fields@[j].0@ && fields@[
                        j
                    ].1@ == self.fields@[j].1@,
            decreases n - i,
        {
            let name = self.fields[i].0.clone();
            let value = dup_value(&self.fields[i].1);
            fields.push((name, value));
            i += 1;
        }
        let r = Record { fields, text: self.text.clone() };
        assert(r@.fields =~= self@.fields);
        r
    }
}

/// The closed set of supported container formats: a tagged union with one
/// variant per format, so callers never branch on runtime type.
#[derive(Debug)]
pub enum Document {
    /// A record from a Windows event log container.
    Evtx(Record),
}

/// The mathematical model of a [`Document`].
pub enum DocumentV {
    Evtx(RecordV),
}

impl View for Document {
    type V = DocumentV;

    open spec fn view(&self) -> DocumentV {
        match self {
            Document::Evtx(r) => DocumentV::Evtx(r@),
        }
    }
}

/// The format tag of a document.
pub open spec fn kind_of(d: DocumentV) -> Seq<char> {
    match d {
        DocumentV::Evtx(_) => "evtx"@,
    }
}

/// The record a document wraps.
pub open spec fn record_of(d: DocumentV) -> RecordV {
    match d {
        DocumentV::Evtx(r) => r,
    }
}

/// The view of one decoded record outcome.
pub open spec fn rec_view(x: Result<Document, crate::Error>) -> Result<DocumentV, crate::Error> {
    match x {
        Ok(d) => Ok(d@),
        Err(e) => Err(e),
    }
}

/// The view of a decoded record stream.
pub open spec fn recs_view(c: Seq<Result<Document, crate::Error>>) -> Seq<
    Result<DocumentV, crate::Error>,
> {
    c.map_values(|x: Result<Document, crate::Error>| rec_view(x))
}

/// The view of a list of documents.
pub open spec fn docs_view(c: Seq<Document>) -> Seq<DocumentV> {
    c.map_values(|d: Document| d@)
}

impl Document {
    /// The format tag of the document.
    pub fn kind(&self) -> (r: String)
        ensures
            r@ == kind_of(self@),
    {
        match self {
            Document::Evtx(_) => String::from_str("evtx"),
        }
    }

    /// The record the document wraps.
    pub fn record(&self) -> (r: &Record)
        ensures
            r@ == record_of(self@),
    {
        match self {
            Document::Evtx(r) => r,
        }
    }

    /// A copy of the document.
    pub fn duplicate(&self) -> (r: Document)
        ensures
            r@ == self@,
    {
        match self {
            Document::Evtx(rec) => Document::Evtx(rec.duplicate()),
        }
    }
}

} // verus!
