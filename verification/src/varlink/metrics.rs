//! One metric of systemd's `io.systemd.Metrics.List` stream, as a plain
//! value.
use vstd::prelude::*;

use crate::strmap::StrMap;
use crate::text::after_last;

verus! {

/// A metric's value: an integer, a string, or something else (a boolean, a
/// fraction, an integer beyond `i64`, a list, an object, or nothing).
#[derive(Clone, Debug, PartialEq, Eq)]
pub enum MetricValue {
    Int(i64),
    Str(String),
    Other,
}

/// One metric: its dotted name ("io.systemd.Manager.UnitActiveState"), its
/// value, the object it describes (a unit name) and extra fields.
#[derive(Debug)]
pub struct ListOutput {
    pub name: String,
    pub value: MetricValue,
    pub object: Option<String>,
    pub fields: Option<StrMap<MetricValue>>,
}

/// The last component of the metric's name.
pub open spec fn metric_suffix(m: ListOutput) -> Seq<char> {
    after_last(m.name@, '.')
}

/// The object the metric describes, empty when there is none.
pub open spec fn metric_object(m: ListOutput) -> Seq<char> {
    match m.object {
        Some(o) => o@,
        None => Seq::empty(),
    }
}

/// A field's value, when the metric has that field and it is a string.
pub open spec fn metric_field_str(m: ListOutput, key: Seq<char>) -> Option<Seq<char>> {
    match m.fields {
        Some(f) => if f@.dom().contains(key) {
            match f@[key] {
                MetricValue::Str(s) => Some(s@),
                _ => None,
            }
        } else {
            None
        },
        None => None,
    }
}

impl ListOutput {
    /// The last component of the metric's name, e.g. "UnitActiveState".
    pub fn name_suffix(&self) -> (r: String)
        ensures
            r@ == metric_suffix(*self),
    {
        crate::text::string_after_last(self.name.as_str(), '.')
    }

    /// The object the metric describes, empty when there is none.
    pub fn object_name(&self) -> (r: String)
        ensures
            r@ == metric_object(*self),
    {
        match &self.object {
            Some(o) => o.clone(),
            None => String::new(),
        }
    }

    /// A field's value, when the metric has that field and it is a string.
    pub fn get_field_as_str(&self, key: &str) -> (r: Option<String>)
        ensures
            match r {
                Some(s) => metric_field_str(*self, key@) == Some(s@),
                None => metric_field_str(*self, key@) is None,
            },
    {
        match &self.fields {
            Some(f) => match f.get(key) {
                Some(MetricValue::Str(s)) => Some(s.clone()),
                _ => None,
            },
            None => None,
        }
    }
}

} // verus!
