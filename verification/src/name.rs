//! One record of a face's naming table.
use crate::native::{Handle, NameRecord};
use crate::protocol::{Pending, Step};
use vstd::prelude::*;
use vstd::utf8::*;

verus! {

/// A native naming-table record and a copy of what the query put into it.
///
/// The record is memory of its own, taken from the system allocator before the
/// query runs and returned by `release`; it is not tied to the face it was
/// filled from.
#[derive(Debug, PartialEq, Eq)]
#[must_use]
pub struct SfntName {
    pub raw: Handle,
    /// What the record holds, once a query has filled it.
    pub record: Option<NameRecord>,
}

impl SfntName {
    /// Begins allocating an empty record.
    pub fn new() -> (step: Step<'static>)
        ensures
            step == Step::Await(Pending::AllocName { lookup: None }),
    {
        Step::Await(Pending::AllocName { lookup: None })
    }

    /// The record is filled and its bytes are well-formed UTF-8.
    pub open spec fn is_text(&self) -> bool {
        self.record matches Some(record) && record.is_text()
    }

    /// Whether `name` may be called.
    pub fn has_text(&self) -> (yes: bool)
        ensures
            yes == self.is_text(),
    {
        match &self.record {
            Some(record) => record.has_text(),
            None => false,
        }
    }

    /// The record's bytes as text.
    pub fn name(&self) -> (text: &str)
        requires
            self.is_text(),
        ensures
            text@ == decode_utf8(self.record->0.string@),
    {
        match &self.record {
            Some(record) => record.text(),
            None => vstd::pervasive::unreached(),
        }
    }

    /// Begins returning the record to the system allocator.
    pub fn release(self) -> (step: Step<'static>)
        ensures
            step == Step::Await(Pending::DropName { raw: self.raw }),
    {
        Step::Await(Pending::DropName { raw: self.raw })
    }
}

} // verus!
