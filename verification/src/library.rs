//! The runtime instance that every face is opened from.
use crate::face::Face;
use crate::native::Handle;
use crate::protocol::{Pending, Step};
use vstd::prelude::*;
use vstd::string::*;

verus! {

/// One claim on a native runtime instance.
///
/// The claim is given up by `release`, which takes the value: it cannot be
/// given up twice, and not while a `Face` still borrows the library.
#[derive(Debug, PartialEq, Eq)]
#[must_use]
pub struct Library {
    pub raw: Handle,
}

impl Library {
    /// Begins the creation of a fresh runtime instance.
    ///
    /// The instance comes back with a reference count of one, which the
    /// resulting `Library` owns.
    pub fn new() -> (step: Step<'static>)
        ensures
            step == Step::Await(Pending::CreateLibrary),
    {
        Step::Await(Pending::CreateLibrary)
    }

    /// Adopts a runtime instance whose reference the caller hands over.
    ///
    /// No native call is made and no reference is added: the caller must hold a
    /// reference that nobody else will give up.
    pub fn from_raw(raw: Handle) -> (library: Library)
        ensures
            library == (Library { raw }),
    {
        Library { raw }
    }

    /// Begins sharing a runtime instance that somebody else keeps using.
    ///
    /// A reference is added first, so that the resulting `Library` has one of
    /// its own to give up.
    pub fn from_raw_with_ref(raw: Handle) -> (step: Step<'static>)
        ensures
            step == Step::Await(Pending::ShareLibrary { raw }),
    {
        Step::Await(Pending::ShareLibrary { raw })
    }

    /// Begins the creation of a runtime instance with the default processing
    /// modules installed.
    pub fn init() -> (step: Step<'static>)
        ensures
            step == Step::Await(Pending::InitCreate),
    {
        Step::Await(Pending::InitCreate)
    }

    /// Begins opening face `face_index` of the font file at `path`; see `Face::new`.
    pub fn new_face<'a>(&'a self, path: &str, face_index: i64) -> (step: Step<'a>)
        ensures
            Face::opening(step, self, path.spec_bytes(), face_index),
    {
        Face::new(self, path, face_index)
    }

    /// Begins giving up this claim on the runtime instance.
    pub fn release(self) -> (step: Step<'static>)
        ensures
            step == Step::Await(Pending::DropLibrary { raw: self.raw }),
    {
        Step::Await(Pending::DropLibrary { raw: self.raw })
    }
}

} // verus!
