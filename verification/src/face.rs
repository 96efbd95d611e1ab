//! An open font face and the queries it answers.
use crate::library::Library;
use crate::native::Handle;
use crate::path::{c_string, first_nul, nul_free};
use crate::protocol::{Lookup, Outcome, Pending, Step};
use crate::status::Error;
use vstd::prelude::*;
use vstd::string::*;

verus! {

/// One claim on a native face, opened from the library it borrows.
///
/// The borrow keeps the library from being released while the face lives.
#[derive(Debug, PartialEq, Eq)]
#[must_use]
pub struct Face<'a> {
    pub library: &'a Library,
    pub raw: Handle,
}

impl<'a> Face<'a> {
    /// What opening a face from `library` begins with, for a path made of the
    /// bytes `path`.
    ///
    /// A path with a zero byte ends the operation at once, with the offset of
    /// the first such byte and without a native call. Any other path is handed
    /// to the native side as a C string, with the library's handle and the index.
    pub open spec fn opening(step: Step<'a>, library: &Library, path: Seq<u8>, face_index: i64) -> bool {
        match step {
            Step::Done(outcome) => outcome matches Outcome::Face(Err(Error::Encoding(at)))
                && first_nul(path, at as int),
            Step::Await(pending) => pending matches Pending::OpenFace { library: from, path: encoded, face_index: index }
                && nul_free(path) && *from == *library && encoded@ == path.push(0u8) && index == face_index,
        }
    }

    /// Begins opening face `face_index` of the font file at `path`.
    pub fn new(library: &'a Library, path: &str, face_index: i64) -> (step: Step<'a>)
        ensures
            Self::opening(step, library, path.spec_bytes(), face_index),
    {
        match c_string(path) {
            Ok(encoded) => Step::Await(Pending::OpenFace { library, path: encoded, face_index }),
            Err(error) => Step::Done(Outcome::Face(Err(error))),
        }
    }

    /// Adopts a face whose reference the caller hands over.
    ///
    /// No native call is made and no reference is added: the caller must hold a
    /// reference that nobody else will give up, on a face of `library`.
    pub fn from_raw(library: &'a Library, raw: Handle) -> (face: Face<'a>)
        ensures
            face == (Face { library, raw }),
    {
        Face { library, raw }
    }

    /// Begins sharing a face of `library` that somebody else keeps using.
    pub fn from_raw_with_ref(library: &'a Library, raw: Handle) -> (step: Step<'a>)
        ensures
            step == Step::Await(Pending::ShareFace { library, raw }),
    {
        Step::Await(Pending::ShareFace { library, raw })
    }

    /// Begins counting the records of the face's naming table.
    pub fn sfnt_name_count(&self) -> (step: Step<'static>)
        ensures
            step == Step::Await(Pending::CountNames { face: self.raw }),
    {
        Step::Await(Pending::CountNames { face: self.raw })
    }

    /// The index that the native side sees for `index`: the index itself
    /// where it fits, and otherwise the greatest index there is.
    ///
    /// A naming table has fewer records than that greatest index, so an index
    /// that is too large to hand over is refused like any other that is past
    /// the end; it is never taken for a record that exists.
    pub open spec fn native_index(index: usize) -> u32 {
        if index > u32::MAX {
            u32::MAX
        } else {
            index as u32
        }
    }

    /// Begins fetching record `index` of the face's naming table.
    ///
    /// The index is not held against the count here: one at or past the end is
    /// for the native side to refuse, and it reaches the native side as one
    /// that is at or past the end.
    pub fn sfnt_name_at(&self, index: usize) -> (step: Step<'static>)
        ensures
            step == Step::Await(
                Pending::AllocName {
                    lookup: Some(Lookup { face: self.raw, index: Self::native_index(index), keep: true }),
                },
            ),
    {
        let narrow: u32 = if index > u32::MAX as usize {
            u32::MAX
        } else {
            index as u32
        };
        Step::Await(Pending::AllocName { lookup: Some(Lookup { face: self.raw, index: narrow, keep: true }) })
    }

    /// Begins fetching the face's variation descriptor.
    pub fn mm_var<'b>(&'b self) -> (step: Step<'b>)
        ensures
            step == Step::Await(Pending::FetchMmVar { face: self }),
    {
        Step::Await(Pending::FetchMmVar { face: self })
    }

    /// Begins giving up this claim on the face.
    pub fn release(self) -> (step: Step<'static>)
        ensures
            step == Step::Await(Pending::DropFace { raw: self.raw }),
    {
        Step::Await(Pending::DropFace { raw: self.raw })
    }
}

} // verus!
