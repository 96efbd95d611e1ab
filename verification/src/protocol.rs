//! The conversation between this crate and the native side.
//!
//! An operation is a `Step`: either it is `Done`, or it `Await`s the answer to
//! one native call. The caller makes the call that `Pending::call` names, checks
//! the answer with `Pending::admits` and hands it to `Pending::resume`, which
//! gives the next step. Nothing else in the crate decides what the native side
//! is asked to do.
use crate::face::Face;
use crate::library::Library;
use crate::name::SfntName;
use crate::native::{Call, Handle, MmVarRecord, NameRecord, Reply};
use crate::status::{try_dispatch, Error, FT_Err_Ok};
use crate::variation::MMVar;
use vstd::prelude::*;

verus! {

/// A naming-table query: which record of which face, and for whom.
#[derive(Clone, Copy, Debug, PartialEq, Eq, Structural)]
pub struct Lookup {
    pub face: Handle,
    pub index: u32,
    /// Whether the caller keeps the native record. Otherwise only its contents
    /// are wanted, as text, and the record is freed before the operation ends.
    pub keep: bool,
}

/// An operation that waits for the answer to a native call.
#[derive(Debug, PartialEq, Eq)]
#[allow(inconsistent_fields)]
pub enum Pending<'a> {
    /// `Library::new`: the instance is being created.
    CreateLibrary,
    /// `Library::init`: the instance is being created.
    InitCreate,
    /// `Library::init`: the default modules are being installed into `raw`.
    InitModules { raw: Handle },
    /// `Library::init`: the modules failed with `code`, and `raw` is being torn down.
    InitAbandon { raw: Handle, code: i32 },
    /// `Library::from_raw_with_ref`: a reference to `raw` is being added.
    ShareLibrary { raw: Handle },
    /// `Library::release`.
    DropLibrary { raw: Handle },
    /// `Face::new`: the file is being opened.
    OpenFace { library: &'a Library, path: Vec<u8>, face_index: i64 },
    /// `Face::from_raw_with_ref`: a reference to `raw` is being added.
    ShareFace { library: &'a Library, raw: Handle },
    /// `Face::release`.
    DropFace { raw: Handle },
    /// `Face::sfnt_name_count`.
    CountNames { face: Handle },
    /// A naming-table record is being allocated: an empty one for
    /// `SfntName::new`, or the one that `lookup` will fill.
    AllocName { lookup: Option<Lookup> },
    /// The query of `lookup` is filling `record`.
    FetchName { lookup: Lookup, record: Handle },
    /// The contents of `record`, which the query filled, are being copied out.
    ReadName { record: Handle, keep: bool },
    /// The query failed with `code`, and `record` is being freed.
    DiscardName { record: Handle, code: i32, keep: bool },
    /// Only the contents `found` were wanted, and `record` is being freed.
    FreeName { record: Handle, found: NameRecord },
    /// `SfntName::release`.
    DropName { raw: Handle },
    /// `Face::mm_var`: the descriptor is being built.
    FetchMmVar { face: &'a Face<'a> },
    /// `Face::mm_var`: the contents of descriptor `raw` are being copied out.
    ReadMmVar { face: &'a Face<'a>, raw: Handle },
    /// `MMVar::release`: descriptor `raw` is being destroyed through library `owner`.
    DropMmVar { owner: Handle, raw: Handle },
}

/// What an operation ended with.
#[derive(Debug, PartialEq, Eq)]
pub enum Outcome<'a> {
    /// A claim was given up.
    Released,
    /// `Library::new`, `Library::init`, `Library::from_raw_with_ref`.
    Library(Result<Library, Error>),
    /// `Face::new`, `Face::from_raw_with_ref`.
    Face(Result<Face<'a>, Error>),
    /// `Face::sfnt_name_count`.
    Count(usize),
    /// `SfntName::new`, `Face::sfnt_name_at`.
    Name(Result<SfntName, Error>),
    /// `VarAxis::sfnt_name`: the record of the axis's display name, which is
    /// text, or nothing where the naming table has no such record.
    AxisName(Option<NameRecord>),
    /// `Face::mm_var`.
    MmVar(Result<MMVar<'a>, Error>),
}

/// Where an operation stands.
#[derive(Debug, PartialEq, Eq)]
pub enum Step<'a> {
    /// A native call is to be made, and its answer handed to `Pending::resume`.
    Await(Pending<'a>),
    /// The operation is over.
    Done(Outcome<'a>),
}

impl Reply {
    fn status(self) -> (code: i32)
        requires
            self is Status,
        ensures
            self == (Reply::Status { code }),
    {
        match self {
            Reply::Status { code } => code,
            _ => vstd::pervasive::unreached(),
        }
    }

    fn created(self) -> (pair: (i32, Handle))
        requires
            self is Created,
        ensures
            self == (Reply::Created { code: pair.0, handle: pair.1 }),
    {
        match self {
            Reply::Created { code, handle } => (code, handle),
            _ => vstd::pervasive::unreached(),
        }
    }

    fn block(self) -> (handle: Handle)
        requires
            self is Block,
        ensures
            self == (Reply::Block { handle }),
    {
        match self {
            Reply::Block { handle } => handle,
            _ => vstd::pervasive::unreached(),
        }
    }

    fn count(self) -> (count: u32)
        requires
            self is Count,
        ensures
            self == (Reply::Count { count }),
    {
        match self {
            Reply::Count { count } => count,
            _ => vstd::pervasive::unreached(),
        }
    }

    fn name(self) -> (record: NameRecord)
        requires
            self is Name,
        ensures
            self == (Reply::Name { record }),
    {
        match self {
            Reply::Name { record } => record,
            _ => vstd::pervasive::unreached(),
        }
    }

    fn variations(self) -> (record: MmVarRecord)
        requires
            self is Variations,
        ensures
            self == (Reply::Variations { record }),
    {
        match self {
            Reply::Variations { record } => record,
            _ => vstd::pervasive::unreached(),
        }
    }
}

impl<'a> Pending<'a> {
    /// The native call that this operation waits for.
    pub open spec fn spec_call(&self) -> Call<'_> {
        match self {
            Pending::CreateLibrary => Call::NewLibrary,
            Pending::InitCreate => Call::NewLibrary,
            Pending::InitModules { raw } => Call::AddDefaultModules { library: *raw },
            Pending::InitAbandon { raw, code } => Call::DoneLibrary { library: *raw },
            Pending::ShareLibrary { raw } => Call::ReferenceLibrary { library: *raw },
            Pending::DropLibrary { raw } => Call::DoneLibrary { library: *raw },
            Pending::OpenFace { library, path, face_index } => Call::NewFace {
                library: library.raw,
                path: path,
                face_index: *face_index,
            },
            Pending::ShareFace { library, raw } => Call::ReferenceFace { face: *raw },
            Pending::DropFace { raw } => Call::DoneFace { face: *raw },
            Pending::CountNames { face } => Call::GetSfntNameCount { face: *face },
            Pending::AllocName { lookup } => Call::AllocSfntName,
            Pending::FetchName { lookup, record } => Call::GetSfntName {
                face: lookup.face,
                index: lookup.index,
                record: *record,
            },
            Pending::ReadName { record, keep } => Call::ReadSfntName { record: *record },
            Pending::DiscardName { record, code, keep } => Call::FreeSfntName { record: *record },
            Pending::FreeName { record, found } => Call::FreeSfntName { record: *record },
            Pending::DropName { raw } => Call::FreeSfntName { record: *raw },
            Pending::FetchMmVar { face } => Call::GetMmVar { face: face.raw },
            Pending::ReadMmVar { face, raw } => Call::ReadMmVar { mm_var: *raw },
            Pending::DropMmVar { owner, raw } => Call::DoneMmVar { library: *owner, mm_var: *raw },
        }
    }

    /// The native call to make now.
    pub fn call(&self) -> (call: Call<'_>)
        ensures
            call == self.spec_call(),
    {
        match self {
            Pending::CreateLibrary => Call::NewLibrary,
            Pending::InitCreate => Call::NewLibrary,
            Pending::InitModules { raw } => Call::AddDefaultModules { library: *raw },
            Pending::InitAbandon { raw, code: _ } => Call::DoneLibrary { library: *raw },
            Pending::ShareLibrary { raw } => Call::ReferenceLibrary { library: *raw },
            Pending::DropLibrary { raw } => Call::DoneLibrary { library: *raw },
            Pending::OpenFace { library, path, face_index } => Call::NewFace {
                library: library.raw,
                path: path,
                face_index: *face_index,
            },
            Pending::ShareFace { library: _, raw } => Call::ReferenceFace { face: *raw },
            Pending::DropFace { raw } => Call::DoneFace { face: *raw },
            Pending::CountNames { face } => Call::GetSfntNameCount { face: *face },
            Pending::AllocName { lookup: _ } => Call::AllocSfntName,
            Pending::FetchName { lookup, record } => Call::GetSfntName {
                face: lookup.face,
                index: lookup.index,
                record: *record,
            },
            Pending::ReadName { record, keep: _ } => Call::ReadSfntName { record: *record },
            Pending::DiscardName { record, code: _, keep: _ } => Call::FreeSfntName { record: *record },
            Pending::FreeName { record, found: _ } => Call::FreeSfntName { record: *record },
            Pending::DropName { raw } => Call::FreeSfntName { record: *raw },
            Pending::FetchMmVar { face } => Call::GetMmVar { face: face.raw },
            Pending::ReadMmVar { face: _, raw } => Call::ReadMmVar { mm_var: *raw },
            Pending::DropMmVar { owner, raw } => Call::DoneMmVar { library: *owner, mm_var: *raw },
        }
    }

    /// `reply` is an answer that the awaited call can give and that the
    /// operation can go on from.
    ///
    /// An answer of the wrong shape is never one. Nor is a failure to add or to
    /// give up a reference: nothing can be done about a handle whose bookkeeping
    /// is broken. What was copied out of a native block has to be well formed;
    /// and where only text is wanted of a naming-table record, its bytes have to
    /// be text.
    pub open spec fn accepts(&self, reply: Reply) -> bool {
        match self {
            Pending::CreateLibrary => reply is Created,
            Pending::InitCreate => reply is Created,
            Pending::InitModules { raw } => reply is Status,
            Pending::InitAbandon { raw, code } => reply == (Reply::Status { code: FT_Err_Ok }),
            Pending::ShareLibrary { raw } => reply == (Reply::Status { code: FT_Err_Ok }),
            Pending::DropLibrary { raw } => reply == (Reply::Status { code: FT_Err_Ok }),
            Pending::OpenFace { library, path, face_index } => reply is Created,
            Pending::ShareFace { library, raw } => reply == (Reply::Status { code: FT_Err_Ok }),
            Pending::DropFace { raw } => reply == (Reply::Status { code: FT_Err_Ok }),
            Pending::CountNames { face } => reply is Count,
            Pending::AllocName { lookup } => reply is Block,
            Pending::FetchName { lookup, record } => reply is Status,
            Pending::ReadName { record, keep } => reply matches Reply::Name { record: found } && found.wf()
                && (*keep || found.is_text()),
            Pending::DiscardName { record, code, keep } => reply is Nothing,
            Pending::FreeName { record, found } => reply is Nothing,
            Pending::DropName { raw } => reply is Nothing,
            Pending::FetchMmVar { face } => reply is Created,
            Pending::ReadMmVar { face, raw } => reply matches Reply::Variations { record: data }
                && data.wf(),
            Pending::DropMmVar { owner, raw } => reply == (Reply::Status { code: FT_Err_Ok }),
        }
    }

    /// Whether `reply` may be handed to `resume`.
    pub fn admits(&self, reply: &Reply) -> (yes: bool)
        ensures
            yes == self.accepts(*reply),
    {
        match self {
            Pending::CreateLibrary | Pending::InitCreate | Pending::OpenFace { .. } | Pending::FetchMmVar { .. } => {
                match reply {
                    Reply::Created { .. } => true,
                    _ => false,
                }
            },
            Pending::InitModules { .. } | Pending::FetchName { .. } => match reply {
                Reply::Status { .. } => true,
                _ => false,
            },
            Pending::InitAbandon { .. }
            | Pending::ShareLibrary { .. }
            | Pending::DropLibrary { .. }
            | Pending::ShareFace { .. }
            | Pending::DropFace { .. }
            | Pending::DropMmVar { .. } => match reply {
                Reply::Status { code } => *code == FT_Err_Ok,
                _ => false,
            },
            Pending::CountNames { .. } => match reply {
                Reply::Count { .. } => true,
                _ => false,
            },
            Pending::AllocName { .. } => match reply {
                Reply::Block { .. } => true,
                _ => false,
            },
            Pending::ReadName { record: _, keep } => match reply {
                Reply::Name { record } => record.is_wf() && (*keep || record.has_text()),
                _ => false,
            },
            Pending::DiscardName { .. } | Pending::FreeName { .. } | Pending::DropName { .. } => match reply {
                Reply::Nothing => true,
                _ => false,
            },
            Pending::ReadMmVar { .. } => match reply {
                Reply::Variations { record } => record.is_wf(),
                _ => false,
            },
        }
    }

    /// Where the operation stands once the awaited call has answered `reply`.
    pub open spec fn next(self, reply: Reply) -> Step<'a> {
        match self {
            Pending::CreateLibrary => Step::Done(
                Outcome::Library(
                    if reply->Created_code == FT_Err_Ok {
                        Ok(Library { raw: reply->Created_handle })
                    } else {
                        Err(Error::Initialization(reply->Created_code))
                    },
                ),
            ),
            Pending::InitCreate => if reply->Created_code == FT_Err_Ok {
                Step::Await(Pending::InitModules { raw: reply->Created_handle })
            } else {
                Step::Done(Outcome::Library(Err(Error::Initialization(reply->Created_code))))
            },
            Pending::InitModules { raw } => if reply->Status_code == FT_Err_Ok {
                Step::Done(Outcome::Library(Ok(Library { raw })))
            } else {
                Step::Await(Pending::InitAbandon { raw, code: reply->Status_code })
            },
            Pending::InitAbandon { raw, code } => Step::Done(Outcome::Library(Err(Error::Initialization(code)))),
            Pending::ShareLibrary { raw } => Step::Done(Outcome::Library(Ok(Library { raw }))),
            Pending::DropLibrary { raw } => Step::Done(Outcome::Released),
            Pending::OpenFace { library, path, face_index } => Step::Done(
                Outcome::Face(
                    if reply->Created_code == FT_Err_Ok {
                        Ok(Face { library, raw: reply->Created_handle })
                    } else {
                        Err(Error::Native(reply->Created_code))
                    },
                ),
            ),
            Pending::ShareFace { library, raw } => Step::Done(Outcome::Face(Ok(Face { library, raw }))),
            Pending::DropFace { raw } => Step::Done(Outcome::Released),
            Pending::CountNames { face } => Step::Done(Outcome::Count(reply->count as usize)),
            Pending::AllocName { lookup } => match lookup {
                Some(lookup) => Step::Await(Pending::FetchName { lookup, record: reply->Block_handle }),
                None => Step::Done(Outcome::Name(Ok(SfntName { raw: reply->Block_handle, record: None }))),
            },
            Pending::FetchName { lookup, record } => if reply->Status_code == FT_Err_Ok {
                Step::Await(Pending::ReadName { record, keep: lookup.keep })
            } else {
                Step::Await(Pending::DiscardName { record, code: reply->Status_code, keep: lookup.keep })
            },
            Pending::ReadName { record, keep } => if keep {
                Step::Done(Outcome::Name(Ok(SfntName { raw: record, record: Some(reply->Name_record) })))
            } else {
                Step::Await(Pending::FreeName { record, found: reply->Name_record })
            },
            Pending::DiscardName { record, code, keep } => if keep {
                Step::Done(Outcome::Name(Err(Error::Native(code))))
            } else {
                Step::Done(Outcome::AxisName(None))
            },
            Pending::FreeName { record, found } => Step::Done(Outcome::AxisName(Some(found))),
            Pending::DropName { raw } => Step::Done(Outcome::Released),
            Pending::FetchMmVar { face } => if reply->Created_code == FT_Err_Ok {
                Step::Await(Pending::ReadMmVar { face, raw: reply->Created_handle })
            } else {
                Step::Done(Outcome::MmVar(Err(Error::Native(reply->Created_code))))
            },
            Pending::ReadMmVar { face, raw } => Step::Done(
                Outcome::MmVar(Ok(MMVar { raw, library: face.library, face, data: reply->Variations_record })),
            ),
            Pending::DropMmVar { owner, raw } => Step::Done(Outcome::Released),
        }
    }

    /// Takes the answer to the awaited call and gives the next step.
    pub fn resume(self, reply: Reply) -> (step: Step<'a>)
        requires
            self.accepts(reply),
        ensures
            step == self.next(reply),
    {
        match self {
            Pending::CreateLibrary => {
                let (code, handle) = reply.created();
                match try_dispatch(code) {
                    Ok(()) => Step::Done(Outcome::Library(Ok(Library { raw: handle }))),
                    Err(code) => Step::Done(Outcome::Library(Err(Error::Initialization(code)))),
                }
            },
            Pending::InitCreate => {
                let (code, handle) = reply.created();
                match try_dispatch(code) {
                    Ok(()) => Step::Await(Pending::InitModules { raw: handle }),
                    Err(code) => Step::Done(Outcome::Library(Err(Error::Initialization(code)))),
                }
            },
            Pending::InitModules { raw } => match try_dispatch(reply.status()) {
                Ok(()) => Step::Done(Outcome::Library(Ok(Library { raw }))),
                Err(code) => Step::Await(Pending::InitAbandon { raw, code }),
            },
            Pending::InitAbandon { raw: _, code } => Step::Done(
                Outcome::Library(Err(Error::Initialization(code))),
            ),
            Pending::ShareLibrary { raw } => Step::Done(Outcome::Library(Ok(Library { raw }))),
            Pending::DropLibrary { raw: _ } => Step::Done(Outcome::Released),
            Pending::OpenFace { library, path: _, face_index: _ } => {
                let (code, handle) = reply.created();
                match try_dispatch(code) {
                    Ok(()) => Step::Done(Outcome::Face(Ok(Face { library, raw: handle }))),
                    Err(code) => Step::Done(Outcome::Face(Err(Error::Native(code)))),
                }
            },
            Pending::ShareFace { library, raw } => Step::Done(Outcome::Face(Ok(Face { library, raw }))),
            Pending::DropFace { raw: _ } => Step::Done(Outcome::Released),
            Pending::CountNames { face: _ } => Step::Done(Outcome::Count(reply.count() as usize)),
            Pending::AllocName { lookup } => {
                let record = reply.block();
                match lookup {
                    Some(lookup) => Step::Await(Pending::FetchName { lookup, record }),
                    None => Step::Done(Outcome::Name(Ok(SfntName { raw: record, record: None }))),
                }
            },
            Pending::FetchName { lookup, record } => match try_dispatch(reply.status()) {
                Ok(()) => Step::Await(Pending::ReadName { record, keep: lookup.keep }),
                Err(code) => Step::Await(Pending::DiscardName { record, code, keep: lookup.keep }),
            },
            Pending::ReadName { record, keep } => {
                let found = reply.name();
                if keep {
                    Step::Done(Outcome::Name(Ok(SfntName { raw: record, record: Some(found) })))
                } else {
                    Step::Await(Pending::FreeName { record, found })
                }
            },
            Pending::DiscardName { record: _, code, keep } => if keep {
                Step::Done(Outcome::Name(Err(Error::Native(code))))
            } else {
                Step::Done(Outcome::AxisName(None))
            },
            Pending::FreeName { record: _, found } => Step::Done(Outcome::AxisName(Some(found))),
            Pending::DropName { raw: _ } => Step::Done(Outcome::Released),
            Pending::FetchMmVar { face } => {
                let (code, handle) = reply.created();
                match try_dispatch(code) {
                    Ok(()) => Step::Await(Pending::ReadMmVar { face, raw: handle }),
                    Err(code) => Step::Done(Outcome::MmVar(Err(Error::Native(code)))),
                }
            },
            Pending::ReadMmVar { face, raw } => Step::Done(
                Outcome::MmVar(Ok(MMVar { raw, library: face.library, face, data: reply.variations() })),
            ),
            Pending::DropMmVar { owner: _, raw: _ } => Step::Done(Outcome::Released),
        }
    }
}

} // verus!
