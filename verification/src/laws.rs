//! What every operation does from its first native call to its last.
//!
//! Each law follows one operation through all the answers the native side can
//! give, and says which calls were made, with which handles, and what the
//! caller got.
use crate::face::Face;
use crate::ledger::{law_claims_balance, lemma_net_adds, net, released, run, Claim, Exchange, Kind};
use crate::library::Library;
use crate::name::SfntName;
use crate::native::{Call, Handle, Reply};
use crate::protocol::{Lookup, Outcome, Pending, Step};
use crate::status::{Error, FT_Err_Ok};
use crate::variation::MMVar;
use vstd::prelude::*;

verus! {

/// The kinds of value that an operation can end with: one for each variant of
/// `Outcome`.
pub enum Ending {
    Released,
    Library,
    Face,
    Count,
    Name,
    AxisName,
    MmVar,
}

impl<'a> Pending<'a> {
    /// The operation is the release of a `Library`, `Face`, `SfntName` or `MMVar`.
    pub open spec fn is_release(&self) -> bool {
        self is DropLibrary || self is DropFace || self is DropName || self is DropMmVar
    }

    /// The kind of value that the operation is on its way to.
    pub open spec fn ending(&self) -> Ending {
        match self {
            Pending::CreateLibrary => Ending::Library,
            Pending::InitCreate => Ending::Library,
            Pending::InitModules { .. } => Ending::Library,
            Pending::InitAbandon { .. } => Ending::Library,
            Pending::ShareLibrary { .. } => Ending::Library,
            Pending::DropLibrary { .. } => Ending::Released,
            Pending::OpenFace { .. } => Ending::Face,
            Pending::ShareFace { .. } => Ending::Face,
            Pending::DropFace { .. } => Ending::Released,
            Pending::CountNames { .. } => Ending::Count,
            Pending::AllocName { lookup } => match lookup {
                Some(lookup) if !lookup.keep => Ending::AxisName,
                _ => Ending::Name,
            },
            Pending::FetchName { lookup, .. } => if lookup.keep {
                Ending::Name
            } else {
                Ending::AxisName
            },
            Pending::ReadName { keep, .. } => if *keep {
                Ending::Name
            } else {
                Ending::AxisName
            },
            Pending::DiscardName { keep, .. } => if *keep {
                Ending::Name
            } else {
                Ending::AxisName
            },
            Pending::FreeName { .. } => Ending::AxisName,
            Pending::DropName { .. } => Ending::Released,
            Pending::FetchMmVar { .. } => Ending::MmVar,
            Pending::ReadMmVar { .. } => Ending::MmVar,
            Pending::DropMmVar { .. } => Ending::Released,
        }
    }
}

impl<'a> Outcome<'a> {
    /// The kind of value that the operation ended with.
    pub open spec fn ending(&self) -> Ending {
        match self {
            Outcome::Released => Ending::Released,
            Outcome::Library(_) => Ending::Library,
            Outcome::Face(_) => Ending::Face,
            Outcome::Count(_) => Ending::Count,
            Outcome::Name(_) => Ending::Name,
            Outcome::AxisName(_) => Ending::AxisName,
            Outcome::MmVar(_) => Ending::MmVar,
        }
    }
}

impl<'a> Step<'a> {
    /// The kind of value that the operation is on its way to, or has ended with.
    pub open spec fn ending(&self) -> Ending {
        match self {
            Step::Await(pending) => pending.ending(),
            Step::Done(outcome) => outcome.ending(),
        }
    }
}

/// An operation ends with the kind of value it set out for, whatever the
/// native side answers: a caller that began a library's creation never has to
/// expect a face.
pub proof fn law_ending_is_kept(step: Step, replies: Seq<Reply>)
    ensures
        run(step, replies).end.ending() == step.ending(),
    decreases replies.len(),
{
    match step {
        Step::Await(pending) if replies.len() > 0 && pending.accepts(replies[0]) => {
            law_ending_is_kept(pending.next(replies[0]), replies.drop_first());
        },
        _ => {},
    }
}

/// The answers that a run reaches by dropping the ones it has used are the
/// later answers of the sequence it was given.
proof fn lemma_later_replies(replies: Seq<Reply>)
    ensures
        replies.len() > 1 ==> replies.drop_first()[0] == replies[1],
        replies.len() > 2 ==> replies.drop_first().drop_first()[0] == replies[2],
        replies.len() > 3 ==> replies.drop_first().drop_first().drop_first()[0] == replies[3],
{
}

/// A release is one native call: the one that gives up the claim of the
/// value that was released, by the handle that the value held. The descriptor
/// of a variable font is destroyed through the library it was allocated by.
/// If the call reports a failure the release does not go on; otherwise it is
/// over.
pub proof fn law_release_is_one_call(pending: Pending, replies: Seq<Reply>)
    requires
        pending.is_release(),
    ensures
        run(Step::Await(pending), replies).trace.len() <= 1,
        run(Step::Await(pending), replies).end is Done ==> {
            &&& run(Step::Await(pending), replies).end == Step::Done(Outcome::Released)
            &&& run(Step::Await(pending), replies).trace =~= seq![
                Exchange { call: pending.spec_call(), reply: replies[0] },
            ]
            &&& released(pending.spec_call()) == pending.holds()
            &&& pending.holds() is Some
        },
        pending matches Pending::DropLibrary { raw } ==> pending.spec_call() == (Call::DoneLibrary { library: raw }),
        pending matches Pending::DropFace { raw } ==> pending.spec_call() == (Call::DoneFace { face: raw }),
        pending matches Pending::DropName { raw } ==> pending.spec_call() == (Call::FreeSfntName { record: raw }),
        pending matches Pending::DropMmVar { owner, raw } ==> pending.spec_call() == (Call::DoneMmVar {
            library: owner,
            mm_var: raw,
        }),
{
    reveal_with_fuel(run, 3);
}

/// An owning value that an operation created out of nothing, and that is then
/// released, leaves every native object with the references it had before: the
/// native calls of the two operations created one claim and gave that same
/// claim up, once.
pub proof fn law_lifetime_balances(
    begin: Step,
    made: Seq<Reply>,
    release: Pending,
    dropped: Seq<Reply>,
    claim: Claim,
)
    requires
        begin.claim() is None,
        release.is_release(),
        run(begin, made).end is Done,
        release.holds() == run(begin, made).end.claim(),
        run(Step::Await(release), dropped).end is Done,
    ensures
        net(run(begin, made).trace + run(Step::Await(release), dropped).trace, claim) == 0,
        run(Step::Await(release), dropped).trace.len() == 1,
{
    law_claims_balance(begin, made, claim);
    law_claims_balance(Step::Await(release), dropped, claim);
    law_release_is_one_call(release, dropped);
    lemma_net_adds(run(begin, made).trace, run(Step::Await(release), dropped).trace, claim);
}

/// `Library::new`: one call, which creates the instance. The library is
/// returned if and only if that call reports success, and holds the handle the
/// call stored; otherwise the error is the status it reported.
pub proof fn law_new_library(replies: Seq<Reply>)
    requires
        run(Step::Await(Pending::CreateLibrary), replies).end is Done,
    ensures
        ({
            let done = run(Step::Await(Pending::CreateLibrary), replies);
            &&& done.trace =~= seq![Exchange { call: Call::NewLibrary, reply: replies[0] }]
            &&& done.end == Step::Done(
                Outcome::Library(
                    if replies[0]->Created_code == FT_Err_Ok {
                        Ok(Library { raw: replies[0]->Created_handle })
                    } else {
                        Err(Error::Initialization(replies[0]->Created_code))
                    },
                ),
            )
        }),
{
    reveal_with_fuel(run, 3);
}

/// `Library::new`, then `release`: the creation, and one teardown of the
/// handle that the creation returned.
pub proof fn law_library_lifetime(made: Seq<Reply>, library: Library, dropped: Seq<Reply>)
    requires
        run(Step::Await(Pending::CreateLibrary), made).end == Step::Done(Outcome::Library(Ok(library))),
        run(Step::Await(Pending::DropLibrary { raw: library.raw }), dropped).end is Done,
    ensures
        run(Step::Await(Pending::CreateLibrary), made).trace =~= seq![
            Exchange { call: Call::NewLibrary, reply: Reply::Created { code: FT_Err_Ok, handle: library.raw } },
        ],
        run(Step::Await(Pending::DropLibrary { raw: library.raw }), dropped).trace =~= seq![
            Exchange { call: Call::DoneLibrary { library: library.raw }, reply: Reply::Status { code: FT_Err_Ok } },
        ],
{
    reveal_with_fuel(run, 3);
}

/// A library adopted with `Library::from_raw` costs no call to adopt, and its
/// release is the one teardown that gives up the reference the caller handed
/// over.
pub proof fn law_adopted_library(raw: Handle, dropped: Seq<Reply>, claim: Claim)
    requires
        run(Step::Await(Pending::DropLibrary { raw }), dropped).end is Done,
    ensures
        run(Step::Await(Pending::DropLibrary { raw }), dropped).trace =~= seq![
            Exchange { call: Call::DoneLibrary { library: raw }, reply: Reply::Status { code: FT_Err_Ok } },
        ],
        net(run(Step::Await(Pending::DropLibrary { raw }), dropped).trace, claim) == if claim == (Claim {
            kind: Kind::Library,
            handle: raw,
        }) {
            -1int
        } else {
            0int
        },
{
    reveal_with_fuel(run, 3);
    law_claims_balance(Step::Await(Pending::DropLibrary { raw }), dropped, claim);
}

/// A library shared with `Library::from_raw_with_ref` adds one reference to
/// the handle it was given, and its release gives one up: the reference of
/// whoever supplied the handle is untouched.
pub proof fn law_shared_library(raw: Handle, taken: Seq<Reply>, dropped: Seq<Reply>, claim: Claim)
    requires
        run(Step::Await(Pending::ShareLibrary { raw }), taken).end is Done,
        run(Step::Await(Pending::DropLibrary { raw }), dropped).end is Done,
    ensures
        run(Step::Await(Pending::ShareLibrary { raw }), taken).end == Step::Done(
            Outcome::Library(Ok(Library { raw })),
        ),
        run(Step::Await(Pending::ShareLibrary { raw }), taken).trace =~= seq![
            Exchange { call: Call::ReferenceLibrary { library: raw }, reply: Reply::Status { code: FT_Err_Ok } },
        ],
        run(Step::Await(Pending::DropLibrary { raw }), dropped).trace =~= seq![
            Exchange { call: Call::DoneLibrary { library: raw }, reply: Reply::Status { code: FT_Err_Ok } },
        ],
        net(
            run(Step::Await(Pending::ShareLibrary { raw }), taken).trace + run(
                Step::Await(Pending::DropLibrary { raw }),
                dropped,
            ).trace,
            claim,
        ) == 0,
{
    reveal_with_fuel(run, 3);
    law_lifetime_balances(
        Step::Await(Pending::ShareLibrary { raw }),
        taken,
        Pending::DropLibrary { raw },
        dropped,
        claim,
    );
}

/// A face adopted with `Face::from_raw` costs no call to adopt, and its release
/// is the one teardown that gives up the reference the caller handed over.
pub proof fn law_adopted_face(raw: Handle, dropped: Seq<Reply>, claim: Claim)
    requires
        run(Step::Await(Pending::DropFace { raw }), dropped).end is Done,
    ensures
        run(Step::Await(Pending::DropFace { raw }), dropped).trace =~= seq![
            Exchange { call: Call::DoneFace { face: raw }, reply: Reply::Status { code: FT_Err_Ok } },
        ],
        net(run(Step::Await(Pending::DropFace { raw }), dropped).trace, claim) == if claim == (Claim {
            kind: Kind::Face,
            handle: raw,
        }) {
            -1int
        } else {
            0int
        },
{
    reveal_with_fuel(run, 3);
    law_claims_balance(Step::Await(Pending::DropFace { raw }), dropped, claim);
}

/// A face shared with `Face::from_raw_with_ref` adds one reference to the
/// handle it was given, and its release gives one up: the reference of whoever
/// supplied the handle is untouched.
pub proof fn law_shared_face(library: &Library, raw: Handle, taken: Seq<Reply>, dropped: Seq<Reply>, claim: Claim)
    requires
        run(Step::Await(Pending::ShareFace { library, raw }), taken).end is Done,
        run(Step::Await(Pending::DropFace { raw }), dropped).end is Done,
    ensures
        run(Step::Await(Pending::ShareFace { library, raw }), taken).end == Step::Done(
            Outcome::Face(Ok(Face { library, raw })),
        ),
        run(Step::Await(Pending::ShareFace { library, raw }), taken).trace =~= seq![
            Exchange { call: Call::ReferenceFace { face: raw }, reply: Reply::Status { code: FT_Err_Ok } },
        ],
        run(Step::Await(Pending::DropFace { raw }), dropped).trace =~= seq![
            Exchange { call: Call::DoneFace { face: raw }, reply: Reply::Status { code: FT_Err_Ok } },
        ],
        net(
            run(Step::Await(Pending::ShareFace { library, raw }), taken).trace + run(
                Step::Await(Pending::DropFace { raw }),
                dropped,
            ).trace,
            claim,
        ) == 0,
{
    reveal_with_fuel(run, 3);
    law_lifetime_balances(
        Step::Await(Pending::ShareFace { library, raw }),
        taken,
        Pending::DropFace { raw },
        dropped,
        claim,
    );
}

/// `Library::init`, from beginning to end.
///
/// If the creation fails, that is the error and nothing else happens. If the
/// modules are installed, the library is returned. If they are not, the
/// instance that was just created is torn down again before the error is
/// returned: the caller never sees it.
pub proof fn law_init(replies: Seq<Reply>)
    requires
        run(Step::Await(Pending::InitCreate), replies).end is Done,
    ensures
        ({
            let done = run(Step::Await(Pending::InitCreate), replies);
            let raw = replies[0]->Created_handle;
            let create = Exchange { call: Call::NewLibrary, reply: replies[0] };
            let install = Exchange { call: Call::AddDefaultModules { library: raw }, reply: replies[1] };
            let abandon = Exchange { call: Call::DoneLibrary { library: raw }, reply: replies[2] };
            if replies[0]->Created_code != FT_Err_Ok {
                &&& done.trace =~= seq![create]
                &&& done.end == Step::Done(Outcome::Library(Err(Error::Initialization(replies[0]->Created_code))))
            } else if replies[1]->Status_code == FT_Err_Ok {
                &&& done.trace =~= seq![create, install]
                &&& done.end == Step::Done(Outcome::Library(Ok(Library { raw })))
            } else {
                &&& done.trace =~= seq![create, install, abandon]
                &&& done.end == Step::Done(Outcome::Library(Err(Error::Initialization(replies[1]->Status_code))))
            }
        }),
{
    reveal_with_fuel(run, 5);
    lemma_later_replies(replies);
}

/// `Face::new` after the path was encoded: one call, which opens the file in
/// the library the face will borrow. The face is returned if and only if that
/// call reports success, and the error is the status it reported.
pub proof fn law_open_face(library: &Library, path: Vec<u8>, face_index: i64, replies: Seq<Reply>)
    requires
        run(Step::Await(Pending::OpenFace { library, path, face_index }), replies).end is Done,
    ensures
        ({
            let done = run(Step::Await(Pending::OpenFace { library, path, face_index }), replies);
            &&& done.trace =~= seq![
                Exchange { call: Call::NewFace { library: library.raw, path: &path, face_index }, reply: replies[0] },
            ]
            &&& done.end == Step::Done(
                Outcome::Face(
                    if replies[0]->Created_code == FT_Err_Ok {
                        Ok(Face { library, raw: replies[0]->Created_handle })
                    } else {
                        Err(Error::Native(replies[0]->Created_code))
                    },
                ),
            )
        }),
{
    reveal_with_fuel(run, 3);
}

/// `Face::sfnt_name_at` never takes an index past the end for a record that
/// exists: whatever the table's count, an index below it is handed over as it
/// is, and an index at or past it is handed over as one at or past it.
pub proof fn law_index_stays_out_of_range(index: usize, count: u32)
    ensures
        index < count ==> Face::native_index(index) == index,
        index >= count ==> Face::native_index(index) >= count,
{
}

/// `Face::sfnt_name_at`, from beginning to end.
///
/// The record is allocated before the query that fills it. Whatever the index,
/// the query's answer decides: on success the caller gets the record with all
/// the bytes the native side reported, and owns it; on failure the record is
/// freed, once, and the caller gets the status as an error.
pub proof fn law_name_lookup(face: Handle, index: u32, replies: Seq<Reply>)
    requires
        run(
            Step::Await(Pending::AllocName { lookup: Some(Lookup { face, index, keep: true }) }),
            replies,
        ).end is Done,
    ensures
        ({
            let done = run(
                Step::Await(Pending::AllocName { lookup: Some(Lookup { face, index, keep: true }) }),
                replies,
            );
            let record = replies[0]->Block_handle;
            let alloc = Exchange { call: Call::AllocSfntName, reply: replies[0] };
            let fetch = Exchange { call: Call::GetSfntName { face, index, record }, reply: replies[1] };
            let read = Exchange { call: Call::ReadSfntName { record }, reply: replies[2] };
            let free = Exchange { call: Call::FreeSfntName { record }, reply: replies[2] };
            if replies[1]->Status_code == FT_Err_Ok {
                &&& done.trace =~= seq![alloc, fetch, read]
                &&& done.end == Step::Done(
                    Outcome::Name(Ok(SfntName { raw: record, record: Some(replies[2]->Name_record) })),
                )
                &&& replies[2]->Name_record.string@.len() == replies[2]->Name_record.string_len
            } else {
                &&& done.trace =~= seq![alloc, fetch, free]
                &&& done.end == Step::Done(Outcome::Name(Err(Error::Native(replies[1]->Status_code))))
            }
        }),
{
    reveal_with_fuel(run, 5);
    lemma_later_replies(replies);
}

/// `Face::sfnt_name_at` with an index at or past the end of a table of `count`
/// records, on a native side that refuses every query at or past the end: the
/// query that is made is one at or past the end, no record is returned, the
/// error is the status of the refusal, and the record that was allocated for
/// the answer is freed.
pub proof fn law_name_past_the_end(face: Handle, index: usize, count: u32, replies: Seq<Reply>)
    requires
        index >= count,
        run(
            Step::Await(
                Pending::AllocName { lookup: Some(Lookup { face, index: Face::native_index(index), keep: true }) },
            ),
            replies,
        ).end is Done,
        Face::native_index(index) >= count ==> replies[1]->Status_code != FT_Err_Ok,
    ensures
        ({
            let done = run(
                Step::Await(
                    Pending::AllocName {
                        lookup: Some(Lookup { face, index: Face::native_index(index), keep: true }),
                    },
                ),
                replies,
            );
            let record = replies[0]->Block_handle;
            &&& done.end == Step::Done(Outcome::Name(Err(Error::Native(replies[1]->Status_code))))
            &&& done.trace.len() == 3
            &&& done.trace[1].call matches Call::GetSfntName { index: asked, .. } && asked >= count
            &&& done.trace[2].call == (Call::FreeSfntName { record })
        }),
{
    law_index_stays_out_of_range(index, count);
    law_name_lookup(face, Face::native_index(index), replies);
}

/// `VarAxis::sfnt_name`, from beginning to end.
///
/// The lookup is the one of `Face::sfnt_name_at`, but the caller keeps no
/// native record: it is freed, once, whether the query succeeded or not. A
/// query that fails means that the axis has no display name; one that succeeds
/// gives the record's contents, which are text.
pub proof fn law_axis_name(face: Handle, index: u32, replies: Seq<Reply>)
    requires
        run(
            Step::Await(Pending::AllocName { lookup: Some(Lookup { face, index, keep: false }) }),
            replies,
        ).end is Done,
    ensures
        ({
            let done = run(
                Step::Await(Pending::AllocName { lookup: Some(Lookup { face, index, keep: false }) }),
                replies,
            );
            let record = replies[0]->Block_handle;
            let alloc = Exchange { call: Call::AllocSfntName, reply: replies[0] };
            let fetch = Exchange { call: Call::GetSfntName { face, index, record }, reply: replies[1] };
            let read = Exchange { call: Call::ReadSfntName { record }, reply: replies[2] };
            if replies[1]->Status_code == FT_Err_Ok {
                &&& done.trace =~= seq![
                    alloc,
                    fetch,
                    read,
                    Exchange { call: Call::FreeSfntName { record }, reply: replies[3] },
                ]
                &&& done.end == Step::Done(Outcome::AxisName(Some(replies[2]->Name_record)))
                &&& replies[2]->Name_record.wf()
                &&& replies[2]->Name_record.is_text()
            } else {
                &&& done.trace =~= seq![
                    alloc,
                    fetch,
                    Exchange { call: Call::FreeSfntName { record }, reply: replies[2] },
                ]
                &&& done.end == Step::Done(Outcome::AxisName(None))
            }
        }),
{
    reveal_with_fuel(run, 6);
    lemma_later_replies(replies);
}

/// `SfntName::new`: one allocation, whose block the empty record owns.
pub proof fn law_empty_name(replies: Seq<Reply>)
    requires
        run(Step::Await(Pending::AllocName { lookup: None }), replies).end is Done,
    ensures
        ({
            let done = run(Step::Await(Pending::AllocName { lookup: None }), replies);
            &&& done.trace =~= seq![Exchange { call: Call::AllocSfntName, reply: replies[0] }]
            &&& done.end == Step::Done(
                Outcome::Name(Ok(SfntName { raw: replies[0]->Block_handle, record: None })),
            )
        }),
{
    reveal_with_fuel(run, 3);
}

/// `Face::sfnt_name_count`: one query, whose count is the answer.
pub proof fn law_name_count(face: Handle, replies: Seq<Reply>)
    requires
        run(Step::Await(Pending::CountNames { face }), replies).end is Done,
    ensures
        ({
            let done = run(Step::Await(Pending::CountNames { face }), replies);
            &&& done.trace =~= seq![Exchange { call: Call::GetSfntNameCount { face }, reply: replies[0] }]
            &&& done.end == Step::Done(Outcome::Count(replies[0]->count as usize))
        }),
{
    reveal_with_fuel(run, 3);
}

/// `Face::mm_var`, from beginning to end.
///
/// If the face has no variation data, that is the error, and the face is as it
/// was. Otherwise the descriptor's contents are copied out, and the value
/// returned borrows the face and the face's library, is well formed, and owns
/// the native descriptor.
pub proof fn law_mm_var(face: &Face, replies: Seq<Reply>)
    requires
        run(Step::Await(Pending::FetchMmVar { face }), replies).end is Done,
    ensures
        ({
            let done = run(Step::Await(Pending::FetchMmVar { face }), replies);
            let raw = replies[0]->Created_handle;
            let fetch = Exchange { call: Call::GetMmVar { face: face.raw }, reply: replies[0] };
            if replies[0]->Created_code == FT_Err_Ok {
                &&& done.trace =~= seq![fetch, Exchange { call: Call::ReadMmVar { mm_var: raw }, reply: replies[1] }]
                &&& done.end == Step::Done(
                    Outcome::MmVar(
                        Ok(MMVar { raw, library: face.library, face, data: replies[1]->Variations_record }),
                    ),
                )
                &&& replies[1]->Variations_record.wf()
            } else {
                &&& done.trace =~= seq![fetch]
                &&& done.end == Step::Done(Outcome::MmVar(Err(Error::Native(replies[0]->Created_code))))
            }
        }),
{
    reveal_with_fuel(run, 4);
    lemma_later_replies(replies);
}

/// No operation makes more than four native calls, and none waits forever:
/// given four answers, it has either ended or stopped at the first answer
/// that it could not accept.
pub proof fn law_operations_are_short(pending: Pending, replies: Seq<Reply>)
    ensures
        run(Step::Await(pending), replies).trace.len() <= 4,
        replies.len() >= 4 ==> match run(Step::Await(pending), replies).end {
            Step::Done(_) => true,
            Step::Await(stuck) => !stuck.accepts(replies[run(Step::Await(pending), replies).trace.len() as int]),
        },
{
    reveal_with_fuel(run, 6);
    lemma_later_replies(replies);
}

} // verus!
