//! Claims on native objects, and the proof that the conversation keeps count
//! of them.
//!
//! A claim is one reference to a reference-counted native object, or the
//! ownership of a native block. Native calls create claims and give them up;
//! operations hold them while they run and hand them to the values they end
//! with. `law_claims_balance` says that the two accounts always agree.
use crate::native::{Call, Handle, Reply};
use crate::protocol::{Outcome, Pending, Step};
use crate::status::FT_Err_Ok;
use vstd::prelude::*;

verus! {

/// The kinds of native object that this crate holds claims on.
#[derive(Clone, Copy, Debug, PartialEq, Eq, Structural)]
pub enum Kind {
    Library,
    Face,
    Name,
    MmVar,
}

/// One reference to, or the ownership of, the native object at `handle`.
#[derive(Clone, Copy, Debug, PartialEq, Eq, Structural)]
pub struct Claim {
    pub kind: Kind,
    pub handle: Handle,
}

/// A native call that was made, with its answer.
pub struct Exchange<'p> {
    pub call: Call<'p>,
    pub reply: Reply,
}

/// A stretch of an operation: the calls it made, and where it then stood.
pub struct Run<'a> {
    pub trace: Seq<Exchange<'a>>,
    pub end: Step<'a>,
}

/// Carries `step` forward through `replies`, one answer for each call it
/// awaits, until it is done, the answers run out, or one is not accepted.
pub open spec fn run<'a>(step: Step<'a>, replies: Seq<Reply>) -> Run<'a>
    decreases replies.len(),
{
    match step {
        Step::Await(pending) if replies.len() > 0 && pending.accepts(replies[0]) => {
            let rest = run(pending.next(replies[0]), replies.drop_first());
            Run {
                trace: seq![Exchange { call: pending.spec_call(), reply: replies[0] }] + rest.trace,
                end: rest.end,
            }
        },
        _ => Run { trace: Seq::empty(), end: step },
    }
}

/// The claim that `call` creates when it is answered by `reply`: a fresh
/// object comes with one reference, adding a reference adds one, and an
/// allocation is owned by whoever asked for it. A call that fails creates
/// nothing.
pub open spec fn acquired(call: Call, reply: Reply) -> Option<Claim> {
    match (call, reply) {
        (Call::NewLibrary, Reply::Created { code, handle }) if code == FT_Err_Ok => Some(
            Claim { kind: Kind::Library, handle },
        ),
        (Call::ReferenceLibrary { library }, Reply::Status { code }) if code == FT_Err_Ok => Some(
            Claim { kind: Kind::Library, handle: library },
        ),
        (Call::NewFace { .. }, Reply::Created { code, handle }) if code == FT_Err_Ok => Some(
            Claim { kind: Kind::Face, handle },
        ),
        (Call::ReferenceFace { face }, Reply::Status { code }) if code == FT_Err_Ok => Some(
            Claim { kind: Kind::Face, handle: face },
        ),
        (Call::AllocSfntName, Reply::Block { handle }) => Some(Claim { kind: Kind::Name, handle }),
        (Call::GetMmVar { .. }, Reply::Created { code, handle }) if code == FT_Err_Ok => Some(
            Claim { kind: Kind::MmVar, handle },
        ),
        _ => None,
    }
}

/// The claim that `call` gives up.
pub open spec fn released(call: Call) -> Option<Claim> {
    match call {
        Call::DoneLibrary { library } => Some(Claim { kind: Kind::Library, handle: library }),
        Call::DoneFace { face } => Some(Claim { kind: Kind::Face, handle: face }),
        Call::FreeSfntName { record } => Some(Claim { kind: Kind::Name, handle: record }),
        Call::DoneMmVar { mm_var, .. } => Some(Claim { kind: Kind::MmVar, handle: mm_var }),
        _ => None,
    }
}

/// How many times `claim` occurs in `held`: once or not at all.
pub open spec fn weight(held: Option<Claim>, claim: Claim) -> int {
    if held == Some(claim) {
        1
    } else {
        0
    }
}

/// How often `trace` creates `claim`, less how often it gives it up.
pub open spec fn net(trace: Seq<Exchange>, claim: Claim) -> int
    decreases trace.len(),
{
    if trace.len() == 0 {
        0
    } else {
        weight(acquired(trace[0].call, trace[0].reply), claim) - weight(released(trace[0].call), claim) + net(
            trace.drop_first(),
            claim,
        )
    }
}

impl<'a> Pending<'a> {
    /// The claim that the operation holds while it waits: what it has created
    /// and not yet handed on, or what it was given to give up.
    pub open spec fn holds(&self) -> Option<Claim> {
        match self {
            Pending::InitModules { raw } => Some(Claim { kind: Kind::Library, handle: *raw }),
            Pending::InitAbandon { raw, .. } => Some(Claim { kind: Kind::Library, handle: *raw }),
            Pending::DropLibrary { raw } => Some(Claim { kind: Kind::Library, handle: *raw }),
            Pending::DropFace { raw } => Some(Claim { kind: Kind::Face, handle: *raw }),
            Pending::FetchName { record, .. } => Some(Claim { kind: Kind::Name, handle: *record }),
            Pending::ReadName { record, .. } => Some(Claim { kind: Kind::Name, handle: *record }),
            Pending::DiscardName { record, .. } => Some(Claim { kind: Kind::Name, handle: *record }),
            Pending::FreeName { record, .. } => Some(Claim { kind: Kind::Name, handle: *record }),
            Pending::DropName { raw } => Some(Claim { kind: Kind::Name, handle: *raw }),
            Pending::ReadMmVar { raw, .. } => Some(Claim { kind: Kind::MmVar, handle: *raw }),
            Pending::DropMmVar { raw, .. } => Some(Claim { kind: Kind::MmVar, handle: *raw }),
            _ => None,
        }
    }
}

impl<'a> Outcome<'a> {
    /// The claim that passes to the caller with the value the operation ended
    /// with. A failure passes none.
    pub open spec fn owns(&self) -> Option<Claim> {
        match self {
            Outcome::Library(Ok(library)) => Some(Claim { kind: Kind::Library, handle: library.raw }),
            Outcome::Face(Ok(face)) => Some(Claim { kind: Kind::Face, handle: face.raw }),
            Outcome::Name(Ok(name)) => Some(Claim { kind: Kind::Name, handle: name.raw }),
            Outcome::MmVar(Ok(mm_var)) => Some(Claim { kind: Kind::MmVar, handle: mm_var.raw }),
            _ => None,
        }
    }
}

impl<'a> Step<'a> {
    /// The claim that the operation holds at this step, or has ended with.
    pub open spec fn claim(&self) -> Option<Claim> {
        match self {
            Step::Await(pending) => pending.holds(),
            Step::Done(outcome) => outcome.owns(),
        }
    }
}

/// One exchange changes what the operation holds by exactly what the call
/// created or gave up.
pub proof fn lemma_exchange_balances(pending: Pending, reply: Reply, claim: Claim)
    requires
        pending.accepts(reply),
    ensures
        weight(acquired(pending.spec_call(), reply), claim) - weight(released(pending.spec_call()), claim)
            == weight(pending.next(reply).claim(), claim) - weight(pending.holds(), claim),
{
}

/// A trace made of two parts creates and gives up what its parts do.
pub proof fn lemma_net_adds(first: Seq<Exchange>, second: Seq<Exchange>, claim: Claim)
    ensures
        net(first + second, claim) == net(first, claim) + net(second, claim),
    decreases first.len(),
{
    if first.len() == 0 {
        assert(first + second =~= second);
    } else {
        assert((first + second).drop_first() =~= first.drop_first() + second);
        lemma_net_adds(first.drop_first(), second, claim);
    }
}

/// Over any stretch of any operation, the claims that the native calls
/// created, less those they gave up, are what the operation has come to hold
/// beyond what it began with.
///
/// So an operation that begins with nothing and fails has given up all it
/// created; one that succeeds has created just the claim of the value it
/// returns; and a release gives up the claim it was called on and no other.
pub proof fn law_claims_balance(step: Step, replies: Seq<Reply>, claim: Claim)
    ensures
        net(run(step, replies).trace, claim) == weight(run(step, replies).end.claim(), claim) - weight(
            step.claim(),
            claim,
        ),
    decreases replies.len(),
{
    match step {
        Step::Await(pending) if replies.len() > 0 && pending.accepts(replies[0]) => {
            let first = Exchange { call: pending.spec_call(), reply: replies[0] };
            let rest = run(pending.next(replies[0]), replies.drop_first());
            lemma_exchange_balances(pending, replies[0], claim);
            law_claims_balance(pending.next(replies[0]), replies.drop_first(), claim);
            assert((seq![first] + rest.trace).drop_first() =~= rest.trace);
        },
        _ => {},
    }
}

} // verus!
