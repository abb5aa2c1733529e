//! Procedures: decisions that alternate with work done elsewhere.
//!
//! Talking to a sensor is a conversation. A procedure says what it wants done
//! next, somebody else does it, and the outcome is handed back as a reply. All
//! that a procedure knows of the world is what it was given at its start and
//! the history of replies it has had, so what it wants next is a function of
//! these: its plan.

use crate::error::Fault;
use vstd::prelude::*;

verus! {

/// What a request led to: the bytes that were read, none where the request
/// reads nothing, or `None` where it could not be carried out.
pub type Reply = Option<Seq<u8>>;

/// The reply that the outcome `outcome` of a request amounts to.
pub open spec fn reply_of(outcome: Result<Vec<u8>, Fault>) -> Reply {
    match outcome {
        Ok(bytes) => Some(bytes@),
        Err(_) => None,
    }
}

/// Where a procedure stands.
#[derive(Debug, PartialEq, Eq)]
pub enum Progress<R, T> {
    /// It waits for this request to be carried out.
    Ask(R),
    /// It has finished, with this result.
    Done(T),
}

/// Something that can be asked of the surroundings.
pub trait Request: Sized {
    /// Whether `reply` is a possible reply to this request.
    spec fn answered_by(self, reply: Reply) -> bool;
}

/// The plan that a procedure follows.
pub trait Plan: Sized {
    /// What the procedure is given at its start.
    type Given;

    /// What the procedure may ask for.
    type Request: Request;

    /// What it results in.
    type Output;

    /// Where the procedure stands that was given `given` and has had the replies
    /// `history`.
    spec fn plan(given: Self::Given, history: Seq<Reply>) -> Progress<Self::Request, Self::Output>;
}

/// Given `given`, after `history`, procedure `P` waits for a request that
/// `reply` answers.
pub open spec fn accepts<P: Plan>(given: P::Given, history: Seq<Reply>, reply: Reply) -> bool {
    match P::plan(given, history) {
        Progress::Ask(request) => request.answered_by(reply),
        Progress::Done(_) => false,
    }
}

/// `history` is a history that procedure `P`, given `given`, can have had: each
/// reply in it answers what was asked for at the time.
pub open spec fn is_transcript<P: Plan>(given: P::Given, history: Seq<Reply>) -> bool
    decreases history.len(),
{
    history.len() == 0 || {
        &&& is_transcript::<P>(given, history.drop_last())
        &&& accepts::<P>(given, history.drop_last(), history.last())
    }
}

/// A reply that a procedure accepts makes a longer transcript.
pub proof fn lemma_extend_transcript<P: Plan>(given: P::Given, history: Seq<Reply>, reply: Reply)
    requires
        is_transcript::<P>(given, history),
        accepts::<P>(given, history, reply),
    ensures
        is_transcript::<P>(given, history.push(reply)),
{
    assert(history.push(reply).drop_last() =~= history);
}

/// Every part of a transcript from its start is a transcript, and the reply
/// after it answers what is asked for at that point.
pub proof fn lemma_transcript_prefix<P: Plan>(given: P::Given, history: Seq<Reply>, n: int)
    requires
        is_transcript::<P>(given, history),
        0 <= n <= history.len(),
    ensures
        is_transcript::<P>(given, history.take(n)),
        n < history.len() ==> accepts::<P>(given, history.take(n), history[n]),
    decreases history.len(),
{
    if n == history.len() {
        assert(history.take(n) =~= history);
    } else if n == history.len() - 1 {
        assert(history.take(n) =~= history.drop_last());
    } else {
        lemma_transcript_prefix::<P>(given, history.drop_last(), n);
        assert(history.drop_last().take(n) =~= history.take(n));
    }
}

/// A procedure, at some point of its course.
pub trait Procedure: Plan {
    /// What it was given at its start.
    spec fn given(&self) -> Self::Given;

    /// The replies that it has had so far, oldest first.
    spec fn history(&self) -> Seq<Reply>;

    /// Where the procedure stands.
    fn progress(&self) -> (progress: Progress<Self::Request, Self::Output>)
        ensures
            progress == Self::plan(self.given(), self.history()),
            is_transcript::<Self>(self.given(), self.history()),
    ;

    /// Hands over the outcome of the request that the procedure waits for.
    fn reply(self, outcome: Result<Vec<u8>, Fault>) -> (next: Self)
        requires
            accepts::<Self>(self.given(), self.history(), reply_of(outcome)),
        ensures
            next.given() == self.given(),
            next.history() == self.history().push(reply_of(outcome)),
    ;
}

/// The reply to a request that was carried out is the bytes it brought, all of
/// them and unchanged; the reply to one that was not is `None`.
pub proof fn law_reply_is_the_outcome(outcome: Result<Vec<u8>, Fault>)
    ensures
        match outcome {
            Ok(bytes) => {
                &&& reply_of(outcome) is Some
                &&& reply_of(outcome).unwrap() == bytes@
            },
            Err(_) => reply_of(outcome) is None,
        },
{
}

/// A procedure accepts each reply that answers what it waits for, and none once
/// it has finished.
pub proof fn law_accepts_every_answer<P: Plan>(given: P::Given, history: Seq<Reply>, reply: Reply)
    ensures
        match P::plan(given, history) {
            Progress::Ask(request) => accepts::<P>(given, history, reply) <==> request.answered_by(
                reply,
            ),
            Progress::Done(_) => !accepts::<P>(given, history, reply),
        },
{
}

/// A history is possible if and only if each of its replies was accepted after
/// those before it.
pub proof fn law_transcript_is_step_by_step<P: Plan>(given: P::Given, history: Seq<Reply>)
    ensures
        is_transcript::<P>(given, history) <==> forall|n: int|
            0 <= n < history.len() ==> accepts::<P>(
                given,
                #[trigger] history.take(n),
                history[n],
            ),
    decreases history.len(),
{
    if is_transcript::<P>(given, history) {
        assert forall|n: int| 0 <= n < history.len() implies accepts::<P>(
            given,
            #[trigger] history.take(n),
            history[n],
        ) by {
            lemma_transcript_prefix::<P>(given, history, n);
        }
    } else {
        let before = history.drop_last();
        law_transcript_is_step_by_step::<P>(given, before);
        assert(history.take(history.len() - 1) =~= before);
        if accepts::<P>(given, before, history.last()) {
            let n = choose|n: int|
                0 <= n < before.len() && !accepts::<P>(given, #[trigger] before.take(n), before[n]);
            assert(before.take(n) =~= history.take(n));
        }
    }
}

} // verus!
