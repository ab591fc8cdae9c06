//! How an endpoint talks to its collaborators: it asks one statement at a
//! time and decides on each reply what to ask next, until it can answer the
//! request.

use vstd::prelude::*;
use crate::db::store::{lemma_run_keeps_wf, run, Query, QueryView, Reply, ReplyView, Store, StoreView};
use crate::error::{ApiError, ApiErrorView};

verus! {

/// Where an endpoint stands: it asks a statement and waits in state `S` for
/// the reply, or it has the request's answer.
#[derive(Debug, PartialEq, Eq)]
pub enum Step<S, T> {
    Ask(S, Query),
    Finish(Result<T, ApiError>),
}

/// A step as plain values.
pub ghost enum StepView<S, T> {
    Ask(S, QueryView),
    Finish(Result<T, ApiErrorView>),
}

/// An answer as plain values.
pub open spec fn shown<T: View>(result: Result<T, ApiError>) -> Result<T::V, ApiErrorView> {
    match result {
        Ok(done) => Ok(done@),
        Err(e) => Err(e@),
    }
}

impl<S: View, T: View> View for Step<S, T> {
    type V = StepView<S::V, T::V>;

    open spec fn view(&self) -> StepView<S::V, T::V> {
        match self {
            Step::Ask(state, query) => StepView::Ask(state@, query@),
            Step::Finish(result) => StepView::Finish(shown(*result)),
        }
    }
}

/// The states in which one endpoint waits for a reply.
pub trait Exchange: View + Sized {
    /// What the endpoint answers when it succeeds.
    type Done: View;

    /// The HTTP status with which the endpoint answers when it succeeds.
    spec fn success_code() -> int;

    /// An upper bound on the statements that the endpoint still asks after
    /// the one it waits for.
    spec fn pending(state: Self::V) -> nat;

    /// The step that the endpoint takes on a reply.
    spec fn next(state: Self::V, reply: ReplyView) -> StepView<Self::V, <Self::Done as View>::V>;

    proof fn lemma_next_is_nearer(state: Self::V, reply: ReplyView)
        ensures
            Self::next(state, reply) matches StepView::Ask(then, _) ==> Self::pending(then)
                < Self::pending(state),
    ;

    fn success_status() -> (code: u16)
        ensures
            code == Self::success_code(),
    ;

    /// Takes the reply to the statement that was asked.
    fn resume(self, reply: Reply) -> (step: Step<Self, Self::Done>)
        ensures
            step@ == Self::next(self@, reply@),
    ;
}

/// The statements that an endpoint may still ask from `step` on.
pub open spec fn distance<E: Exchange>(step: StepView<E::V, <E::Done as View>::V>) -> nat {
    match step {
        StepView::Ask(state, _) => E::pending(state) + 1,
        StepView::Finish(_) => 0,
    }
}

/// The store and the answer that `step` ends in when the store `db` carries
/// out each statement that is asked.
pub open spec fn settle<E: Exchange>(db: StoreView, step: StepView<E::V, <E::Done as View>::V>) -> (
    StoreView,
    Result<<E::Done as View>::V, ApiErrorView>,
)
    decreases distance::<E>(step),
{
    match step {
        StepView::Finish(result) => (db, result),
        StepView::Ask(state, query) => {
            let (then, reply) = run(db, query);
            proof {
                E::lemma_next_is_nearer(state, reply);
            }
            settle::<E>(then, E::next(state, reply))
        },
    }
}

/// Whatever an endpoint asks, the store's invariant holds to the end.
pub proof fn lemma_settle_keeps_wf<E: Exchange>(db: StoreView, step: StepView<E::V, <E::Done as View>::V>)
    requires
        db.wf(),
    ensures
        settle::<E>(db, step).0.wf(),
    decreases distance::<E>(step),
{
    match step {
        StepView::Finish(_) => {},
        StepView::Ask(state, query) => {
            let (then, reply) = run(db, query);
            lemma_run_keeps_wf(db, query);
            E::lemma_next_is_nearer(state, reply);
            lemma_settle_keeps_wf::<E>(then, E::next(state, reply));
        },
    }
}

/// Runs an endpoint against the in-memory store, from `step` to its answer.
pub fn drive<E: Exchange>(store: &mut Store, step: Step<E, E::Done>) -> (result: Result<E::Done, ApiError>)
    ensures
        (final(store)@, shown(result)) == settle::<E>(old(store)@, step@),
        old(store)@.wf() ==> final(store)@.wf(),
{
    let mut current = step;
    loop
        invariant
            settle::<E>(store@, current@) == settle::<E>(old(store)@, step@),
            old(store)@.wf() ==> store@.wf(),
        decreases distance::<E>(current@),
    {
        match current {
            Step::Finish(result) => {
                assert(settle::<E>(store@, StepView::Finish(shown(result))) == (store@, shown(result)));
                return result;
            },
            Step::Ask(state, query) => {
                proof {
                    E::lemma_next_is_nearer(state@, run(store@, query@).1);
                }
                let reply = store.execute(query);
                current = state.resume(reply);
            },
        }
    }
}

} // verus!
