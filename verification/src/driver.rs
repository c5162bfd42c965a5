//! Driving a session to its end, and what a driven session is: the trace of
//! calls asked and replies taken.

use vstd::prelude::*;
use crate::daemon::{Call, CallView, Reply, ReplyView};
use crate::error::ServiceError;
use crate::gateway::{Answer, Request, Session, SessionView, Step, StepView};

verus! {

/// Whether the pair `a` comes before the pair `b`, first components first.
pub open spec fn lex_less(a: (nat, nat), b: (nat, nat)) -> bool {
    a.0 < b.0 || (a.0 == b.0 && a.1 < b.1)
}

impl SessionView {
    /// A measure of how far the session is from its end. Every reply makes
    /// it smaller.
    pub open spec fn weight(self) -> (nat, nat) {
        match self {
            SessionView::Searching => (0, 2),
            SessionView::UnlockingItems { .. } => (0, 1),
            SessionView::Placing { resolver, may_create, .. } => (
                resolver.weight().0,
                resolver.weight().1 + if may_create {
                    4nat
                } else {
                    2nat
                },
            ),
            SessionView::CreatingItem => (0, 1),
            SessionView::Locating { resolver } => (resolver.weight().0, resolver.weight().1 + 1),
            SessionView::Confirming => (0, 1),
            SessionView::WritingSecret => (0, 1),
            SessionView::ReadingSecret => (0, 1),
            SessionView::ReadingAttributes => (0, 1),
            SessionView::ReadingLabel => (0, 1),
            SessionView::Merging { .. } => (0, 2),
        }
    }
}

impl<E> StepView<E> {
    /// The measure of the session that asks, and the least measure once the
    /// operation is over.
    pub open spec fn weight(self) -> (nat, nat) {
        match self {
            StepView::Ask(session, _) => session.weight(),
            StepView::Finished(_) => (0, 0),
        }
    }
}

/// Every reply brings a session nearer to its end.
pub proof fn lemma_advance_decreases<E>(session: SessionView, reply: ReplyView<E>)
    ensures
        lex_less(session.advance(reply).weight(), session.weight()),
{
    match session {
        SessionView::Placing { resolver, .. } => {
            crate::resolver::lemma_advance_decreases(resolver, reply);
        },
        SessionView::Locating { resolver } => {
            crate::resolver::lemma_advance_decreases(resolver, reply);
        },
        _ => {},
    }
}

/// Where a session stands after the daemon has given `replies` in turn,
/// starting at `step`. Replies that come after the end are not looked at.
pub open spec fn run<E>(step: StepView<E>, replies: Seq<ReplyView<E>>) -> StepView<E>
    decreases replies.len(),
{
    if replies.len() == 0 {
        step
    } else {
        match step {
            StepView::Ask(session, _) => run(
                session.advance(replies.first()),
                replies.drop_first(),
            ),
            StepView::Finished(_) => step,
        }
    }
}

/// The calls put to the daemon on the way that [`run`] describes, in order.
pub open spec fn asked<E>(step: StepView<E>, replies: Seq<ReplyView<E>>) -> Seq<CallView>
    decreases replies.len(),
{
    match step {
        StepView::Ask(session, call) => if replies.len() == 0 {
            seq![call]
        } else {
            seq![call] + asked(session.advance(replies.first()), replies.drop_first())
        },
        StepView::Finished(_) => Seq::empty(),
    }
}

/// One more reply takes a session that is still asking one step further.
pub proof fn lemma_run_extends<E>(
    start: StepView<E>,
    replies: Seq<ReplyView<E>>,
    reply: ReplyView<E>,
)
    requires
        run(start, replies) is Ask,
    ensures
        run(start, replies.push(reply)) == run(start, replies)->Ask_0.advance(reply),
    decreases replies.len(),
{
    let longer = replies.push(reply);
    if replies.len() == 0 {
        assert(run(run(start, replies)->Ask_0.advance(reply), longer.drop_first())
            == run(start, replies)->Ask_0.advance(reply));
    } else {
        match start {
            StepView::Ask(session, _) => {
                assert(longer.drop_first() =~= replies.drop_first().push(reply));
                lemma_run_extends(session.advance(replies.first()), replies.drop_first(), reply);
            },
            StepView::Finished(_) => {},
        }
    }
}

impl<E> StepView<E> {
    /// The call that is waiting for its reply, if any.
    pub open spec fn pending(self) -> Seq<CallView> {
        match self {
            StepView::Ask(_, call) => seq![call],
            StepView::Finished(_) => Seq::empty(),
        }
    }
}

/// One more reply adds to the calls asked the one that the session asks
/// next, if it asks another.
pub proof fn lemma_asked_extends<E>(
    start: StepView<E>,
    replies: Seq<ReplyView<E>>,
    reply: ReplyView<E>,
)
    requires
        run(start, replies) is Ask,
    ensures
        asked(start, replies.push(reply)) == asked(start, replies) + run(
            start,
            replies.push(reply),
        ).pending(),
    decreases replies.len(),
{
    let longer = replies.push(reply);
    match start {
        StepView::Ask(session, call) => {
            if replies.len() == 0 {
                let next = session.advance(reply);
                assert(run(next, longer.drop_first()) == next);
                assert(asked(next, longer.drop_first()) == next.pending());
            } else {
                let next = session.advance(replies.first());
                assert(longer.drop_first() =~= replies.drop_first().push(reply));
                lemma_asked_extends(next, replies.drop_first(), reply);
            }
        },
        StepView::Finished(_) => {},
    }
}

/// The mathematical contents of a sequence of calls.
pub open spec fn call_views(calls: Seq<Call>) -> Seq<CallView> {
    Seq::new(calls.len(), |i: int| calls[i]@)
}

/// The mathematical contents of a sequence of replies.
pub open spec fn reply_views<E>(replies: Seq<Reply<E>>) -> Seq<ReplyView<E>> {
    Seq::new(replies.len(), |i: int| replies[i]@)
}

/// `replies` are answers that `daemon` gave to `calls`, one for one.
pub open spec fn answered_by<E, D: Fn(Call) -> Reply<E>>(
    daemon: D,
    calls: Seq<Call>,
    replies: Seq<Reply<E>>,
) -> bool {
    &&& calls.len() == replies.len()
    &&& forall|i: int| 0 <= i < calls.len() ==> call_ensures(daemon, (calls[i],), #[trigger] replies[i])
}

/// Carries out `request` against the daemon that `daemon` speaks for: asks
/// each call in turn and hands back how the session finished. `intact`
/// tells whether the caller got hold of the connection in good order.
///
/// The calls put to `daemon` are exactly those that the session asks, each
/// answered once, and the result is the end of the session under those
/// answers. So whatever holds of every run of a session holds of the
/// result.
pub fn drive<E, D: Fn(Call) -> Reply<E>>(request: Request, intact: bool, daemon: D) -> (outcome:
    Result<Answer, ServiceError<E>>)
    requires
        forall|call: Call| call_requires(daemon, (call,)),
    ensures
        exists|calls: Seq<Call>, replies: Seq<Reply<E>>|
            {
                &&& #[trigger] answered_by(daemon, calls, replies)
                &&& call_views(calls) == asked(
                    SessionView::begin::<E>(request@, intact),
                    reply_views(replies),
                )
                &&& run(SessionView::begin::<E>(request@, intact), reply_views(replies))
                    == Step::Finished(outcome)@
            },
{
    let mut step: Step<E> = Session::begin(request, intact);
    let ghost start = step@;
    let ghost mut calls: Seq<Call> = Seq::empty();
    let ghost mut replies: Seq<Reply<E>> = Seq::empty();
    loop
        invariant
            start == SessionView::begin::<E>(request@, intact),
            answered_by(daemon, calls, replies),
            run(start, reply_views(replies)) == step@,
            asked(start, reply_views(replies)) == call_views(calls) + step@.pending(),
            forall|call: Call| call_requires(daemon, (call,)),
        decreases step@.weight().0, step@.weight().1,
    {
        match step {
            Step::Finished(outcome) => {
                return outcome;
            },
            Step::Ask(session, call) => {
                let ghost put = call;
                let ghost before = reply_views(replies);
                let reply = daemon(call);
                proof {
                    lemma_run_extends(start, before, reply@);
                    lemma_asked_extends(start, before, reply@);
                    lemma_advance_decreases(session@, reply@);
                    calls = calls.push(put);
                    replies = replies.push(reply);
                    assert(reply_views(replies) =~= before.push(reply@));
                }
                step = session.advance(reply);
            },
        }
    }
}

} // verus!
