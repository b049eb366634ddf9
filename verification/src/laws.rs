//! What holds of every query, whatever the remote answers.
//!
//! The laws are stated over [`run`]: what a query has come to after a given
//! sequence of events. [`Git::start`](crate::git::Git::start) and
//! [`Git::step`](crate::git::Git::step) compute exactly the steps that `run`
//! is made of, so each law holds of every query that is driven through them.

use vstd::prelude::*;
use crate::git::Git;
use crate::head::{paired, HeadView};
use crate::query::{
    answers, injected_message, next, opening, pending, waiting, ActionView, Direction, EventView,
    Outcome, ProgressView, StateView,
};

verus! {

/// What a query that stands at `from` comes to when it is told `events`, one
/// after the other. A query that is over looks at no further event.
pub open spec fn resume(url: Seq<char>, from: ProgressView, events: Seq<EventView>) -> ProgressView
    decreases events.len(),
{
    if events.len() == 0 {
        from
    } else {
        match resume(url, from, events.drop_last()) {
            ProgressView::Next(state, _) => next(url, state, events.last()),
            ProgressView::Finished(outcome) => ProgressView::Finished(outcome),
        }
    }
}

/// What a fresh query by a client bound to `url` comes to when it is told
/// `events`.
pub open spec fn run(url: Seq<char>, events: Seq<EventView>) -> ProgressView {
    resume(url, opening(url), events)
}

/// The result of a query, as soon as it is settled: from the moment the
/// query only waits for the teardown, and once it is over.
pub open spec fn settled(progress: ProgressView) -> Option<Outcome> {
    match progress {
        ProgressView::Next(StateView::Releasing(outcome), _) => Some(outcome),
        ProgressView::Next(_, _) => None,
        ProgressView::Finished(outcome) => Some(outcome),
    }
}

/// How many operations a query may still ask for and have answered.
pub open spec fn remaining(progress: ProgressView) -> nat {
    match progress {
        ProgressView::Next(StateView::Injection, _) => 5,
        ProgressView::Next(StateView::Creating, _) => 4,
        ProgressView::Next(StateView::Connecting, _) => 3,
        ProgressView::Next(StateView::Listing, _) => 2,
        ProgressView::Next(StateView::Releasing(_), _) => 1,
        ProgressView::Finished(_) => 0,
    }
}

/// Whether no two entries with different names share a revision identifier.
pub open spec fn alias_free(pairs: Seq<(Seq<char>, Seq<u8>)>) -> bool {
    forall|i: int, j: int|
        0 <= i < pairs.len() && 0 <= j < pairs.len() && (#[trigger] pairs[i]).0 != (
        #[trigger] pairs[j]).0 ==> pairs[i].1 != pairs[j].1
}

/// Whether no reference name occurs twice.
pub open spec fn names_unique(pairs: Seq<(Seq<char>, Seq<u8>)>) -> bool {
    forall|i: int, j: int|
        0 <= i < j < pairs.len() ==> (#[trigger] pairs[i]).0 != (#[trigger] pairs[j]).0
}

/// Telling a query one more event is one more step of it.
pub proof fn lemma_resume_push(
    url: Seq<char>,
    from: ProgressView,
    events: Seq<EventView>,
    event: EventView,
)
    ensures
        resume(url, from, events.push(event)) == match resume(url, from, events) {
            ProgressView::Next(state, _) => next(url, state, event),
            ProgressView::Finished(outcome) => ProgressView::Finished(outcome),
        },
{
    assert(events.push(event).drop_last() =~= events);
}

/// Telling a query two runs of events in a row is the same as telling it the
/// first and resuming from there with the second.
pub proof fn lemma_resume_concat(
    url: Seq<char>,
    from: ProgressView,
    first: Seq<EventView>,
    second: Seq<EventView>,
)
    ensures
        resume(url, from, first + second) == resume(url, resume(url, from, first), second),
    decreases second.len(),
{
    if second.len() == 0 {
        assert(first + second =~= first);
    } else {
        lemma_resume_concat(url, from, first, second.drop_last());
        assert((first + second).drop_last() =~= first + second.drop_last());
    }
}

/// Two queries against an unchanged remote return the same: the client keeps
/// nothing from one query to the next, so clients bound to the same URL that
/// are answered alike ask for the same operations and come to the same
/// result.
pub proof fn lemma_queries_repeat(
    first: Git,
    second: Git,
    answers_to_first: Seq<EventView>,
    answers_to_second: Seq<EventView>,
)
    requires
        first@ == second@,
        answers_to_first =~= answers_to_second,
    ensures
        opening(first@) == opening(second@),
        run(first@, answers_to_first) == run(second@, answers_to_second),
{
}

/// An event that answers the pending operation brings the query strictly
/// closer to its end, and any other event leaves it where it was. So no
/// operation is asked for again once it has been answered, whether it
/// succeeded or failed, and five answers at most end a query.
pub proof fn lemma_no_retry(url: Seq<char>, state: StateView, event: EventView)
    ensures
        answers(state, event) ==> remaining(next(url, state, event)) < remaining(
            waiting(url, state),
        ),
        !answers(state, event) ==> next(url, state, event) == waiting(url, state),
        remaining(opening(url)) == 5,
{
}

/// The fault-injection point comes before everything else. As long as it has
/// not been answered, the query asks for nothing but its evaluation; and
/// when it forces a failure, the query is over then and there, with an error
/// that carries the injected description unchanged, whatever events follow.
pub proof fn lemma_injected_failure_preempts_transport(
    url: Seq<char>,
    unanswered: Seq<EventView>,
    given: Option<Seq<char>>,
    later: Seq<EventView>,
)
    requires
        forall|i: int|
            0 <= i < unanswered.len() ==> !answers(StateView::Injection, #[trigger] unanswered[i]),
    ensures
        opening(url) == ProgressView::Next(
            StateView::Injection,
            ActionView::Evaluate { point: crate::query::INJECTION_POINT@ },
        ),
        forall|n: int|
            0 <= n <= unanswered.len() ==> #[trigger] run(url, unanswered.take(n)) == opening(url),
        run(url, unanswered + seq![EventView::Injected(given)] + later) == ProgressView::Finished(
            Err(injected_message(given)),
        ),
        given matches Some(message) ==> injected_message(given) == message,
{
    assert forall|n: int| 0 <= n <= unanswered.len() implies #[trigger] run(
        url,
        unanswered.take(n),
    ) == opening(url) by {
        lemma_stays_at_injection(url, unanswered.take(n));
    }
    lemma_stays_at_injection(url, unanswered);
    let injected = seq![EventView::Injected(given)];
    let over = ProgressView::Finished(Err(injected_message(given)));
    lemma_resume_push(url, opening(url), unanswered, EventView::Injected(given));
    assert(unanswered + injected =~= unanswered.push(EventView::Injected(given)));
    lemma_resume_concat(url, opening(url), unanswered + injected, later);
    lemma_settled_result_stands(url, over, later);
}

/// Events that do not answer the fault-injection point leave a fresh query
/// where it began.
proof fn lemma_stays_at_injection(url: Seq<char>, events: Seq<EventView>)
    requires
        forall|i: int|
            0 <= i < events.len() ==> !answers(StateView::Injection, #[trigger] events[i]),
    ensures
        run(url, events) == opening(url),
    decreases events.len(),
{
    if events.len() > 0 {
        lemma_stays_at_injection(url, events.drop_last());
    }
}

/// Once the result of a query is settled, no event changes it: a failure is
/// not retried, and nothing that happens during the teardown turns a failure
/// into a success or a success into a failure.
pub proof fn lemma_settled_result_stands(
    url: Seq<char>,
    from: ProgressView,
    events: Seq<EventView>,
)
    requires
        settled(from) is Some,
    ensures
        settled(resume(url, from, events)) == settled(from),
        from is Finished ==> resume(url, from, events) == from,
    decreases events.len(),
{
    if events.len() > 0 {
        lemma_settled_result_stands(url, from, events.drop_last());
    }
}

/// A transport operation that fails decides the query: creating the
/// connection object, opening the connection or asking for the advertisement.
/// From then on the result is the error that carries the description of the
/// cause, and never a list of references, empty or not.
pub proof fn lemma_failure_is_the_result(
    url: Seq<char>,
    events: Seq<EventView>,
    cause: Seq<char>,
    later: Seq<EventView>,
)
    requires
        run(url, events) matches ProgressView::Next(state, _) && (state is Creating
            || state is Connecting || state is Listing),
    ensures
        settled(run(url, events + seq![EventView::Failed(cause)] + later)) == Some(
            Err::<Seq<(Seq<char>, Seq<u8>)>, Seq<char>>(cause),
        ),
{
    let failed = EventView::Failed(cause);
    lemma_resume_push(url, opening(url), events, failed);
    assert(events + seq![failed] =~= events.push(failed));
    lemma_resume_concat(url, opening(url), events + seq![failed], later);
    lemma_settled_result_stands(url, run(url, events + seq![failed]), later);
}

/// A query succeeds only with what the remote advertised: a result that is a
/// list of references is the list of some advertisement the query was told
/// of, entry by entry and in the same order.
pub proof fn lemma_success_is_the_advertisement(url: Seq<char>, events: Seq<EventView>)
    ensures
        settled(run(url, events)) matches Some(Ok(pairs)) ==> exists|i: int|
            0 <= i < events.len() && (#[trigger] events[i]) is Advertised && pairs == paired(
                events[i]->Advertised_0,
            ),
    decreases events.len(),
{
    if events.len() > 0 {
        let before = events.drop_last();
        lemma_success_is_the_advertisement(url, before);
        if let Some(Ok(pairs)) = settled(run(url, events)) {
            if settled(run(url, before)) is Some {
                lemma_settled_result_stands(url, run(url, before), seq![events.last()]);
                lemma_resume_concat(url, opening(url), before, seq![events.last()]);
                assert(before + seq![events.last()] =~= events);
                let i = choose|i: int|
                    0 <= i < before.len() && (#[trigger] before[i]) is Advertised && pairs
                        == paired(before[i]->Advertised_0);
                assert(events[i] == before[i]);
            } else {
                assert(events[events.len() - 1] is Advertised);
            }
        }
    }
}

/// A remote that fails at nothing is reported in full: when every operation
/// succeeds, the query is over after five answers and returns one pair for
/// each advertised reference, in the advertised order.
pub proof fn lemma_unfailing_remote_is_reported_in_full(url: Seq<char>, heads: Seq<HeadView>)
    ensures
        run(
            url,
            seq![
                EventView::Done,
                EventView::Done,
                EventView::Done,
                EventView::Advertised(heads),
                EventView::Done,
            ],
        ) == ProgressView::Finished(Ok(paired(heads))),
        paired(heads).len() == heads.len(),
        forall|i: int|
            0 <= i < heads.len() ==> (#[trigger] paired(heads)[i]) == (heads[i].name, heads[i].oid),
{
    let begin = opening(url);
    let e0 = Seq::<EventView>::empty();
    let e1 = e0.push(EventView::Done);
    let e2 = e1.push(EventView::Done);
    let e3 = e2.push(EventView::Done);
    let e4 = e3.push(EventView::Advertised(heads));
    lemma_resume_push(url, begin, e0, EventView::Done);
    lemma_resume_push(url, begin, e1, EventView::Done);
    lemma_resume_push(url, begin, e2, EventView::Done);
    lemma_resume_push(url, begin, e3, EventView::Advertised(heads));
    lemma_resume_push(url, begin, e4, EventView::Done);
    assert(seq![
        EventView::Done,
        EventView::Done,
        EventView::Done,
        EventView::Advertised(heads),
        EventView::Done,
    ] =~= e4.push(EventView::Done));
}

/// The connection is torn down on every path. A query ends only where no
/// connection object exists yet, or on the answer to the teardown it asked
/// for; it never ends while the connection is being opened or listed.
pub proof fn lemma_teardown_precedes_the_end(url: Seq<char>, events: Seq<EventView>)
    requires
        events.len() > 0,
        run(url, events.drop_last()) is Next,
        run(url, events) is Finished,
    ensures
        run(url, events.drop_last()) matches ProgressView::Next(state, asked) && (
            asked == ActionView::Release && state is Releasing
            || state is Injection
            || state is Creating
        ),
{
    lemma_asks_what_is_pending(url, events.drop_last());
}

/// What a query asks for is fixed by where it stands and by the URL of its
/// client: the connection object is created for exactly that URL, and the
/// connection is only ever opened for fetching.
pub proof fn lemma_asks_what_is_pending(url: Seq<char>, events: Seq<EventView>)
    ensures
        run(url, events) matches ProgressView::Next(state, asked) ==> {
            &&& asked == pending(url, state)
            &&& asked matches ActionView::CreateDetached { url: target } ==> target == url
            &&& asked matches ActionView::Connect { direction } ==> direction == Direction::Fetch
        },
    decreases events.len(),
{
    if events.len() > 0 {
        lemma_asks_what_is_pending(url, events.drop_last());
    }
}

/// The pairs that are returned alias no more than the advertisement does.
/// Names and revision identifiers are taken over one for one, so a name that
/// is advertised once is returned once, and two names share a revision
/// identifier in the result only if they share it in the advertisement.
pub proof fn lemma_pairs_alias_as_advertised(heads: Seq<HeadView>)
    ensures
        paired(heads).len() == heads.len(),
        forall|i: int|
            0 <= i < heads.len() ==> (#[trigger] paired(heads)[i]) == (heads[i].name, heads[i].oid),
        (forall|i: int, j: int|
            0 <= i < j < heads.len() ==> (#[trigger] heads[i]).name != (#[trigger] heads[j]).name)
            ==> names_unique(paired(heads)),
        (forall|i: int, j: int|
            0 <= i < heads.len() && 0 <= j < heads.len() && (#[trigger] heads[i]).name != (
            #[trigger] heads[j]).name ==> heads[i].oid != heads[j].oid) ==> alias_free(
            paired(heads),
        ),
{
    let pairs = paired(heads);
    if forall|i: int, j: int|
        0 <= i < j < heads.len() ==> (#[trigger] heads[i]).name != (#[trigger] heads[j]).name {
        assert forall|i: int, j: int| 0 <= i < j < pairs.len() implies (#[trigger] pairs[i]).0 != (
        #[trigger] pairs[j]).0 by {
            assert(heads[i].name != heads[j].name);
        }
    }
    if forall|i: int, j: int|
        0 <= i < heads.len() && 0 <= j < heads.len() && (#[trigger] heads[i]).name != (
        #[trigger] heads[j]).name ==> heads[i].oid != heads[j].oid {
        assert forall|i: int, j: int|
            0 <= i < pairs.len() && 0 <= j < pairs.len() && (#[trigger] pairs[i]).0 != (
            #[trigger] pairs[j]).0 implies pairs[i].1 != pairs[j].1 by {
            assert(heads[i].name != heads[j].name);
        }
    }
}

} // verus!
