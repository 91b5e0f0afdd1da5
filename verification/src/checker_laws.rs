//! What holds of every check, proved over the model of the [`crate::checker::Checker`].

use crate::checker::{CheckEventView, CheckPhaseView, CheckResultView, CheckerView};
use crate::error::UpdateErrorView;
use crate::release::VersionDescriptorView;
use crate::retry::{RetryView, BACKOFF_SECS, MAX_ATTEMPTS};
use vstd::prelude::*;

verus! {

/// The events of a feed that fails once for each entry of `details`, each failure
/// followed by the end of the wait it causes.
pub open spec fn failures(details: Seq<Seq<char>>) -> Seq<CheckEventView>
    decreases details.len(),
{
    if details.len() == 0 {
        Seq::empty()
    } else {
        seq![CheckEventView::Failed(details.first()), CheckEventView::BackoffElapsed] + failures(
            details.drop_first(),
        )
    }
}

/// The events of a whole check: the client is obtained, the feed fails once for each
/// entry of `details`, and the attempt after that ends in `last`.
pub open spec fn session(details: Seq<Seq<char>>, last: CheckEventView) -> Seq<CheckEventView> {
    seq![CheckEventView::ClientReady] + failures(details) + seq![last]
}

/// A checker querying the feed on its attempt number `attempt`.
pub open spec fn querying(checker: CheckerView, attempt: nat) -> CheckerView {
    CheckerView {
        retry: RetryView { attempt, ..checker.retry },
        phase: CheckPhaseView::Querying,
        ..checker
    }
}

/// Every step keeps the attempt counter within its bound.
pub proof fn lemma_step_preserves_wf(checker: CheckerView, event: CheckEventView)
    requires
        checker.wf(),
    ensures
        checker.step(event).wf(),
{
}

/// Whatever the host reports, in whatever order, the attempt counter of a check never
/// passes the number of attempts allowed.
pub proof fn lemma_attempts_bounded(current_version: Seq<char>, events: Seq<CheckEventView>)
    ensures
        CheckerView::initial(current_version).run(events).wf(),
        CheckerView::initial(current_version).run(events).retry.attempt <= MAX_ATTEMPTS,
        CheckerView::initial(current_version).run(events).retry.max_attempts == MAX_ATTEMPTS,
        CheckerView::initial(current_version).run(events).retry.backoff_secs == BACKOFF_SECS,
{
    lemma_run_preserves_wf(CheckerView::initial(current_version), events);
}

/// A run keeps what every step keeps, and never touches the policy.
pub proof fn lemma_run_preserves_wf(checker: CheckerView, events: Seq<CheckEventView>)
    requires
        checker.wf(),
    ensures
        checker.run(events).wf(),
        checker.run(events).retry.max_attempts == checker.retry.max_attempts,
        checker.run(events).retry.backoff_secs == checker.retry.backoff_secs,
        checker.run(events).current_version == checker.current_version,
    decreases events.len(),
{
    if events.len() > 0 {
        lemma_run_preserves_wf(checker.step(events.first()), events.drop_first());
    }
}

/// Handing in two batches of events one after the other is handing in their
/// concatenation, for the state reached and for the waits gone through.
pub proof fn lemma_run_concat(
    checker: CheckerView,
    first: Seq<CheckEventView>,
    second: Seq<CheckEventView>,
)
    ensures
        checker.run(first + second) == checker.run(first).run(second),
        checker.sleeps(first + second) == checker.sleeps(first) + checker.run(first).sleeps(
            second,
        ),
    decreases first.len(),
{
    if first.len() == 0 {
        assert(first + second =~= second);
        assert(checker.sleeps(first) + checker.sleeps(second) =~= checker.sleeps(second));
    } else {
        let all = first + second;
        assert(all.first() == first.first());
        assert(all.drop_first() =~= first.drop_first() + second);
        let next = checker.step(first.first());
        lemma_run_concat(next, first.drop_first(), second);
        assert(checker.sleeps(all) =~= checker.sleeps(first) + checker.run(first).sleeps(second));
    }
}

/// Handing in one event is one step; it costs a wait exactly when the checker was
/// waiting.
pub proof fn lemma_run_one(checker: CheckerView, event: CheckEventView)
    ensures
        checker.run(seq![event]) == checker.step(event),
        checker.sleeps(seq![event]) == (if checker.phase is Backoff {
            seq![checker.retry.backoff_secs]
        } else {
            Seq::<nat>::empty()
        }),
{
    let events = seq![event];
    assert(events.first() == event);
    assert(events.drop_first() =~= Seq::<CheckEventView>::empty());
    reveal_with_fuel(CheckerView::run, 2);
    reveal_with_fuel(CheckerView::sleeps, 2);
    assert(checker.sleeps(events) =~= if checker.phase is Backoff {
        seq![checker.retry.backoff_secs]
    } else {
        Seq::<nat>::empty()
    });
}

/// Once a check is over nothing changes it any more, and nothing is waited for.
pub proof fn lemma_finished_is_final(checker: CheckerView, events: Seq<CheckEventView>)
    requires
        checker.phase is Done,
    ensures
        checker.run(events) == checker,
        checker.sleeps(events) == Seq::<nat>::empty(),
    decreases events.len(),
{
    if events.len() > 0 {
        lemma_finished_is_final(checker.step(events.first()), events.drop_first());
    }
}

/// A checker that is querying the feed and has attempts left for every entry of
/// `details` gets through that many failures: it is querying again, on a later
/// attempt, and has waited once, for the fixed time, after each failure.
pub proof fn lemma_failures_are_retried(checker: CheckerView, details: Seq<Seq<char>>)
    requires
        checker.wf(),
        checker.phase is Querying,
        checker.retry.attempt + details.len() <= checker.retry.max_attempts,
    ensures
        checker.run(failures(details)) == querying(
            checker,
            checker.retry.attempt + details.len(),
        ),
        checker.sleeps(failures(details)) == Seq::new(
            details.len(),
            |i: int| checker.retry.backoff_secs,
        ),
    decreases details.len(),
{
    let waits = Seq::new(details.len(), |i: int| checker.retry.backoff_secs);
    if details.len() == 0 {
        assert(checker.sleeps(failures(details)) =~= waits);
    } else {
        let failed = CheckEventView::Failed(details.first());
        let elapsed = CheckEventView::BackoffElapsed;
        let rest = details.drop_first();
        let waiting = checker.step(failed);
        let again = waiting.step(elapsed);
        assert(seq![failed, elapsed] =~= seq![failed] + seq![elapsed]);
        lemma_run_one(checker, failed);
        lemma_run_one(waiting, elapsed);
        lemma_run_concat(checker, seq![failed], seq![elapsed]);
        lemma_run_concat(checker, seq![failed, elapsed], failures(rest));
        lemma_failures_are_retried(again, rest);
        assert(again.run(failures(rest)) == querying(
            checker,
            checker.retry.attempt + details.len(),
        ));
        assert(checker.sleeps(failures(details)) =~= waits);
    }
}

/// A whole check whose feed fails `details.len()` times, fewer than attempts are
/// allowed, ends in whatever the attempt after the failures ends in; the host has
/// waited once after each failure, each time for the fixed backoff, and the last
/// event cost no wait.
pub proof fn lemma_session(current_version: Seq<char>, details: Seq<Seq<char>>, last: CheckEventView)
    requires
        details.len() < MAX_ATTEMPTS,
    ensures
        CheckerView::initial(current_version).run(session(details, last)) == querying(
            CheckerView::initial(current_version),
            details.len() + 1,
        ).step(last),
        CheckerView::initial(current_version).sleeps(session(details, last)) == Seq::new(
            details.len(),
            |i: int| BACKOFF_SECS as nat,
        ),
{
    let start = CheckerView::initial(current_version);
    let ready = seq![CheckEventView::ClientReady];
    let first_query = start.step(CheckEventView::ClientReady);
    let last_query = querying(start, details.len() + 1);
    lemma_run_one(start, CheckEventView::ClientReady);
    lemma_failures_are_retried(first_query, details);
    assert(first_query.run(failures(details)) == last_query);
    lemma_run_concat(start, ready, failures(details));
    lemma_run_one(last_query, last);
    lemma_run_concat(start, ready + failures(details), seq![last]);
    assert(start.sleeps(session(details, last)) =~= Seq::new(
        details.len(),
        |i: int| BACKOFF_SECS as nat,
    ));
}

/// When the feed fails at most twice and then answers, the check returns that answer
/// and the host has waited exactly once per failure, three seconds each time.
pub proof fn lemma_answer_after_failures(
    current_version: Seq<char>,
    details: Seq<Seq<char>>,
    answer: CheckEventView,
)
    requires
        details.len() <= 2,
        answer is UpToDate || answer is UpdateFound,
    ensures
        CheckerView::initial(current_version).run(session(details, answer)).result() == Some(
            match answer {
                CheckEventView::UpdateFound(release) => CheckResultView::UpdateAvailable(
                    VersionDescriptorView::describe(current_version, release),
                ),
                _ => CheckResultView::NoUpdateAvailable,
            },
        ),
        CheckerView::initial(current_version).sleeps(session(details, answer)) == Seq::new(
            details.len(),
            |i: int| 3nat,
        ),
        CheckerView::initial(current_version).run(session(details, answer)).retry.attempt
            == details.len() + 1,
{
    lemma_session(current_version, details, answer);
    assert(Seq::new(details.len(), |i: int| BACKOFF_SECS as nat) =~= Seq::new(
        details.len(),
        |i: int| 3nat,
    ));
}

/// When the feed fails on every attempt allowed, three in all, the check fails with
/// the detail of the last failure; the host has waited twice, three seconds each
/// time, and is asked for nothing after the last attempt.
pub proof fn lemma_gives_up_after_last_attempt(current_version: Seq<char>, details: Seq<Seq<char>>)
    requires
        details.len() == MAX_ATTEMPTS,
    ensures
        CheckerView::initial(current_version).run(
            session(details.drop_last(), CheckEventView::Failed(details.last())),
        ).result() == Some(
            CheckResultView::CheckFailed(UpdateErrorView::TransientFeed(details.last())),
        ),
        CheckerView::initial(current_version).run(
            session(details.drop_last(), CheckEventView::Failed(details.last())),
        ).request() is None,
        CheckerView::initial(current_version).sleeps(
            session(details.drop_last(), CheckEventView::Failed(details.last())),
        ) == seq![3nat, 3nat],
{
    let earlier = details.drop_last();
    lemma_session(current_version, earlier, CheckEventView::Failed(details.last()));
    assert(Seq::new(earlier.len(), |i: int| BACKOFF_SECS as nat) =~= seq![3nat, 3nat]);
}

/// A client that cannot be obtained ends the check at once: the feed is never
/// queried, nothing is waited for, and whatever is reported afterwards changes
/// nothing.
pub proof fn lemma_missing_client_is_fatal(
    current_version: Seq<char>,
    detail: Seq<char>,
    later: Seq<CheckEventView>,
)
    ensures
        CheckerView::initial(current_version).run(
            seq![CheckEventView::Failed(detail)] + later,
        ).result() == Some(
            CheckResultView::CheckFailed(UpdateErrorView::Initialization(detail)),
        ),
        CheckerView::initial(current_version).run(
            seq![CheckEventView::Failed(detail)] + later,
        ).retry.attempt == 0,
        CheckerView::initial(current_version).sleeps(
            seq![CheckEventView::Failed(detail)] + later,
        ) == Seq::<nat>::empty(),
{
    let start = CheckerView::initial(current_version);
    let failed = CheckEventView::Failed(detail);
    lemma_run_one(start, failed);
    lemma_run_concat(start, seq![failed], later);
    lemma_finished_is_final(start.step(failed), later);
    assert(start.sleeps(seq![failed] + later) =~= Seq::<nat>::empty());
}

/// Whether `event` is an outcome of what `checker` is waiting on.
pub open spec fn answers(checker: CheckerView, event: CheckEventView) -> bool {
    match checker.phase {
        CheckPhaseView::Resolving => event is ClientReady || event is Failed,
        CheckPhaseView::Querying => event is UpToDate || event is UpdateFound || event is Failed,
        CheckPhaseView::Backoff => event is BackoffElapsed,
        CheckPhaseView::Done(_) => false,
    }
}

/// Whether `events` are what a host hands in that carries out every request: each
/// event is an outcome of what the checker is waiting on when it arrives, and none
/// arrives after the check is over.
pub open spec fn answered(checker: CheckerView, events: Seq<CheckEventView>) -> bool
    decreases events.len(),
{
    events.len() > 0 ==> answers(checker, events.first()) && answered(
        checker.step(events.first()),
        events.drop_first(),
    )
}

/// How many more outcomes a check can take in at most before it is over.
pub open spec fn outcomes_left(checker: CheckerView) -> int {
    match checker.phase {
        CheckPhaseView::Resolving => 2 * (checker.retry.max_attempts as int),
        CheckPhaseView::Querying => 2 * (checker.retry.max_attempts - checker.retry.attempt) + 1,
        CheckPhaseView::Backoff => 2 * (checker.retry.max_attempts - checker.retry.attempt),
        CheckPhaseView::Done(_) => 0,
    }
}

/// Events handed in in two batches answer the checker exactly when each batch does,
/// the second from where the first leaves the checker.
pub proof fn lemma_answered_concat(
    checker: CheckerView,
    first: Seq<CheckEventView>,
    second: Seq<CheckEventView>,
)
    ensures
        answered(checker, first + second) <==> answered(checker, first) && answered(
            checker.run(first),
            second,
        ),
    decreases first.len(),
{
    if first.len() == 0 {
        assert(first + second =~= second);
    } else {
        let all = first + second;
        assert(all.first() == first.first());
        assert(all.drop_first() =~= first.drop_first() + second);
        lemma_answered_concat(checker.step(first.first()), first.drop_first(), second);
    }
}

/// The events of a whole check are what a host hands in that carries out every
/// request, as long as the feed fails fewer times than attempts are allowed and the
/// last event is an outcome of a query.
pub proof fn lemma_session_is_answered(
    current_version: Seq<char>,
    details: Seq<Seq<char>>,
    last: CheckEventView,
)
    requires
        details.len() < MAX_ATTEMPTS,
        last is UpToDate || last is UpdateFound || last is Failed,
    ensures
        answered(CheckerView::initial(current_version), session(details, last)),
{
    let start = CheckerView::initial(current_version);
    let ready = seq![CheckEventView::ClientReady];
    let first_query = start.step(CheckEventView::ClientReady);
    reveal_with_fuel(answered, 2);
    assert(ready.first() == CheckEventView::ClientReady);
    assert(ready.drop_first() =~= Seq::<CheckEventView>::empty());
    assert(seq![last].first() == last);
    assert(seq![last].drop_first() =~= Seq::<CheckEventView>::empty());
    lemma_run_one(start, CheckEventView::ClientReady);
    lemma_failures_are_answered(first_query, details);
    lemma_failures_are_retried(first_query, details);
    lemma_answered_concat(start, ready, failures(details));
    lemma_run_concat(start, ready, failures(details));
    lemma_answered_concat(start, ready + failures(details), seq![last]);
}

/// The failures that a querying checker has attempts left for are what a host hands
/// in that carries out every request.
pub proof fn lemma_failures_are_answered(checker: CheckerView, details: Seq<Seq<char>>)
    requires
        checker.wf(),
        checker.phase is Querying,
        checker.retry.attempt + details.len() <= checker.retry.max_attempts,
    ensures
        answered(checker, failures(details)),
    decreases details.len(),
{
    if details.len() > 0 {
        let failed = CheckEventView::Failed(details.first());
        let elapsed = CheckEventView::BackoffElapsed;
        let pair = seq![failed, elapsed];
        let again = checker.step(failed).step(elapsed);
        reveal_with_fuel(answered, 3);
        reveal_with_fuel(CheckerView::run, 3);
        assert(pair.first() == failed);
        assert(pair.drop_first() =~= seq![elapsed]);
        assert(seq![elapsed].first() == elapsed);
        assert(seq![elapsed].drop_first() =~= Seq::<CheckEventView>::empty());
        assert(answered(checker, pair));
        assert(checker.run(pair) == again);
        lemma_failures_are_answered(again, details.drop_first());
        lemma_answered_concat(checker, pair, failures(details.drop_first()));
    }
}

/// A host that carries out every request cannot keep a check going: each outcome
/// brings the check closer to its end.
pub proof fn lemma_outcomes_run_out(checker: CheckerView, events: Seq<CheckEventView>)
    requires
        checker.wf(),
        answered(checker, events),
    ensures
        events.len() + outcomes_left(checker.run(events)) <= outcomes_left(checker),
    decreases events.len(),
{
    if events.len() > 0 {
        lemma_step_preserves_wf(checker, events.first());
        lemma_outcomes_run_out(checker.step(events.first()), events.drop_first());
    }
}

/// Every check ends: a host that carries out every request hands in six outcomes at
/// most, and after the sixth the check is over.
pub proof fn lemma_check_ends(current_version: Seq<char>, events: Seq<CheckEventView>)
    requires
        answered(CheckerView::initial(current_version), events),
    ensures
        events.len() <= 2 * MAX_ATTEMPTS,
        events.len() == 2 * MAX_ATTEMPTS ==> CheckerView::initial(current_version).run(
            events,
        ).result() is Some,
{
    let start = CheckerView::initial(current_version);
    lemma_outcomes_run_out(start, events);
    lemma_run_preserves_wf(start, events);
}

} // verus!
