//! The update checker: one query of the feed, repeated a bounded number of times when
//! the feed cannot be reached.
//!
//! The checker is a state machine.  [`Checker::request`] names what it is waiting on,
//! the host carries that out and reports the outcome through [`Checker::step`].  A
//! check is over when the checker holds a [`CheckResult`].

use crate::checker_laws::{lemma_run_concat, lemma_run_one};
use crate::error::{UpdateError, UpdateErrorView};
use crate::release::{
    Release, ReleaseView, UpdateInfo, UpdateInfoView, VersionDescriptor, VersionDescriptorView,
};
use crate::retry::{RetryState, RetryView};
use vstd::prelude::*;

verus! {

/// How a check ended.
#[derive(Debug, PartialEq, Eq)]
pub enum CheckResult {
    /// The feed offers nothing newer than the running version.
    NoUpdateAvailable,
    /// The feed offers a newer version.
    UpdateAvailable(VersionDescriptor),
    /// The check could not be carried out.
    CheckFailed(UpdateError),
}

/// The mathematical content of a [`CheckResult`].
pub enum CheckResultView {
    NoUpdateAvailable,
    UpdateAvailable(VersionDescriptorView),
    CheckFailed(UpdateErrorView),
}

impl View for CheckResult {
    type V = CheckResultView;

    open spec fn view(&self) -> CheckResultView {
        match self {
            CheckResult::NoUpdateAvailable => CheckResultView::NoUpdateAvailable,
            CheckResult::UpdateAvailable(descriptor) => CheckResultView::UpdateAvailable(
                descriptor@,
            ),
            CheckResult::CheckFailed(error) => CheckResultView::CheckFailed(error@),
        }
    }
}

/// The mathematical content of the answer given to the user interface.
pub enum CheckReplyView {
    /// Nothing to show: the running version is the latest.
    Nothing,
    /// The record of the offered version.
    Info(UpdateInfoView),
    /// The message of the failure.
    Message(Seq<char>),
}

/// The content of an answer as the user interface receives it.
pub open spec fn reply_view(reply: Result<Option<UpdateInfo>, String>) -> CheckReplyView {
    match reply {
        Ok(None) => CheckReplyView::Nothing,
        Ok(Some(info)) => CheckReplyView::Info(info@),
        Err(message) => CheckReplyView::Message(message@),
    }
}

impl CheckResultView {
    /// The answer given to the user interface for this result.
    pub open spec fn reply(self) -> CheckReplyView {
        match self {
            CheckResultView::NoUpdateAvailable => CheckReplyView::Nothing,
            CheckResultView::UpdateAvailable(descriptor) => CheckReplyView::Info(
                descriptor.info(),
            ),
            CheckResultView::CheckFailed(error) => CheckReplyView::Message(error.message()),
        }
    }
}

impl CheckResult {
    /// Turns the result into the answer for the user interface: nothing when the
    /// running version is the latest, the record of the offered version when there is
    /// one, the failure's message otherwise.
    pub fn into_reply(self) -> (reply: Result<Option<UpdateInfo>, String>)
        ensures
            reply_view(reply) == self@.reply(),
    {
        match self {
            CheckResult::NoUpdateAvailable => Ok(None),
            CheckResult::UpdateAvailable(descriptor) => Ok(Some(descriptor.into_info())),
            CheckResult::CheckFailed(error) => Err(error.message()),
        }
    }
}

/// What the host reports back to a [`Checker`].
#[derive(Debug, PartialEq, Eq)]
pub enum CheckEvent {
    /// The updater client is there.
    ClientReady,
    /// The feed answered: nothing newer.
    UpToDate,
    /// The feed answered: this release is newer.
    UpdateFound(Release),
    /// The wait between two attempts is over.
    BackoffElapsed,
    /// What the checker was waiting on failed, with this detail.
    Failed(String),
}

/// The mathematical content of a [`CheckEvent`].
pub enum CheckEventView {
    ClientReady,
    UpToDate,
    UpdateFound(ReleaseView),
    BackoffElapsed,
    Failed(Seq<char>),
}

impl View for CheckEvent {
    type V = CheckEventView;

    open spec fn view(&self) -> CheckEventView {
        match self {
            CheckEvent::ClientReady => CheckEventView::ClientReady,
            CheckEvent::UpToDate => CheckEventView::UpToDate,
            CheckEvent::UpdateFound(release) => CheckEventView::UpdateFound(release@),
            CheckEvent::BackoffElapsed => CheckEventView::BackoffElapsed,
            CheckEvent::Failed(detail) => CheckEventView::Failed(detail@),
        }
    }
}

/// What a [`Checker`] asks the host to do next.
#[derive(Clone, Copy, Debug, PartialEq, Eq)]
pub enum CheckRequest {
    /// Obtain the updater client.
    ResolveClient,
    /// Query the feed once.
    QueryFeed,
    /// Wait this many seconds.
    Sleep(u64),
}

/// The mathematical content of a [`CheckRequest`].
pub enum CheckRequestView {
    ResolveClient,
    QueryFeed,
    Sleep(nat),
}

impl View for CheckRequest {
    type V = CheckRequestView;

    open spec fn view(&self) -> CheckRequestView {
        match self {
            CheckRequest::ResolveClient => CheckRequestView::ResolveClient,
            CheckRequest::QueryFeed => CheckRequestView::QueryFeed,
            CheckRequest::Sleep(secs) => CheckRequestView::Sleep(*secs as nat),
        }
    }
}

/// The content of an optional request.
pub open spec fn opt_request_view(request: Option<CheckRequest>) -> Option<CheckRequestView> {
    match request {
        Some(r) => Some(r@),
        None => None,
    }
}

/// Where a check stands.
pub enum CheckPhaseView {
    /// Waiting for the updater client.
    Resolving,
    /// Waiting for the feed's answer.
    Querying,
    /// Waiting between two attempts.
    Backoff,
    /// Over, with this result.
    Done(CheckResultView),
}

/// The mathematical content of a [`Checker`].
pub struct CheckerView {
    pub current_version: Seq<char>,
    pub retry: RetryView,
    pub phase: CheckPhaseView,
}

impl CheckerView {
    /// The checker of a build running `current_version`, before anything happened.
    pub open spec fn initial(current_version: Seq<char>) -> CheckerView {
        CheckerView {
            current_version,
            retry: RetryView::initial(),
            phase: CheckPhaseView::Resolving,
        }
    }

    /// What every checker satisfies: the attempt counter is within its bound, no
    /// attempt is counted before the client is there, one is counted while the feed is
    /// being queried, and a wait is only entered when another attempt is left.
    pub open spec fn wf(self) -> bool {
        &&& self.retry.wf()
        &&& match self.phase {
            CheckPhaseView::Resolving => self.retry.attempt == 0,
            CheckPhaseView::Querying => 1 <= self.retry.attempt,
            CheckPhaseView::Backoff => 1 <= self.retry.attempt < self.retry.max_attempts,
            CheckPhaseView::Done(_) => true,
        }
    }

    /// What the checker is waiting on; nothing once the check is over.
    pub open spec fn request(self) -> Option<CheckRequestView> {
        match self.phase {
            CheckPhaseView::Resolving => Some(CheckRequestView::ResolveClient),
            CheckPhaseView::Querying => Some(CheckRequestView::QueryFeed),
            CheckPhaseView::Backoff => Some(CheckRequestView::Sleep(self.retry.backoff_secs)),
            CheckPhaseView::Done(_) => None,
        }
    }

    /// The result of the check, once it is over.
    pub open spec fn result(self) -> Option<CheckResultView> {
        match self.phase {
            CheckPhaseView::Done(result) => Some(result),
            _ => None,
        }
    }

    /// The checker with the check over.
    pub open spec fn finish(self, result: CheckResultView) -> CheckerView {
        CheckerView { phase: CheckPhaseView::Done(result), ..self }
    }

    /// The checker after `event`.
    ///
    /// A client that cannot be obtained ends the check at once.  An answer of the feed
    /// ends it, too.  A failed query ends it when it was the last attempt allowed and
    /// leads into the wait otherwise; when the wait is over the next attempt begins.
    /// An event that does not answer what the checker is waiting on changes nothing.
    pub open spec fn step(self, event: CheckEventView) -> CheckerView {
        match (self.phase, event) {
            (CheckPhaseView::Resolving, CheckEventView::ClientReady) => CheckerView {
                retry: self.retry.next(),
                phase: CheckPhaseView::Querying,
                ..self
            },
            (CheckPhaseView::Resolving, CheckEventView::Failed(detail)) => self.finish(
                CheckResultView::CheckFailed(UpdateErrorView::Initialization(detail)),
            ),
            (CheckPhaseView::Querying, CheckEventView::UpToDate) => self.finish(
                CheckResultView::NoUpdateAvailable,
            ),
            (CheckPhaseView::Querying, CheckEventView::UpdateFound(release)) => self.finish(
                CheckResultView::UpdateAvailable(
                    VersionDescriptorView::describe(self.current_version, release),
                ),
            ),
            (CheckPhaseView::Querying, CheckEventView::Failed(detail)) => {
                if self.retry.exhausted() {
                    self.finish(
                        CheckResultView::CheckFailed(UpdateErrorView::TransientFeed(detail)),
                    )
                } else {
                    CheckerView { phase: CheckPhaseView::Backoff, ..self }
                }
            },
            (CheckPhaseView::Backoff, CheckEventView::BackoffElapsed) => CheckerView {
                retry: self.retry.next(),
                phase: CheckPhaseView::Querying,
                ..self
            },
            _ => self,
        }
    }

    /// The checker after `events`, handed in one by one.
    pub open spec fn run(self, events: Seq<CheckEventView>) -> CheckerView
        decreases events.len(),
    {
        if events.len() == 0 {
            self
        } else {
            self.step(events.first()).run(events.drop_first())
        }
    }

    /// The waits the host goes through while it hands in `events` one by one, each
    /// event being the outcome of what the checker was waiting on at that moment: the
    /// seconds of every wait, in order.
    pub open spec fn sleeps(self, events: Seq<CheckEventView>) -> Seq<nat>
        decreases events.len(),
    {
        if events.len() == 0 {
            Seq::empty()
        } else {
            let rest = self.step(events.first()).sleeps(events.drop_first());
            match self.request() {
                Some(CheckRequestView::Sleep(secs)) => seq![secs] + rest,
                _ => rest,
            }
        }
    }
}

/// The contents of a recorded sequence of events.
pub open spec fn events_view(events: Seq<CheckEvent>) -> Seq<CheckEventView> {
    events.map_values(|event: CheckEvent| event@)
}

/// The contents of a sequence of waits, in seconds.
pub open spec fn waits_view(waits: Seq<u64>) -> Seq<nat> {
    waits.map_values(|secs: u64| secs as nat)
}

enum CheckPhase {
    Resolving,
    Querying,
    Backoff,
    Done(CheckResult),
}

impl View for CheckPhase {
    type V = CheckPhaseView;

    closed spec fn view(&self) -> CheckPhaseView {
        match self {
            CheckPhase::Resolving => CheckPhaseView::Resolving,
            CheckPhase::Querying => CheckPhaseView::Querying,
            CheckPhase::Backoff => CheckPhaseView::Backoff,
            CheckPhase::Done(result) => CheckPhaseView::Done(result@),
        }
    }
}

struct CheckState {
    retry: RetryState,
    phase: CheckPhase,
}

/// One check for an update.
pub struct Checker {
    current_version: String,
    state: CheckState,
}

impl View for Checker {
    type V = CheckerView;

    closed spec fn view(&self) -> CheckerView {
        CheckerView {
            current_version: self.current_version@,
            retry: self.state.retry@,
            phase: self.state.phase@,
        }
    }
}

impl Checker {
    #[verifier::type_invariant]
    spec fn inv(self) -> bool {
        self@.wf()
    }

    /// Begins a check on behalf of the build running `current_version`.
    pub fn new(current_version: String) -> (checker: Checker)
        ensures
            checker@ == CheckerView::initial(current_version@),
    {
        Checker {
            current_version,
            state: CheckState { retry: RetryState::new(), phase: CheckPhase::Resolving },
        }
    }

    /// What the host has to do next; nothing once the check is over.
    pub fn request(&self) -> (request: Option<CheckRequest>)
        ensures
            opt_request_view(request) == self@.request(),
    {
        match &self.state.phase {
            CheckPhase::Resolving => Some(CheckRequest::ResolveClient),
            CheckPhase::Querying => Some(CheckRequest::QueryFeed),
            CheckPhase::Backoff => Some(CheckRequest::Sleep(self.state.retry.backoff_secs())),
            CheckPhase::Done(_) => None,
        }
    }

    /// The attempt counter and the policy it runs under.  The counter never passes
    /// its bound.
    pub fn retry(&self) -> (retry: RetryState)
        ensures
            retry@ == self@.retry,
            self@.wf(),
    {
        proof {
            use_type_invariant(self);
        }
        self.state.retry
    }

    /// Whether the check is over.
    pub fn is_finished(&self) -> (finished: bool)
        ensures
            finished == self@.result().is_some(),
    {
        match &self.state.phase {
            CheckPhase::Done(_) => true,
            _ => false,
        }
    }

    /// The result, once the check is over.
    pub fn into_result(self) -> (result: Option<CheckResult>)
        ensures
            match result {
                Some(r) => self@.result() == Some(r@),
                None => self@.result() is None,
            },
    {
        match self.state.phase {
            CheckPhase::Done(result) => Some(result),
            _ => None,
        }
    }

    /// Takes in a recorded sequence of outcomes, one by one, as a host hands them in
    /// that carries out what the checker asks for, and returns the waits that host
    /// went through, in seconds and in order.
    pub fn replay(&mut self, events: Vec<CheckEvent>) -> (waits: Vec<u64>)
        ensures
            final(self)@ == old(self)@.run(events_view(events@)),
            waits_view(waits@) == old(self)@.sleeps(events_view(events@)),
    {
        let ghost start = self@;
        let ghost all = events_view(events@);
        let mut waits: Vec<u64> = Vec::new();
        for event in iter: events.into_iter()
            invariant
                iter.seq() == events@,
                all == events_view(events@),
                self@ == start.run(all.take(iter.index() as int)),
                waits_view(waits@) == start.sleeps(all.take(iter.index() as int)),
        {
            let ghost before = self@;
            let ghost done = all.take(iter.index() as int);
            let ghost so_far = waits_view(waits@);
            proof {
                lemma_run_concat(start, done, seq![event@]);
                lemma_run_one(before, event@);
                assert(all.take(iter.index() + 1) =~= done + seq![event@]);
            }
            match self.request() {
                Some(CheckRequest::Sleep(secs)) => {
                    waits.push(secs);
                    assert(waits_view(waits@) =~= so_far + seq![secs as nat]);
                },
                _ => {},
            }
            self.step(event);
        }
        assert(all.take(all.len() as int) =~= all);
        waits
    }

    /// Takes in the outcome of what the checker was waiting on.
    pub fn step(&mut self, event: CheckEvent)
        ensures
            final(self)@ == old(self)@.step(event@),
    {
        proof {
            use_type_invariant(&*self);
        }
        let retry = self.state.retry;
        match &self.state.phase {
            CheckPhase::Resolving => match event {
                CheckEvent::ClientReady => {
                    self.begin_attempt(retry);
                },
                CheckEvent::Failed(detail) => {
                    self.finish(retry, CheckResult::CheckFailed(UpdateError::Initialization(detail)));
                },
                _ => {},
            },
            CheckPhase::Querying => match event {
                CheckEvent::UpToDate => {
                    self.finish(retry, CheckResult::NoUpdateAvailable);
                },
                CheckEvent::UpdateFound(release) => {
                    let descriptor = VersionDescriptor::describe(
                        self.current_version.clone(),
                        release,
                    );
                    self.finish(retry, CheckResult::UpdateAvailable(descriptor));
                },
                CheckEvent::Failed(detail) => {
                    if retry.exhausted() {
                        self.finish(
                            retry,
                            CheckResult::CheckFailed(UpdateError::TransientFeed(detail)),
                        );
                    } else {
                        self.state = CheckState { retry, phase: CheckPhase::Backoff };
                    }
                },
                _ => {},
            },
            CheckPhase::Backoff => match event {
                CheckEvent::BackoffElapsed => {
                    self.begin_attempt(retry);
                },
                _ => {},
            },
            CheckPhase::Done(_) => {},
        }
    }

    fn begin_attempt(&mut self, retry: RetryState)
        requires
            retry@ == old(self)@.retry,
            !retry@.exhausted(),
        ensures
            final(self)@ == (CheckerView {
                retry: old(self)@.retry.next(),
                phase: CheckPhaseView::Querying,
                ..old(self)@
            }),
    {
        proof {
            use_type_invariant(&*self);
        }
        match retry.next() {
            Some(next) => {
                self.state = CheckState { retry: next, phase: CheckPhase::Querying };
            },
            None => {},
        }
    }

    fn finish(&mut self, retry: RetryState, result: CheckResult)
        requires
            retry@ == old(self)@.retry,
        ensures
            final(self)@ == old(self)@.finish(result@),
    {
        proof {
            use_type_invariant(&*self);
        }
        self.state = CheckState { retry, phase: CheckPhase::Done(result) };
    }
}

} // verus!
