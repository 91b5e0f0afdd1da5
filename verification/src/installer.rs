//! The update installer: one query of the feed, the download with its progress
//! reports, the installation, and the restart.
//!
//! Like the checker, the installer is a state machine.  [`Installer::request`] names
//! what the host has to do, [`Installer::step`] takes in what happened and hands back
//! the event, if any, that the host passes on to the observer.  The installer never
//! waits for the observer: an event that nobody listens to is simply dropped by the
//! host.

use crate::error::{UpdateError, UpdateErrorView};
use crate::installer_laws::{lemma_run_concat, lemma_run_one};
use crate::lock::InstallLock;
use crate::progress::{opt_nat, DownloadProgress, ProgressView};
use crate::release::{Release, ReleaseView};
use vstd::prelude::*;

verus! {

/// What the observer is told during a download.
#[derive(Clone, Copy, Debug, PartialEq, Eq)]
pub enum ObserverEvent {
    /// A chunk arrived.  `progress` is the percentage reached, left out while the
    /// total is unknown.
    DownloadProgress { progress: Option<u64>, downloaded: u64, total: Option<u64> },
    /// The stream is complete; the installation begins.
    DownloadComplete,
}

/// The mathematical content of an [`ObserverEvent`].
pub enum ObserverEventView {
    DownloadProgress { progress: Option<nat>, downloaded: nat, total: Option<nat> },
    DownloadComplete,
}

impl View for ObserverEvent {
    type V = ObserverEventView;

    open spec fn view(&self) -> ObserverEventView {
        match self {
            ObserverEvent::DownloadProgress {
                progress,
                downloaded,
                total,
            } => ObserverEventView::DownloadProgress {
                progress: opt_nat(*progress),
                downloaded: *downloaded as nat,
                total: opt_nat(*total),
            },
            ObserverEvent::DownloadComplete => ObserverEventView::DownloadComplete,
        }
    }
}

/// The content of an optional event.
pub open spec fn opt_event_view(event: Option<ObserverEvent>) -> Option<ObserverEventView> {
    match event {
        Some(e) => Some(e@),
        None => None,
    }
}

impl ObserverEventView {
    /// The report of the progress `progress`.
    pub open spec fn report(progress: ProgressView) -> ObserverEventView {
        ObserverEventView::DownloadProgress {
            progress: progress.percent(),
            downloaded: progress.downloaded,
            total: progress.total,
        }
    }

    /// The name under which the event is sent.
    pub open spec fn name(self) -> Seq<char> {
        match self {
            ObserverEventView::DownloadProgress { .. } => "download-progress"@,
            ObserverEventView::DownloadComplete => "download-complete"@,
        }
    }
}

impl ObserverEvent {
    /// The name under which the event is sent.
    pub fn name(&self) -> (name: &'static str)
        ensures
            name@ == self@.name(),
    {
        match self {
            ObserverEvent::DownloadProgress { .. } => "download-progress",
            ObserverEvent::DownloadComplete => "download-complete",
        }
    }

    /// The report of the progress `progress`.
    pub fn report(progress: &DownloadProgress) -> (event: ObserverEvent)
        ensures
            event@ == ObserverEventView::report(progress@),
    {
        ObserverEvent::DownloadProgress {
            progress: progress.percent(),
            downloaded: progress.downloaded(),
            total: progress.total(),
        }
    }
}

/// What the host reports back to an [`Installer`].
#[derive(Debug, PartialEq, Eq)]
pub enum InstallEvent {
    /// The updater client is there.
    ClientReady,
    /// The feed answered: nothing newer.
    UpToDate,
    /// The feed answered: this release is newer.
    UpdateFound(Release),
    /// A chunk of `len` bytes arrived; `total` is the size of the whole artifact as
    /// the transport announces it.
    Chunk { len: u64, total: Option<u64> },
    /// The stream ended in good order.
    StreamEnded,
    /// The platform applied the artifact.
    Installed,
    /// What the installer was waiting on failed, with this detail.
    Failed(String),
}

/// The mathematical content of an [`InstallEvent`].
pub enum InstallEventView {
    ClientReady,
    UpToDate,
    UpdateFound(ReleaseView),
    Chunk { len: nat, total: Option<nat> },
    StreamEnded,
    Installed,
    Failed(Seq<char>),
}

impl View for InstallEvent {
    type V = InstallEventView;

    open spec fn view(&self) -> InstallEventView {
        match self {
            InstallEvent::ClientReady => InstallEventView::ClientReady,
            InstallEvent::UpToDate => InstallEventView::UpToDate,
            InstallEvent::UpdateFound(release) => InstallEventView::UpdateFound(release@),
            InstallEvent::Chunk { len, total } => InstallEventView::Chunk {
                len: *len as nat,
                total: opt_nat(*total),
            },
            InstallEvent::StreamEnded => InstallEventView::StreamEnded,
            InstallEvent::Installed => InstallEventView::Installed,
            InstallEvent::Failed(detail) => InstallEventView::Failed(detail@),
        }
    }
}

/// What an [`Installer`] asks the host to do next.
#[derive(Clone, Copy, Debug, PartialEq, Eq)]
pub enum InstallRequest {
    /// Obtain the updater client.
    ResolveClient,
    /// Query the feed, once.
    QueryFeed,
    /// Receive the artifact and report every chunk, then the end of the stream.
    Download,
    /// Hand the artifact to the platform and wait until it is applied.
    Install,
    /// End this process and start the new build.  There is nothing to report back.
    Restart,
}

/// Where an installation stands.
#[derive(Debug, PartialEq, Eq)]
pub enum InstallPhase {
    /// Waiting for the updater client.
    Idle,
    /// Waiting for the feed's answer.
    Checking,
    /// Receiving the artifact; so much has arrived.
    Downloading(DownloadProgress),
    /// Waiting for the platform to apply the artifact.
    Installing,
    /// Installed; the process is to be replaced.
    Restarting,
    /// Given up.  The running build is untouched.
    Failed(UpdateError),
}

/// The mathematical content of an [`InstallPhase`].
pub enum InstallPhaseView {
    Idle,
    Checking,
    Downloading(ProgressView),
    Installing,
    Restarting,
    Failed(UpdateErrorView),
}

impl View for InstallPhase {
    type V = InstallPhaseView;

    open spec fn view(&self) -> InstallPhaseView {
        match self {
            InstallPhase::Idle => InstallPhaseView::Idle,
            InstallPhase::Checking => InstallPhaseView::Checking,
            InstallPhase::Downloading(progress) => InstallPhaseView::Downloading(progress@),
            InstallPhase::Installing => InstallPhaseView::Installing,
            InstallPhase::Restarting => InstallPhaseView::Restarting,
            InstallPhase::Failed(error) => InstallPhaseView::Failed(error@),
        }
    }
}

/// The detail of the failure of an installation that was asked for while another one
/// was under way.
pub open spec fn busy_detail() -> Seq<char> {
    "another installation is under way"@
}

/// The mathematical content of an [`Installer`].
pub struct InstallerView {
    pub phase: InstallPhaseView,
}

impl InstallerView {
    /// The installer before anything happened.
    pub open spec fn initial() -> InstallerView {
        InstallerView { phase: InstallPhaseView::Idle }
    }

    /// What every installer satisfies: while it downloads, its counter fits the
    /// machine and has not passed the total, if the total is known.
    pub open spec fn wf(self) -> bool {
        self.phase matches InstallPhaseView::Downloading(progress) ==> progress.wf()
            && progress.downloaded <= u64::MAX
    }

    /// What the installer is waiting on; nothing once it has given up.
    pub open spec fn request(self) -> Option<InstallRequest> {
        match self.phase {
            InstallPhaseView::Idle => Some(InstallRequest::ResolveClient),
            InstallPhaseView::Checking => Some(InstallRequest::QueryFeed),
            InstallPhaseView::Downloading(_) => Some(InstallRequest::Download),
            InstallPhaseView::Installing => Some(InstallRequest::Install),
            InstallPhaseView::Restarting => Some(InstallRequest::Restart),
            InstallPhaseView::Failed(_) => None,
        }
    }

    /// The installer having given up for the reason `error`.
    pub open spec fn fail(error: UpdateErrorView) -> InstallerView {
        InstallerView { phase: InstallPhaseView::Failed(error) }
    }

    /// The installer after `event`.
    ///
    /// A failure ends the installation with the error that belongs to the phase it
    /// arrived in; so does a feed that offers nothing.  The feed is queried once.  An
    /// event that does not answer what the installer is waiting on changes nothing,
    /// and neither does a chunk that cannot be counted because the counter would
    /// overflow or pass the total announced.
    pub open spec fn step(self, event: InstallEventView) -> InstallerView {
        match (self.phase, event) {
            (InstallPhaseView::Idle, InstallEventView::ClientReady) => InstallerView {
                phase: InstallPhaseView::Checking,
            },
            (InstallPhaseView::Idle, InstallEventView::Failed(detail)) => Self::fail(
                UpdateErrorView::Initialization(detail),
            ),
            (InstallPhaseView::Checking, InstallEventView::UpdateFound(_)) => InstallerView {
                phase: InstallPhaseView::Downloading(ProgressView::start()),
            },
            (InstallPhaseView::Checking, InstallEventView::UpToDate) => Self::fail(
                UpdateErrorView::NoUpdate,
            ),
            (InstallPhaseView::Checking, InstallEventView::Failed(detail)) => Self::fail(
                UpdateErrorView::TransientFeed(detail),
            ),
            (
                InstallPhaseView::Downloading(progress),
                InstallEventView::Chunk { len, total },
            ) => {
                if progress.accepts(len, total) {
                    InstallerView {
                        phase: InstallPhaseView::Downloading(progress.record(len, total)),
                    }
                } else {
                    self
                }
            },
            (InstallPhaseView::Downloading(_), InstallEventView::StreamEnded) => InstallerView {
                phase: InstallPhaseView::Installing,
            },
            (InstallPhaseView::Downloading(_), InstallEventView::Failed(detail)) => Self::fail(
                UpdateErrorView::Download(detail),
            ),
            (InstallPhaseView::Installing, InstallEventView::Installed) => InstallerView {
                phase: InstallPhaseView::Restarting,
            },
            (InstallPhaseView::Installing, InstallEventView::Failed(detail)) => Self::fail(
                UpdateErrorView::Install(detail),
            ),
            _ => self,
        }
    }

    /// What the observer is told when `event` is taken in: the progress after every
    /// chunk that was counted, and the completion when the stream ends.
    pub open spec fn emission(self, event: InstallEventView) -> Option<ObserverEventView> {
        match (self.phase, event) {
            (
                InstallPhaseView::Downloading(progress),
                InstallEventView::Chunk { len, total },
            ) => {
                if progress.accepts(len, total) {
                    Some(ObserverEventView::report(progress.record(len, total)))
                } else {
                    None
                }
            },
            (InstallPhaseView::Downloading(_), InstallEventView::StreamEnded) => Some(
                ObserverEventView::DownloadComplete,
            ),
            _ => None,
        }
    }

    /// The installer after `events`, handed in one by one.
    pub open spec fn run(self, events: Seq<InstallEventView>) -> InstallerView
        decreases events.len(),
    {
        if events.len() == 0 {
            self
        } else {
            self.step(events.first()).run(events.drop_first())
        }
    }

    /// What the observer is told, in order, while `events` are handed in one by one.
    pub open spec fn emitted(self, events: Seq<InstallEventView>) -> Seq<ObserverEventView>
        decreases events.len(),
    {
        if events.len() == 0 {
            Seq::empty()
        } else {
            let rest = self.step(events.first()).emitted(events.drop_first());
            match self.emission(events.first()) {
                Some(event) => seq![event] + rest,
                None => rest,
            }
        }
    }
}

/// The contents of a recorded sequence of events.
pub open spec fn events_view(events: Seq<InstallEvent>) -> Seq<InstallEventView> {
    events.map_values(|event: InstallEvent| event@)
}

/// The contents of a sequence of events for the observer.
pub open spec fn told_view(told: Seq<ObserverEvent>) -> Seq<ObserverEventView> {
    told.map_values(|event: ObserverEvent| event@)
}

/// One installation of an update.
pub struct Installer {
    phase: InstallPhase,
}

impl View for Installer {
    type V = InstallerView;

    closed spec fn view(&self) -> InstallerView {
        InstallerView { phase: self.phase@ }
    }
}

impl Installer {
    /// Begins an installation.  Nothing is taken over from an earlier check: the
    /// installer asks the feed itself.
    pub fn new() -> (installer: Installer)
        ensures
            installer@ == InstallerView::initial(),
    {
        Installer { phase: InstallPhase::Idle }
    }

    /// Begins an installation if `lock` admits one.  Otherwise the installer has given
    /// up before it starts, and the installation under way is not disturbed.  Either
    /// way the lock is held afterwards; the caller has to release it when its
    /// installer is over, and only if it was admitted.
    pub fn begin(lock: &mut InstallLock) -> (started: (Installer, bool))
        ensures
            started.1 == !old(lock)@,
            final(lock)@,
            started.0@ == (if started.1 {
                InstallerView::initial()
            } else {
                InstallerView::fail(UpdateErrorView::Initialization(busy_detail()))
            }),
    {
        if lock.try_acquire() {
            (Installer::new(), true)
        } else {
            let error = UpdateError::Initialization(
                String::from_str("another installation is under way"),
            );
            (Installer { phase: InstallPhase::Failed(error) }, false)
        }
    }

    /// What the host has to do next; nothing once the installer has given up.
    pub fn request(&self) -> (request: Option<InstallRequest>)
        ensures
            request == self@.request(),
    {
        match &self.phase {
            InstallPhase::Idle => Some(InstallRequest::ResolveClient),
            InstallPhase::Checking => Some(InstallRequest::QueryFeed),
            InstallPhase::Downloading(_) => Some(InstallRequest::Download),
            InstallPhase::Installing => Some(InstallRequest::Install),
            InstallPhase::Restarting => Some(InstallRequest::Restart),
            InstallPhase::Failed(_) => None,
        }
    }

    /// Where the installation stands.
    pub fn phase(&self) -> (phase: &InstallPhase)
        ensures
            phase@ == self@.phase,
    {
        &self.phase
    }

    /// The reason the installer gave up for, if it did.
    pub fn into_failure(self) -> (failure: Option<UpdateError>)
        ensures
            match failure {
                Some(error) => self@.phase == InstallPhaseView::Failed(error@),
                None => !(self@.phase is Failed),
            },
    {
        match self.phase {
            InstallPhase::Failed(error) => Some(error),
            _ => None,
        }
    }

    /// Takes in a recorded sequence of outcomes, one by one, and returns what the
    /// observer is to be told, in order.
    pub fn replay(&mut self, events: Vec<InstallEvent>) -> (told: Vec<ObserverEvent>)
        ensures
            final(self)@ == old(self)@.run(events_view(events@)),
            told_view(told@) == old(self)@.emitted(events_view(events@)),
    {
        let ghost start = self@;
        let ghost all = events_view(events@);
        let mut told: Vec<ObserverEvent> = Vec::new();
        for event in iter: events.into_iter()
            invariant
                iter.seq() == events@,
                all == events_view(events@),
                self@ == start.run(all.take(iter.index() as int)),
                told_view(told@) == start.emitted(all.take(iter.index() as int)),
        {
            let ghost before = self@;
            let ghost done = all.take(iter.index() as int);
            let ghost so_far = told_view(told@);
            proof {
                lemma_run_concat(start, done, seq![event@]);
                lemma_run_one(before, event@);
                assert(all.take(iter.index() + 1) =~= done + seq![event@]);
            }
            match self.step(event) {
                Some(emitted) => {
                    told.push(emitted);
                    assert(told_view(told@) =~= so_far + seq![emitted@]);
                },
                None => {},
            }
        }
        assert(all.take(all.len() as int) =~= all);
        told
    }

    /// Takes in the outcome of what the installer was waiting on and returns what the
    /// observer is to be told, if anything.
    pub fn step(&mut self, event: InstallEvent) -> (emit: Option<ObserverEvent>)
        ensures
            final(self)@ == old(self)@.step(event@),
            opt_event_view(emit) == old(self)@.emission(event@),
    {
        match &self.phase {
            InstallPhase::Idle => match event {
                InstallEvent::ClientReady => {
                    self.phase = InstallPhase::Checking;
                    None
                },
                InstallEvent::Failed(detail) => {
                    self.phase = InstallPhase::Failed(UpdateError::Initialization(detail));
                    None
                },
                _ => None,
            },
            InstallPhase::Checking => match event {
                InstallEvent::UpdateFound(_) => {
                    self.phase = InstallPhase::Downloading(DownloadProgress::new());
                    None
                },
                InstallEvent::UpToDate => {
                    self.phase = InstallPhase::Failed(UpdateError::NoUpdate);
                    None
                },
                InstallEvent::Failed(detail) => {
                    self.phase = InstallPhase::Failed(UpdateError::TransientFeed(detail));
                    None
                },
                _ => None,
            },
            InstallPhase::Downloading(progress) => match event {
                InstallEvent::Chunk { len, total } => match progress.record(len, total) {
                    Some(next) => {
                        self.phase = InstallPhase::Downloading(next);
                        Some(ObserverEvent::report(&next))
                    },
                    None => None,
                },
                InstallEvent::StreamEnded => {
                    self.phase = InstallPhase::Installing;
                    Some(ObserverEvent::DownloadComplete)
                },
                InstallEvent::Failed(detail) => {
                    self.phase = InstallPhase::Failed(UpdateError::Download(detail));
                    None
                },
                _ => None,
            },
            InstallPhase::Installing => match event {
                InstallEvent::Installed => {
                    self.phase = InstallPhase::Restarting;
                    None
                },
                InstallEvent::Failed(detail) => {
                    self.phase = InstallPhase::Failed(UpdateError::Install(detail));
                    None
                },
                _ => None,
            },
            InstallPhase::Restarting => None,
            InstallPhase::Failed(_) => None,
        }
    }
}

} // verus!
