//! What holds of every installation, proved over the model of the
//! [`crate::installer::Installer`].

use crate::error::UpdateErrorView;
use crate::installer::{InstallEventView, InstallPhaseView, InstallerView, ObserverEventView};
use crate::progress::{lemma_percent_bounded, lemma_percent_monotonic, percent_of, ProgressView};
use crate::release::ReleaseView;
use vstd::prelude::*;

verus! {

/// Every chunk among `events` announces the same, known total `total`.
pub open spec fn announces(events: Seq<InstallEventView>, total: nat) -> bool {
    forall|i: int|
        0 <= i < events.len() ==> (#[trigger] events[i] matches InstallEventView::Chunk {
            total: announced,
            ..
        } ==> announced == Some(total))
}

/// No chunk among `events` is empty.
pub open spec fn chunks_nonempty(events: Seq<InstallEventView>) -> bool {
    forall|i: int|
        0 <= i < events.len() ==> (#[trigger] events[i] matches InstallEventView::Chunk {
            len,
            ..
        } ==> len > 0)
}

/// The bytes an installer has counted: those of its download, none outside of one.
pub open spec fn counted(installer: InstallerView) -> nat {
    match installer.phase {
        InstallPhaseView::Downloading(progress) => progress.downloaded,
        _ => 0,
    }
}

/// The byte count an event reports; zero for the completion.
pub open spec fn reported_bytes(event: ObserverEventView) -> nat {
    match event {
        ObserverEventView::DownloadProgress { downloaded, .. } => downloaded,
        ObserverEventView::DownloadComplete => 0,
    }
}

/// The percentage an event reports; zero where it reports none.
pub open spec fn reported_percent(event: ObserverEventView) -> nat {
    match event {
        ObserverEventView::DownloadProgress { progress: Some(percent), .. } => percent,
        _ => 0,
    }
}

/// What a report says is consistent: the bytes fit the machine and, where the total
/// is known, do not pass it, and the percentage is the one of these bytes in this
/// total, between 0 and 100; where the total is unknown, no percentage is given.
pub open spec fn sound(event: ObserverEventView) -> bool {
    match event {
        ObserverEventView::DownloadProgress { progress, downloaded, total } => {
            &&& downloaded <= u64::MAX
            &&& match total {
                Some(t) => downloaded <= t && progress == Some(percent_of(downloaded, t))
                    && percent_of(downloaded, t) <= 100,
                None => progress is None,
            }
        },
        ObserverEventView::DownloadComplete => true,
    }
}

/// Every step keeps the byte counter within the total.
pub proof fn lemma_step_preserves_wf(installer: InstallerView, event: InstallEventView)
    requires
        installer.wf(),
    ensures
        installer.step(event).wf(),
{
}

/// Whatever the host reports, in whatever order, the byte counter of an installation
/// never passes the total announced.
pub proof fn lemma_counter_within_total(events: Seq<InstallEventView>)
    ensures
        InstallerView::initial().run(events).wf(),
{
    lemma_run_preserves_wf(InstallerView::initial(), events);
}

/// A run keeps what every step keeps.
pub proof fn lemma_run_preserves_wf(installer: InstallerView, events: Seq<InstallEventView>)
    requires
        installer.wf(),
    ensures
        installer.run(events).wf(),
    decreases events.len(),
{
    if events.len() > 0 {
        lemma_run_preserves_wf(installer.step(events.first()), events.drop_first());
    }
}

/// Handing in two batches of events one after the other is handing in their
/// concatenation, for the state reached and for what the observer is told.
pub proof fn lemma_run_concat(
    installer: InstallerView,
    first: Seq<InstallEventView>,
    second: Seq<InstallEventView>,
)
    ensures
        installer.run(first + second) == installer.run(first).run(second),
        installer.emitted(first + second) == installer.emitted(first) + installer.run(
            first,
        ).emitted(second),
    decreases first.len(),
{
    if first.len() == 0 {
        assert(first + second =~= second);
        assert(installer.emitted(first) + installer.emitted(second) =~= installer.emitted(second));
    } else {
        let all = first + second;
        assert(all.first() == first.first());
        assert(all.drop_first() =~= first.drop_first() + second);
        lemma_run_concat(installer.step(first.first()), first.drop_first(), second);
        assert(installer.emitted(all) =~= installer.emitted(first) + installer.run(
            first,
        ).emitted(second));
    }
}

/// Handing in one event is one step, and the observer is told what that step emits.
pub proof fn lemma_run_one(installer: InstallerView, event: InstallEventView)
    ensures
        installer.run(seq![event]) == installer.step(event),
        installer.emitted(seq![event]) == (match installer.emission(event) {
            Some(told) => seq![told],
            None => Seq::empty(),
        }),
{
    let events = seq![event];
    assert(events.first() == event);
    assert(events.drop_first() =~= Seq::<InstallEventView>::empty());
    reveal_with_fuel(InstallerView::run, 2);
    reveal_with_fuel(InstallerView::emitted, 2);
    assert(installer.emitted(events) =~= match installer.emission(event) {
        Some(told) => seq![told],
        None => Seq::empty(),
    });
}

/// Once the stream has ended, or the installer has given up, the observer is told
/// nothing more and no download begins again.
pub proof fn lemma_silent_after_download(installer: InstallerView, events: Seq<InstallEventView>)
    requires
        installer.phase is Installing || installer.phase is Restarting || installer.phase is Failed,
    ensures
        installer.emitted(events) == Seq::<ObserverEventView>::empty(),
        installer.run(events).phase is Installing || installer.run(events).phase is Restarting
            || installer.run(events).phase is Failed,
    decreases events.len(),
{
    if events.len() > 0 {
        lemma_silent_after_download(installer.step(events.first()), events.drop_first());
    }
}

/// An installer that has restarted or given up stays as it is.
pub proof fn lemma_finished_is_final(installer: InstallerView, events: Seq<InstallEventView>)
    requires
        installer.phase is Restarting || installer.phase is Failed,
    ensures
        installer.run(events) == installer,
    decreases events.len(),
{
    if events.len() > 0 {
        lemma_finished_is_final(installer.step(events.first()), events.drop_first());
    }
}

/// Whatever the host reports, the completion of the download is the last thing the
/// observer is told: every event but the last is a progress report.  So no progress
/// report ever comes after the completion, and the completion is announced at most
/// once.
pub proof fn lemma_completion_comes_last(installer: InstallerView, events: Seq<InstallEventView>)
    ensures
        forall|i: int|
            0 <= i < installer.emitted(events).len() - 1 ==> #[trigger] installer.emitted(
                events,
            )[i] is DownloadProgress,
        forall|i: int, j: int|
            #![trigger installer.emitted(events)[i], installer.emitted(events)[j]]
            0 <= i < j < installer.emitted(events).len() && installer.emitted(events)[i]
                is DownloadComplete ==> !(installer.emitted(events)[j] is DownloadProgress),
    decreases events.len(),
{
    if events.len() > 0 {
        let next = installer.step(events.first());
        let rest = next.emitted(events.drop_first());
        let out = installer.emitted(events);
        lemma_completion_comes_last(next, events.drop_first());
        match installer.emission(events.first()) {
            Some(told) => {
                assert(out == seq![told] + rest);
                if told is DownloadComplete {
                    lemma_silent_after_download(next, events.drop_first());
                }
                assert forall|i: int| 0 <= i < out.len() - 1 implies #[trigger] out[i]
                    is DownloadProgress by {
                    if i > 0 {
                        assert(out[i] == rest[i - 1]);
                    }
                }
            },
            None => {
                assert(out == rest);
            },
        }
    }
}

/// Whatever the host reports, every progress report is sound: its percentage lies
/// between 0 and 100 and is the rounded-down share of the bytes in the total, and
/// the bytes do not pass the total.
pub proof fn lemma_reports_are_sound(installer: InstallerView, events: Seq<InstallEventView>)
    requires
        installer.wf(),
    ensures
        forall|i: int|
            0 <= i < installer.emitted(events).len() ==> sound(
                #[trigger] installer.emitted(events)[i],
            ),
    decreases events.len(),
{
    if events.len() > 0 {
        let next = installer.step(events.first());
        let rest = next.emitted(events.drop_first());
        lemma_step_preserves_wf(installer, events.first());
        lemma_reports_are_sound(next, events.drop_first());
        match installer.emission(events.first()) {
            Some(told) => {
                let out = installer.emitted(events);
                assert(out == seq![told] + rest);
                if let InstallPhaseView::Downloading(progress) = next.phase {
                    if let Some(t) = progress.total {
                        lemma_percent_bounded(progress.downloaded, t);
                    }
                }
                assert(sound(told));
                assert forall|i: int| 0 <= i < out.len() implies sound(#[trigger] out[i]) by {
                    if i > 0 {
                        assert(out[i] == rest[i - 1]);
                    }
                }
            },
            None => {},
        }
    }
}

/// In a download whose chunks all announce the same total, the reports carry that
/// total, count upwards from what the installer had counted before, and never go
/// down, neither in bytes nor in percent.  Where no chunk is empty the byte counts
/// go strictly up.
pub proof fn lemma_reports_never_go_down(
    installer: InstallerView,
    events: Seq<InstallEventView>,
    total: nat,
)
    requires
        announces(events, total),
    ensures
        forall|i: int|
            #![trigger installer.emitted(events)[i]]
            0 <= i < installer.emitted(events).len() && installer.emitted(events)[i]
                is DownloadProgress ==> {
                &&& installer.emitted(events)[i]->total == Some(total)
                &&& installer.emitted(events)[i]->progress == Some(
                    percent_of(reported_bytes(installer.emitted(events)[i]), total),
                )
                &&& counted(installer) <= reported_bytes(installer.emitted(events)[i])
                &&& chunks_nonempty(events) ==> counted(installer) < reported_bytes(
                    installer.emitted(events)[i],
                )
            },
        forall|i: int, j: int|
            #![trigger installer.emitted(events)[i], installer.emitted(events)[j]]
            0 <= i < j < installer.emitted(events).len() && installer.emitted(events)[j]
                is DownloadProgress ==> {
                &&& reported_bytes(installer.emitted(events)[i]) <= reported_bytes(
                    installer.emitted(events)[j],
                )
                &&& reported_percent(installer.emitted(events)[i]) <= reported_percent(
                    installer.emitted(events)[j],
                )
                &&& chunks_nonempty(events) ==> reported_bytes(installer.emitted(events)[i])
                    < reported_bytes(installer.emitted(events)[j])
            },
    decreases events.len(),
{
    if events.len() > 0 {
        let first = events.first();
        let later = events.drop_first();
        let next = installer.step(first);
        let rest = next.emitted(later);
        let out = installer.emitted(events);
        assert(announces(later, total)) by {
            assert forall|i: int| 0 <= i < later.len() implies (#[trigger] later[i]
                matches InstallEventView::Chunk { total: announced, .. } ==> announced == Some(
                total,
            )) by {
                assert(later[i] == events[i + 1]);
            }
        }
        if chunks_nonempty(events) {
            assert(chunks_nonempty(later)) by {
                assert forall|i: int| 0 <= i < later.len() implies (#[trigger] later[i]
                    matches InstallEventView::Chunk { len, .. } ==> len > 0) by {
                    assert(later[i] == events[i + 1]);
                }
            }
        }
        assert(events[0] == first);
        lemma_reports_never_go_down(next, later, total);
        lemma_completion_comes_last(installer, events);
        match installer.emission(first) {
            Some(told) => {
                assert(out == seq![told] + rest);
                assert forall|i: int|
                    #![trigger out[i]]
                    0 <= i < out.len() && out[i] is DownloadProgress implies {
                    &&& out[i]->total == Some(total)
                    &&& out[i]->progress == Some(percent_of(reported_bytes(out[i]), total))
                    &&& counted(installer) <= reported_bytes(out[i])
                    &&& chunks_nonempty(events) ==> counted(installer) < reported_bytes(out[i])
                } by {
                    if i > 0 {
                        assert(out[i] == rest[i - 1]);
                    }
                }
                assert forall|i: int, j: int|
                    #![trigger out[i], out[j]]
                    0 <= i < j < out.len() && out[j] is DownloadProgress implies {
                    &&& reported_bytes(out[i]) <= reported_bytes(out[j])
                    &&& reported_percent(out[i]) <= reported_percent(out[j])
                    &&& chunks_nonempty(events) ==> reported_bytes(out[i]) < reported_bytes(
                        out[j],
                    )
                } by {
                    assert(out[j] == rest[j - 1]);
                    if i > 0 {
                        assert(out[i] == rest[i - 1]);
                    } else {
                        assert(out[0] == told);
                        assert(out[0] is DownloadProgress);
                        lemma_percent_monotonic(
                            reported_bytes(out[0]),
                            reported_bytes(out[j]),
                            total,
                        );
                    }
                }
            },
            None => {
                assert(out == rest);
                if next.phase is Installing || next.phase is Restarting || next.phase is Failed {
                    lemma_silent_after_download(next, later);
                } else {
                    assert(counted(installer) <= counted(next));
                }
            },
        }
    }
}

/// In a download whose total is known, the same with every chunk, every percentage
/// the observer is told lies between 0 and 100, and no percentage is lower than one
/// told before it.
pub proof fn lemma_percentage_in_range_and_rising(events: Seq<InstallEventView>, total: nat)
    requires
        announces(events, total),
    ensures
        forall|i: int|
            #![trigger InstallerView::initial().emitted(events)[i]]
            0 <= i < InstallerView::initial().emitted(events).len()
                && InstallerView::initial().emitted(events)[i] is DownloadProgress ==> {
                &&& InstallerView::initial().emitted(events)[i]->progress is Some
                &&& 0 <= reported_percent(InstallerView::initial().emitted(events)[i]) <= 100
            },
        forall|i: int, j: int|
            #![trigger InstallerView::initial().emitted(events)[i], InstallerView::initial().emitted(events)[j]]
            0 <= i < j < InstallerView::initial().emitted(events).len()
                && InstallerView::initial().emitted(events)[j] is DownloadProgress
                ==> reported_percent(InstallerView::initial().emitted(events)[i])
                <= reported_percent(InstallerView::initial().emitted(events)[j]),
{
    let out = InstallerView::initial().emitted(events);
    lemma_reports_are_sound(InstallerView::initial(), events);
    lemma_reports_never_go_down(InstallerView::initial(), events, total);
    assert forall|i: int| 0 <= i < out.len() && out[i] is DownloadProgress implies {
        &&& (#[trigger] out[i])->progress is Some
        &&& 0 <= reported_percent(out[i]) <= 100
    } by {
        assert(sound(out[i]));
    }
}

/// The feed is queried once: whatever it answers, the installer leaves the phase in
/// which it asks, and nothing brings it back there.
pub proof fn lemma_feed_is_queried_once(answer: InstallEventView, later: Seq<InstallEventView>)
    requires
        answer is UpToDate || answer is UpdateFound || answer is Failed,
    ensures
        !(InstallerView::initial().run(
            seq![InstallEventView::ClientReady, answer] + later,
        ).phase is Checking),
        !(InstallerView::initial().run(
            seq![InstallEventView::ClientReady, answer] + later,
        ).phase is Idle),
{
    let start = InstallerView::initial();
    let ready = InstallEventView::ClientReady;
    let checking = start.step(ready);
    let answered = checking.step(answer);
    assert(seq![ready, answer] =~= seq![ready] + seq![answer]);
    lemma_run_one(start, ready);
    lemma_run_one(checking, answer);
    lemma_run_concat(start, seq![ready], seq![answer]);
    lemma_run_concat(start, seq![ready, answer], later);
    lemma_never_asks_again(answered, later);
}

/// An installer that has got past the feed's answer never asks the feed again.
pub proof fn lemma_never_asks_again(installer: InstallerView, events: Seq<InstallEventView>)
    requires
        !(installer.phase is Idle),
        !(installer.phase is Checking),
    ensures
        !(installer.run(events).phase is Idle),
        !(installer.run(events).phase is Checking),
    decreases events.len(),
{
    if events.len() > 0 {
        lemma_never_asks_again(installer.step(events.first()), events.drop_first());
    }
}

/// The process is only ever replaced after a download that ran to its end: whenever an
/// installer that had not finished downloading ends up restarting, the observer has
/// been told of the completion, and that was the last thing it was told.
pub proof fn lemma_restart_follows_completion(
    installer: InstallerView,
    events: Seq<InstallEventView>,
)
    requires
        installer.phase is Idle || installer.phase is Checking || installer.phase is Downloading,
        installer.run(events).phase is Restarting,
    ensures
        installer.emitted(events).len() > 0,
        installer.emitted(events).last() is DownloadComplete,
    decreases events.len(),
{
    if events.len() > 0 {
        let next = installer.step(events.first());
        let later = events.drop_first();
        let rest = next.emitted(later);
        let out = installer.emitted(events);
        if next.phase is Installing {
            lemma_silent_after_download(next, later);
            assert(out =~= seq![ObserverEventView::DownloadComplete]);
        } else if next.phase is Failed {
            lemma_finished_is_final(next, later);
        } else {
            lemma_restart_follows_completion(next, later);
            match installer.emission(events.first()) {
                Some(told) => {
                    assert(out == seq![told] + rest);
                    assert(out.last() == rest.last());
                },
                None => {},
            }
        }
    }
}

/// The bytes of the first `count` chunks of a stream whose chunks have the lengths
/// `lens`.
pub open spec fn bytes_after(lens: Seq<nat>, count: nat) -> nat
    decreases count,
{
    if count == 0 || count > lens.len() {
        0
    } else {
        bytes_after(lens, (count - 1) as nat) + lens[count - 1]
    }
}

/// The events of a stream that delivers chunks of the lengths `lens`, each of them
/// announcing `total`.
pub open spec fn stream(lens: Seq<nat>, total: Option<nat>) -> Seq<InstallEventView> {
    Seq::new(lens.len(), |i: int| InstallEventView::Chunk { len: lens[i], total })
}

/// The reports that such a stream causes when `before` bytes had been counted: one for
/// each chunk, with the bytes received up to and including it.
pub open spec fn reports(before: nat, lens: Seq<nat>, total: Option<nat>) -> Seq<
    ObserverEventView,
> {
    Seq::new(
        lens.len(),
        |i: int|
            ObserverEventView::report(
                ProgressView { downloaded: before + bytes_after(lens, (i + 1) as nat), total },
            ),
    )
}

/// The events of a whole installation that goes well: the client is obtained, the
/// feed offers `release`, the stream delivers chunks of the lengths `lens`, each
/// announcing `total`, and ends, and the platform applies the artifact.
pub open spec fn session(release: ReleaseView, lens: Seq<nat>, total: Option<nat>) -> Seq<
    InstallEventView,
> {
    seq![InstallEventView::ClientReady, InstallEventView::UpdateFound(release)] + stream(
        lens,
        total,
    ) + seq![InstallEventView::StreamEnded, InstallEventView::Installed]
}

/// The bytes of the first chunks of a stream do not depend on the chunks after them.
pub proof fn lemma_bytes_after_prefix(lens: Seq<nat>, count: nat)
    requires
        0 < lens.len(),
        count < lens.len(),
    ensures
        bytes_after(lens.drop_last(), count) == bytes_after(lens, count),
    decreases count,
{
    if count > 0 {
        lemma_bytes_after_prefix(lens, (count - 1) as nat);
    }
}

/// An installer that has counted `before` bytes takes in a stream whose bytes, added
/// to these, fit the counter and the total announced: it reports after every chunk
/// and has counted all of them at the end.
pub proof fn lemma_stream_is_counted(before: ProgressView, lens: Seq<nat>, total: Option<nat>)
    requires
        before.downloaded + bytes_after(lens, lens.len()) <= u64::MAX,
        total matches Some(t) ==> before.downloaded + bytes_after(lens, lens.len()) <= t,
    ensures
        (InstallerView { phase: InstallPhaseView::Downloading(before) }).run(stream(lens, total))
            == (InstallerView {
            phase: InstallPhaseView::Downloading(
                if lens.len() == 0 {
                    before
                } else {
                    ProgressView {
                        downloaded: before.downloaded + bytes_after(lens, lens.len()),
                        total,
                    }
                },
            ),
        }),
        (InstallerView { phase: InstallPhaseView::Downloading(before) }).emitted(
            stream(lens, total),
        ) == reports(before.downloaded, lens, total),
    decreases lens.len(),
{
    let start = InstallerView { phase: InstallPhaseView::Downloading(before) };
    if lens.len() == 0 {
        assert(start.emitted(stream(lens, total)) =~= reports(before.downloaded, lens, total));
    } else {
        let front = lens.drop_last();
        let last = InstallEventView::Chunk { len: lens.last(), total };
        assert(stream(lens, total) =~= stream(front, total) + seq![last]);
        if front.len() > 0 {
            lemma_bytes_after_prefix(lens, front.len());
        }
        let so_far = before.downloaded + bytes_after(front, front.len());
        assert(bytes_after(front, front.len()) == bytes_after(lens, front.len()));
        assert(bytes_after(lens, lens.len()) == bytes_after(lens, (lens.len() - 1) as nat)
            + lens[lens.len() - 1]);
        assert(so_far + lens.last() == before.downloaded + bytes_after(lens, lens.len()));
        lemma_stream_is_counted(before, front, total);
        let middle = start.run(stream(front, total));
        lemma_run_concat(start, stream(front, total), seq![last]);
        lemma_run_one(middle, last);
        let whole = reports(before.downloaded, lens, total);
        let joined = reports(before.downloaded, front, total) + seq![
            ObserverEventView::report(
                ProgressView {
                    downloaded: before.downloaded + bytes_after(lens, lens.len()),
                    total,
                },
            ),
        ];
        assert forall|i: int| 0 <= i < whole.len() implies #[trigger] whole[i] == joined[i] by {
            if i < front.len() {
                lemma_bytes_after_prefix(lens, (i + 1) as nat);
            }
        }
        assert(whole =~= joined);
    }
}

/// An installation that goes well reports the bytes and the percentage after every
/// chunk, then the completion, and ends in the restart, provided the chunks together
/// fit the counter and do not pass the total they announce.
pub proof fn lemma_session_ends_in_restart(
    release: ReleaseView,
    lens: Seq<nat>,
    total: Option<nat>,
)
    requires
        bytes_after(lens, lens.len()) <= u64::MAX,
        total matches Some(t) ==> bytes_after(lens, lens.len()) <= t,
    ensures
        InstallerView::initial().run(session(release, lens, total)).phase
            == InstallPhaseView::Restarting,
        InstallerView::initial().emitted(session(release, lens, total)) == reports(
            0,
            lens,
            total,
        ) + seq![ObserverEventView::DownloadComplete],
{
    let start = InstallerView::initial();
    let ready = InstallEventView::ClientReady;
    let found = InstallEventView::UpdateFound(release);
    let ended = InstallEventView::StreamEnded;
    let applied = InstallEventView::Installed;
    let checking = start.step(ready);
    let downloading = checking.step(found);
    let received = downloading.run(stream(lens, total));
    let installing = received.step(ended);

    assert(seq![ready, found] =~= seq![ready] + seq![found]);
    lemma_run_one(start, ready);
    lemma_run_one(checking, found);
    lemma_run_concat(start, seq![ready], seq![found]);

    lemma_stream_is_counted(ProgressView::start(), lens, total);
    lemma_run_concat(start, seq![ready, found], stream(lens, total));

    assert(seq![ended, applied] =~= seq![ended] + seq![applied]);
    lemma_run_one(received, ended);
    lemma_run_one(installing, applied);
    lemma_run_concat(received, seq![ended], seq![applied]);
    lemma_run_concat(start, seq![ready, found] + stream(lens, total), seq![ended, applied]);

    assert(start.emitted(session(release, lens, total)) =~= reports(0, lens, total)
        + seq![ObserverEventView::DownloadComplete]);
}

/// When the feed offers nothing, the installation ends with the error that says so,
/// whatever is reported afterwards, and the observer is never told anything.
pub proof fn lemma_nothing_to_install(later: Seq<InstallEventView>)
    ensures
        InstallerView::initial().run(
            seq![InstallEventView::ClientReady, InstallEventView::UpToDate] + later,
        ).phase == InstallPhaseView::Failed(UpdateErrorView::NoUpdate),
        InstallerView::initial().emitted(
            seq![InstallEventView::ClientReady, InstallEventView::UpToDate] + later,
        ) == Seq::<ObserverEventView>::empty(),
{
    let start = InstallerView::initial();
    let ready = InstallEventView::ClientReady;
    let nothing = InstallEventView::UpToDate;
    let checking = start.step(ready);
    let failed = checking.step(nothing);
    assert(seq![ready, nothing] =~= seq![ready] + seq![nothing]);
    lemma_run_one(start, ready);
    lemma_run_one(checking, nothing);
    lemma_run_concat(start, seq![ready], seq![nothing]);
    lemma_run_concat(start, seq![ready, nothing], later);
    lemma_silent_after_download(failed, later);
    lemma_finished_is_final(failed, later);
    assert(start.emitted(seq![ready, nothing] + later) =~= Seq::<ObserverEventView>::empty());
}

} // verus!
