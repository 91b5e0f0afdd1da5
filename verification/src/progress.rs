//! The byte counter of one download and the percentage derived from it.

use vstd::prelude::*;

verus! {

/// How much of `total` the first `downloaded` bytes cover, in percent, rounded down.
/// A total of zero is reported as zero percent.
pub open spec fn percent_of(downloaded: nat, total: nat) -> nat {
    if total == 0 {
        0
    } else {
        downloaded * 100 / total
    }
}

/// Lifts an optional machine integer to an optional natural number.
pub open spec fn opt_nat(value: Option<u64>) -> Option<nat> {
    match value {
        Some(v) => Some(v as nat),
        None => None,
    }
}

/// The mathematical content of a [`DownloadProgress`].
pub struct ProgressView {
    pub downloaded: nat,
    pub total: Option<nat>,
}

impl ProgressView {
    /// The counter never passes the total, when the total is known.
    pub open spec fn wf(self) -> bool {
        self.total matches Some(t) ==> self.downloaded <= t
    }

    /// Nothing received yet, size unknown.
    pub open spec fn start() -> ProgressView {
        ProgressView { downloaded: 0, total: None }
    }

    /// Whether a chunk of `len` bytes, announced together with `total`, can be counted:
    /// the sum fits the counter and stays within the announced total.
    pub open spec fn accepts(self, len: nat, total: Option<nat>) -> bool {
        &&& self.downloaded + len <= u64::MAX
        &&& total matches Some(t) ==> self.downloaded + len <= t
    }

    /// The progress after a chunk of `len` bytes announced together with `total`.
    pub open spec fn record(self, len: nat, total: Option<nat>) -> ProgressView {
        ProgressView { downloaded: self.downloaded + len, total }
    }

    /// The percentage to report, present exactly when the total is known.
    pub open spec fn percent(self) -> Option<nat> {
        match self.total {
            Some(t) => Some(percent_of(self.downloaded, t)),
            None => None,
        }
    }
}

/// A percentage computed within the total never exceeds one hundred.
pub proof fn lemma_percent_bounded(downloaded: nat, total: nat)
    requires
        downloaded <= total,
    ensures
        percent_of(downloaded, total) <= 100,
{
    if total > 0 {
        assert(downloaded * 100 / total <= 100) by (nonlinear_arith)
            requires
                downloaded <= total,
                total > 0,
        ;
    }
}

/// With the total fixed, more bytes never lower the percentage.
pub proof fn lemma_percent_monotonic(earlier: nat, later: nat, total: nat)
    requires
        earlier <= later,
    ensures
        percent_of(earlier, total) <= percent_of(later, total),
{
    if total > 0 {
        assert(earlier * 100 / total <= later * 100 / total) by (nonlinear_arith)
            requires
                earlier <= later,
                total > 0,
        ;
    }
}

/// The running byte counter of one download, with the total size when the transport
/// announced one.
#[derive(Clone, Copy, Debug, PartialEq, Eq)]
pub struct DownloadProgress {
    downloaded: u64,
    total: Option<u64>,
}

impl View for DownloadProgress {
    type V = ProgressView;

    closed spec fn view(&self) -> ProgressView {
        ProgressView { downloaded: self.downloaded as nat, total: opt_nat(self.total) }
    }
}

impl DownloadProgress {
    #[verifier::type_invariant]
    spec fn inv(self) -> bool {
        self@.wf()
    }

    /// The progress of a download that has not delivered anything yet.
    pub fn new() -> (progress: DownloadProgress)
        ensures
            progress@ == ProgressView::start(),
    {
        DownloadProgress { downloaded: 0, total: None }
    }

    /// Bytes received so far.
    pub fn downloaded(&self) -> (bytes: u64)
        ensures
            bytes == self@.downloaded,
    {
        self.downloaded
    }

    /// The announced size of the artifact, if any.  The counter has not passed it.
    pub fn total(&self) -> (bytes: Option<u64>)
        ensures
            opt_nat(bytes) == self@.total,
            self@.wf(),
    {
        proof {
            use_type_invariant(self);
        }
        self.total
    }

    /// The percentage to report: present exactly when the total is known, rounded
    /// down, and never above one hundred.
    pub fn percent(&self) -> (value: Option<u64>)
        ensures
            opt_nat(value) == self@.percent(),
            value matches Some(p) ==> p <= 100,
    {
        proof {
            use_type_invariant(self);
        }
        match self.total {
            Some(total) => {
                if total == 0 {
                    Some(0)
                } else {
                    proof {
                        lemma_percent_bounded(self.downloaded as nat, total as nat);
                    }
                    let scaled: u128 = self.downloaded as u128 * 100;
                    let value: u128 = scaled / (total as u128);
                    Some(value as u64)
                }
            },
            None => None,
        }
    }

    /// Counts a chunk of `len` bytes that arrived together with the announcement
    /// `total`.  Returns `None`, and counts nothing, exactly when the chunk cannot be
    /// counted: the sum would not fit the counter, or it would pass the total.
    pub fn record(&self, len: u64, total: Option<u64>) -> (next: Option<DownloadProgress>)
        ensures
            match next {
                Some(progress) => self@.accepts(len as nat, opt_nat(total)) && progress@
                    == self@.record(len as nat, opt_nat(total)),
                None => !self@.accepts(len as nat, opt_nat(total)),
            },
    {
        match self.downloaded.checked_add(len) {
            Some(sum) => {
                let within = match total {
                    Some(t) => sum <= t,
                    None => true,
                };
                if within {
                    Some(DownloadProgress { downloaded: sum, total })
                } else {
                    None
                }
            },
            None => None,
        }
    }
}

} // verus!
