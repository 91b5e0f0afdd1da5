//! What the feed announces, the descriptor the checker builds from it, and the record
//! handed to the user interface.

use vstd::prelude::*;

verus! {

/// Lifts an optional string to its optional character sequence.
pub open spec fn opt_text(value: Option<String>) -> Option<Seq<char>> {
    match value {
        Some(text) => Some(text@),
        None => None,
    }
}

/// What the feed reports about the version it offers.  Versions are opaque text: the
/// feed alone decides what counts as newer.
#[derive(Debug, PartialEq, Eq)]
pub struct Release {
    pub version: String,
    pub notes: Option<String>,
    pub published_at: Option<String>,
    pub download_url: String,
}

/// The mathematical content of a [`Release`].
pub struct ReleaseView {
    pub version: Seq<char>,
    pub notes: Option<Seq<char>>,
    pub published_at: Option<Seq<char>>,
    pub download_url: Seq<char>,
}

impl View for Release {
    type V = ReleaseView;

    open spec fn view(&self) -> ReleaseView {
        ReleaseView {
            version: self.version@,
            notes: opt_text(self.notes),
            published_at: opt_text(self.published_at),
            download_url: self.download_url@,
        }
    }
}

/// The record shown to the user when an update is available.
#[derive(Debug, PartialEq, Eq)]
pub struct UpdateInfo {
    pub available: bool,
    pub version: String,
    pub date: String,
    pub notes: String,
    pub download_url: String,
}

/// The mathematical content of an [`UpdateInfo`].
pub struct UpdateInfoView {
    pub available: bool,
    pub version: Seq<char>,
    pub date: Seq<char>,
    pub notes: Seq<char>,
    pub download_url: Seq<char>,
}

impl View for UpdateInfo {
    type V = UpdateInfoView;

    open spec fn view(&self) -> UpdateInfoView {
        UpdateInfoView {
            available: self.available,
            version: self.version@,
            date: self.date@,
            notes: self.notes@,
            download_url: self.download_url@,
        }
    }
}

/// The running version side by side with the version the feed offers.
///
/// A descriptor cannot be copied and offers no way to change it: whoever holds it
/// holds the one result of one feed query.
#[derive(Debug, PartialEq, Eq)]
pub struct VersionDescriptor {
    current: String,
    candidate: String,
    release_notes: Option<String>,
    published_at: Option<String>,
    download_location: String,
}

/// The mathematical content of a [`VersionDescriptor`].
pub struct VersionDescriptorView {
    pub current: Seq<char>,
    pub candidate: Seq<char>,
    pub release_notes: Option<Seq<char>>,
    pub published_at: Option<Seq<char>>,
    pub download_location: Seq<char>,
}

impl View for VersionDescriptor {
    type V = VersionDescriptorView;

    closed spec fn view(&self) -> VersionDescriptorView {
        VersionDescriptorView {
            current: self.current@,
            candidate: self.candidate@,
            release_notes: opt_text(self.release_notes),
            published_at: opt_text(self.published_at),
            download_location: self.download_location@,
        }
    }
}

impl VersionDescriptorView {
    /// The descriptor for `release` as seen from the running version `current`.
    pub open spec fn describe(current: Seq<char>, release: ReleaseView) -> VersionDescriptorView {
        VersionDescriptorView {
            current,
            candidate: release.version,
            release_notes: release.notes,
            published_at: release.published_at,
            download_location: release.download_url,
        }
    }

    /// The record shown to the user.  A missing date reads "未知", missing notes read
    /// "无更新说明".
    pub open spec fn info(self) -> UpdateInfoView {
        UpdateInfoView {
            available: true,
            version: self.candidate,
            date: match self.published_at {
                Some(date) => date,
                None => "未知"@,
            },
            notes: match self.release_notes {
                Some(notes) => notes,
                None => "无更新说明"@,
            },
            download_url: self.download_location,
        }
    }
}

impl VersionDescriptor {
    /// Builds the descriptor for `release` as seen from the running version `current`.
    pub fn describe(current: String, release: Release) -> (descriptor: VersionDescriptor)
        ensures
            descriptor@ == VersionDescriptorView::describe(current@, release@),
    {
        VersionDescriptor {
            current,
            candidate: release.version,
            release_notes: release.notes,
            published_at: release.published_at,
            download_location: release.download_url,
        }
    }

    /// The version that is running.
    pub fn current(&self) -> (version: &str)
        ensures
            version@ == self@.current,
    {
        self.current.as_str()
    }

    /// The version the feed offers.
    pub fn candidate(&self) -> (version: &str)
        ensures
            version@ == self@.candidate,
    {
        self.candidate.as_str()
    }

    /// The release notes, if the feed sent any.
    pub fn release_notes(&self) -> (notes: Option<&str>)
        ensures
            match notes {
                Some(text) => self@.release_notes == Some(text@),
                None => self@.release_notes is None,
            },
    {
        match &self.release_notes {
            Some(text) => Some(text.as_str()),
            None => None,
        }
    }

    /// When the offered version was published, if the feed said so.
    pub fn published_at(&self) -> (date: Option<&str>)
        ensures
            match date {
                Some(text) => self@.published_at == Some(text@),
                None => self@.published_at is None,
            },
    {
        match &self.published_at {
            Some(text) => Some(text.as_str()),
            None => None,
        }
    }

    /// Where the artifact can be fetched.
    pub fn download_location(&self) -> (location: &str)
        ensures
            location@ == self@.download_location,
    {
        self.download_location.as_str()
    }

    /// Turns the descriptor into the record shown to the user, consuming it.
    pub fn into_info(self) -> (info: UpdateInfo)
        ensures
            info@ == self@.info(),
    {
        let date = match self.published_at {
            Some(date) => date,
            None => String::from_str("未知"),
        };
        let notes = match self.release_notes {
            Some(notes) => notes,
            None => String::from_str("无更新说明"),
        };
        UpdateInfo {
            available: true,
            version: self.candidate,
            date,
            notes,
            download_url: self.download_location,
        }
    }
}

} // verus!
