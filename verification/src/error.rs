//! What can go wrong during a check or an installation, and the message shown for it.

use vstd::prelude::*;

verus! {

/// The failures an update can end in.  Each carries the detail reported by the
/// collaborator that failed, if there was one.
#[derive(Debug, PartialEq, Eq)]
pub enum UpdateError {
    /// The updater client could not be obtained.  Never retried.
    Initialization(String),
    /// The feed could not be queried.
    TransientFeed(String),
    /// An installation was requested while the feed offers nothing newer.
    NoUpdate,
    /// The artifact stream broke off.
    Download(String),
    /// The platform refused to apply the downloaded artifact.
    Install(String),
}

/// The mathematical content of an [`UpdateError`].
pub enum UpdateErrorView {
    Initialization(Seq<char>),
    TransientFeed(Seq<char>),
    NoUpdate,
    Download(Seq<char>),
    Install(Seq<char>),
}

impl View for UpdateError {
    type V = UpdateErrorView;

    open spec fn view(&self) -> UpdateErrorView {
        match self {
            UpdateError::Initialization(detail) => UpdateErrorView::Initialization(detail@),
            UpdateError::TransientFeed(detail) => UpdateErrorView::TransientFeed(detail@),
            UpdateError::NoUpdate => UpdateErrorView::NoUpdate,
            UpdateError::Download(detail) => UpdateErrorView::Download(detail@),
            UpdateError::Install(detail) => UpdateErrorView::Install(detail@),
        }
    }
}

impl UpdateErrorView {
    /// The text shown to the user: a fixed headline for the kind of failure, followed
    /// by the detail.
    pub open spec fn message(self) -> Seq<char> {
        match self {
            UpdateErrorView::Initialization(detail) => "更新器初始化失败: "@ + detail,
            UpdateErrorView::TransientFeed(detail) => "检查更新失败: "@ + detail,
            UpdateErrorView::NoUpdate => "没有可用的更新"@,
            UpdateErrorView::Download(detail) => "下载或安装更新失败: "@ + detail,
            UpdateErrorView::Install(detail) => "下载或安装更新失败: "@ + detail,
        }
    }
}

impl UpdateError {
    /// The text shown to the user for this failure.
    pub fn message(&self) -> (text: String)
        ensures
            text@ == self@.message(),
    {
        match self {
            UpdateError::Initialization(detail) => String::from_str("更新器初始化失败: ").concat(
                detail.as_str(),
            ),
            UpdateError::TransientFeed(detail) => String::from_str("检查更新失败: ").concat(
                detail.as_str(),
            ),
            UpdateError::NoUpdate => String::from_str("没有可用的更新"),
            UpdateError::Download(detail) => String::from_str("下载或安装更新失败: ").concat(
                detail.as_str(),
            ),
            UpdateError::Install(detail) => String::from_str("下载或安装更新失败: ").concat(
                detail.as_str(),
            ),
        }
    }
}

} // verus!
