//! The JSON objects in which the user interface receives what the core tells it.
//!
//! The objects are `serde_json` maps.  Verification does not look inside that crate:
//! what an object holds is known here only through [`object_fields`], and the two
//! functions that create and fill an object are believed to do to the fields what
//! their contracts say.

use crate::installer::{ObserverEvent, ObserverEventView};
use crate::progress::ProgressView;
use crate::release::{UpdateInfo, UpdateInfoView};
use vstd::prelude::*;

verus! {

/// `serde_json::Value`, a JSON value.  Nothing is known of what one holds.
#[verifier::external_type_specification]
#[verifier::external_body]
pub struct ExValue(serde_json::Value);

/// `serde_json::Map`, the members of a JSON object.  What one holds is named by
/// [`object_fields`].
#[verifier::external_type_specification]
#[verifier::external_body]
#[verifier::reject_recursive_types(K)]
#[verifier::reject_recursive_types(V)]
pub struct ExMap<K, V>(serde_json::Map<K, V>);

/// A member of the objects built here: a truth value, a number, or text.
#[derive(Debug, PartialEq, Eq)]
pub enum Field {
    Flag(bool),
    Number(u64),
    Text(String),
}

/// The mathematical content of a [`Field`].
pub enum FieldView {
    Flag(bool),
    Number(nat),
    Text(Seq<char>),
}

impl View for Field {
    type V = FieldView;

    open spec fn view(&self) -> FieldView {
        match self {
            Field::Flag(flag) => FieldView::Flag(*flag),
            Field::Number(number) => FieldView::Number(*number as nat),
            Field::Text(text) => FieldView::Text(text@),
        }
    }
}

/// The members of a JSON object: which names it has, and what stands under each.
pub uninterp spec fn object_fields(object: serde_json::Map<String, serde_json::Value>) -> Map<
    Seq<char>,
    FieldView,
>;

/// The members of an object that has none.
pub open spec fn no_fields() -> Map<Seq<char>, FieldView> {
    Map::empty()
}

/// `serde_json::Map::new`: believed to return an object without members.
#[verifier::external_body]
fn new_object() -> (created: serde_json::Map<String, serde_json::Value>)
    ensures
        object_fields(created) == no_fields(),
{
    serde_json::Map::new()
}

/// `serde_json::Map::insert`: believed to put `field` under the name `key`, as a JSON
/// boolean, number or string, in place of whatever stood under that name, and to leave
/// every other member as it was.
#[verifier::external_body]
fn insert_field(
    object: &mut serde_json::Map<String, serde_json::Value>,
    key: String,
    field: Field,
)
    ensures
        object_fields(*final(object)) == object_fields(*old(object)).insert(key@, field@),
{
    let value = match field {
        Field::Flag(flag) => serde_json::Value::Bool(flag),
        Field::Number(number) => serde_json::Value::Number(number.into()),
        Field::Text(text) => serde_json::Value::String(text),
    };
    object.insert(key, value);
}

impl UpdateInfoView {
    /// The members of the object that carries this record.
    pub open spec fn fields(self) -> Map<Seq<char>, FieldView> {
        map![
            "available"@ => FieldView::Flag(self.available),
            "version"@ => FieldView::Text(self.version),
            "date"@ => FieldView::Text(self.date),
            "notes"@ => FieldView::Text(self.notes),
            "downloadUrl"@ => FieldView::Text(self.download_url),
        ]
    }
}

impl UpdateInfo {
    /// The object that carries this record to the user interface.
    pub fn into_json(self) -> (object: serde_json::Map<String, serde_json::Value>)
        ensures
            object_fields(object) == self@.fields(),
    {
        let mut object = new_object();
        insert_field(&mut object, String::from_str("available"), Field::Flag(self.available));
        insert_field(&mut object, String::from_str("version"), Field::Text(self.version));
        insert_field(&mut object, String::from_str("date"), Field::Text(self.date));
        insert_field(&mut object, String::from_str("notes"), Field::Text(self.notes));
        insert_field(&mut object, String::from_str("downloadUrl"), Field::Text(self.download_url));
        object
    }
}

impl ObserverEventView {
    /// The members of the object sent along with this event, if one is sent: the
    /// bytes received, always; the percentage and the total, where they are known.
    /// The completion is sent without anything.
    pub open spec fn payload(self) -> Option<Map<Seq<char>, FieldView>> {
        match self {
            ObserverEventView::DownloadProgress { progress, downloaded, total } => {
                let with_progress = match progress {
                    Some(percent) => no_fields().insert("progress"@, FieldView::Number(percent)),
                    None => no_fields(),
                };
                let with_downloaded = with_progress.insert(
                    "downloaded"@,
                    FieldView::Number(downloaded),
                );
                Some(
                    match total {
                        Some(bytes) => with_downloaded.insert("total"@, FieldView::Number(bytes)),
                        None => with_downloaded,
                    },
                )
            },
            ObserverEventView::DownloadComplete => None,
        }
    }
}

/// The object sent with a progress report always tells the bytes received; it tells
/// the percentage and the total exactly when the total is known.
pub proof fn lemma_percentage_needs_total(progress: ProgressView)
    ensures
        ObserverEventView::report(progress).payload() is Some,
        ObserverEventView::report(progress).payload()->0.contains_key("downloaded"@),
        ObserverEventView::report(progress).payload()->0["downloaded"@] == FieldView::Number(
            progress.downloaded,
        ),
        ObserverEventView::report(progress).payload()->0.contains_key("progress"@)
            <==> progress.total is Some,
        ObserverEventView::report(progress).payload()->0.contains_key("total"@)
            <==> progress.total is Some,
{
    reveal_strlit("progress");
    reveal_strlit("downloaded");
    reveal_strlit("total");
    assert("progress"@.len() != "downloaded"@.len());
    assert("total"@.len() != "downloaded"@.len());
    assert("total"@.len() != "progress"@.len());
}

impl ObserverEvent {
    /// The object sent along with this event, if one is sent.
    pub fn payload(&self) -> (object: Option<serde_json::Map<String, serde_json::Value>>)
        ensures
            match object {
                Some(sent) => self@.payload() == Some(object_fields(sent)),
                None => self@.payload() is None,
            },
    {
        match self {
            ObserverEvent::DownloadProgress { progress, downloaded, total } => {
                let mut object = new_object();
                if let Some(percent) = progress {
                    insert_field(&mut object, String::from_str("progress"), Field::Number(*percent));
                }
                insert_field(&mut object, String::from_str("downloaded"), Field::Number(*downloaded));
                if let Some(bytes) = total {
                    insert_field(&mut object, String::from_str("total"), Field::Number(*bytes));
                }
                Some(object)
            },
            ObserverEvent::DownloadComplete => None,
        }
    }
}

} // verus!
