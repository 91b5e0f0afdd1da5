use serde_json::Value;
use updater_core::installer::{InstallEvent, Installer, ObserverEvent};
use updater_core::release::{Release, UpdateInfo, VersionDescriptor};

fn text(value: &str) -> Value {
    Value::String(value.to_string())
}

#[test]
fn the_record_of_an_update_becomes_an_object_of_five_members() {
    let info = UpdateInfo {
        available: true,
        version: "2.0.0".to_string(),
        date: "2024-05-01".to_string(),
        notes: "Bug fixes".to_string(),
        download_url: "https://example.com/app.tar.gz".to_string(),
    };
    let object = info.into_json();
    assert_eq!(object.len(), 5);
    assert_eq!(object.get("available"), Some(&Value::Bool(true)));
    assert_eq!(object.get("version"), Some(&text("2.0.0")));
    assert_eq!(object.get("date"), Some(&text("2024-05-01")));
    assert_eq!(object.get("notes"), Some(&text("Bug fixes")));
    assert_eq!(object.get("downloadUrl"), Some(&text("https://example.com/app.tar.gz")));
}

#[test]
fn the_object_of_a_bare_release_holds_the_fill_ins() {
    let bare = Release {
        version: "2.0.0".to_string(),
        notes: None,
        published_at: None,
        download_url: "https://example.com/app.tar.gz".to_string(),
    };
    let object = VersionDescriptor::describe("1.0.0".to_string(), bare).into_info().into_json();
    assert_eq!(object.len(), 5);
    assert_eq!(object.get("available"), Some(&Value::Bool(true)));
    assert_eq!(object.get("version"), Some(&text("2.0.0")));
    assert_eq!(object.get("date"), Some(&text("未知")));
    assert_eq!(object.get("notes"), Some(&text("无更新说明")));
    assert_eq!(object.get("downloadUrl"), Some(&text("https://example.com/app.tar.gz")));
}

#[test]
fn a_progress_report_with_known_total_has_three_members() {
    let event = ObserverEvent::DownloadProgress {
        progress: Some(50),
        downloaded: 500,
        total: Some(1000),
    };
    let object = event.payload().unwrap();
    assert_eq!(object.len(), 3);
    assert_eq!(object.get("progress"), Some(&Value::from(50u64)));
    assert_eq!(object.get("downloaded"), Some(&Value::from(500u64)));
    assert_eq!(object.get("total"), Some(&Value::from(1000u64)));
}

#[test]
fn a_progress_report_without_total_tells_the_bytes_only() {
    let event = ObserverEvent::DownloadProgress { progress: None, downloaded: 4096, total: None };
    let object = event.payload().unwrap();
    assert_eq!(object.len(), 1);
    assert_eq!(object.get("downloaded"), Some(&Value::from(4096u64)));
    assert_eq!(object.get("progress"), None);
    assert_eq!(object.get("total"), None);
}

#[test]
fn large_numbers_are_kept_exactly() {
    let event = ObserverEvent::DownloadProgress {
        progress: Some(100),
        downloaded: u64::MAX,
        total: Some(u64::MAX),
    };
    let object = event.payload().unwrap();
    assert_eq!(object.get("downloaded").and_then(Value::as_u64), Some(u64::MAX));
    assert_eq!(object.get("total").and_then(Value::as_u64), Some(u64::MAX));
}

#[test]
fn the_completion_is_sent_without_an_object() {
    assert_eq!(ObserverEvent::DownloadComplete.payload(), None);
}

#[test]
fn what_the_installer_emits_is_ready_to_send() {
    let mut installer = Installer::new();
    installer.step(InstallEvent::ClientReady);
    installer.step(InstallEvent::UpdateFound(Release {
        version: "2.0.0".to_string(),
        notes: None,
        published_at: None,
        download_url: String::new(),
    }));
    let event = installer.step(InstallEvent::Chunk { len: 250, total: Some(1000) }).unwrap();
    assert_eq!(event.name(), "download-progress");
    let object = event.payload().unwrap();
    assert_eq!(object.len(), 3);
    assert_eq!(object.get("progress"), Some(&Value::from(25u64)));
    assert_eq!(object.get("downloaded"), Some(&Value::from(250u64)));
    assert_eq!(object.get("total"), Some(&Value::from(1000u64)));
    assert!(Value::Object(object).to_string().contains("\"progress\":25"));
    let event = installer.step(InstallEvent::StreamEnded).unwrap();
    assert_eq!(event.name(), "download-complete");
    assert_eq!(event.payload(), None);
}
