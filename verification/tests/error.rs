use updater_core::error::UpdateError;

#[test]
fn initialization_error_message() {
    let error = UpdateError::Initialization("PluginNotInitialized".to_string());
    assert_eq!(error.message(), "更新器初始化失败: PluginNotInitialized");
}

#[test]
fn transient_feed_error_message() {
    let error = UpdateError::TransientFeed("Network(timeout)".to_string());
    assert_eq!(error.message(), "检查更新失败: Network(timeout)");
}

#[test]
fn no_update_error_message() {
    assert_eq!(UpdateError::NoUpdate.message(), "没有可用的更新");
}

#[test]
fn download_error_message() {
    let error = UpdateError::Download("connection reset".to_string());
    assert_eq!(error.message(), "下载或安装更新失败: connection reset");
}

#[test]
fn install_error_message() {
    let error = UpdateError::Install("signature mismatch".to_string());
    assert_eq!(error.message(), "下载或安装更新失败: signature mismatch");
}

#[test]
fn message_with_empty_detail_is_the_headline() {
    assert_eq!(UpdateError::TransientFeed(String::new()).message(), "检查更新失败: ");
}

#[test]
fn errors_compare_by_kind_and_detail() {
    assert_eq!(UpdateError::Download("a".to_string()), UpdateError::Download("a".to_string()));
    assert_ne!(UpdateError::Download("a".to_string()), UpdateError::Install("a".to_string()));
    assert_ne!(UpdateError::Download("a".to_string()), UpdateError::Download("b".to_string()));
}
