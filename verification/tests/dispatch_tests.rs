use snapclip::dispatch::{daemon_marker, plan, Plan};

#[test]
fn help_prints_usage_on_both_platforms() {
    assert_eq!(plan(&Some("help".to_string()), false), Plan::PrintUsage);
    assert_eq!(plan(&Some("help".to_string()), true), Plan::PrintUsage);
}

#[test]
fn save_reads_clipboard_on_both_platforms() {
    assert_eq!(plan(&Some("save".to_string()), false), Plan::SaveFromClipboard);
    assert_eq!(plan(&Some("save".to_string()), true), Plan::SaveFromClipboard);
}

#[test]
fn no_argument_is_synchronous_without_offer_until_read() {
    assert_eq!(plan(&None, false), Plan::CaptureAndPublish);
}

#[test]
fn no_argument_detaches_with_offer_until_read() {
    assert_eq!(plan(&None, true), Plan::SpawnDetached);
}

#[test]
fn marker_is_honored_only_with_offer_until_read() {
    let marker = daemon_marker().to_string();
    assert_eq!(plan(&Some(marker.clone()), true), Plan::CaptureAndPublish);
    assert_eq!(plan(&Some(marker), false), Plan::RejectUnknown);
}

#[test]
fn unknown_tokens_are_rejected() {
    assert_eq!(plan(&Some("bogus".to_string()), false), Plan::RejectUnknown);
    assert_eq!(plan(&Some("bogus".to_string()), true), Plan::RejectUnknown);
    assert_eq!(plan(&Some("".to_string()), false), Plan::RejectUnknown);
    assert_eq!(plan(&Some("Help".to_string()), false), Plan::RejectUnknown);
    assert_eq!(plan(&Some("save ".to_string()), true), Plan::RejectUnknown);
}

#[test]
fn daemon_marker_is_stable() {
    assert_eq!(daemon_marker(), "__self_is_daemonized");
}
