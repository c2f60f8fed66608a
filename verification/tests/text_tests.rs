use snapclip::error::{diagnostic_line, Error};
use snapclip::text::{saved_message, unknown_subcommand_message, usage};

#[test]
fn usage_interpolates_program_path() {
    let text = usage("/usr/bin/snapclip");
    let expected = "If no subcommand is provided, it will take a screenshot of the current screen and save it to the system clipboard.\nUsage:\n    /usr/bin/snapclip [SUBCOMMAND]\n\nSubcommands:\n    help - Show this message.\n    save - Try to save a screenshot from the clipboard as a PNG file.";
    assert_eq!(text, expected);
}

#[test]
fn unknown_message_embeds_token_and_usage() {
    let usage_text = usage("snapclip");
    let msg = unknown_subcommand_message("bogus", &usage_text);
    assert_eq!(msg, format!("Unknown subcommand \"bogus\"\n{usage_text}"));
    assert!(msg.contains("\"bogus\""));
    assert!(msg.contains(usage_text.as_str()));
}

#[test]
fn saved_message_quotes_the_path() {
    assert_eq!(
        saved_message("17.png"),
        "Image from clipboard is saved as \"17.png\""
    );
}

#[test]
fn diagnostic_line_has_error_prefix() {
    assert_eq!(diagnostic_line("boom"), "ERROR: boom");
}

#[test]
fn error_messages_name_their_cause() {
    assert_eq!(
        Error::Capture("no screen".to_string()).message(),
        "screen capture failed: no screen"
    );
    assert_eq!(
        Error::Clipboard("empty".to_string()).message(),
        "clipboard failure: empty"
    );
    assert_eq!(
        Error::MalformedImage { width: 2, height: 2, len: 15 }.message(),
        "clipboard image data does not match its declared dimensions"
    );
    assert_eq!(
        Error::Io("disk full".to_string()).message(),
        "could not save the image: disk full"
    );
    assert_eq!(
        Error::Dispatch(unknown_subcommand_message("bogus", "usage")).message(),
        "Unknown subcommand \"bogus\"\nusage"
    );
    assert_eq!(
        Error::Spawn("fork failed".to_string()).message(),
        "could not detach the capture process: fork failed"
    );
}
