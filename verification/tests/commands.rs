use faustok::commands::{
    autofix, autofix_outcome, check_autofix, img, mp3, relay_error_message, store_error_message,
    vid,
};
use faustok::config::{BOT_PREFIX, SLIDESHOW_CHUNK_VALUE};
use faustok::database::{StoreError, UserSetting};
use faustok::relay::{Action, Phase};
use faustok::tiklydown::{MediaKind, RelayError};

#[test]
fn autofix_changes_the_store_and_words_the_reply() {
    let mut settings = UserSetting::new();
    let change = autofix(&mut settings, "42", true);
    assert!(settings.get("42"));
    assert_eq!(change.entries, vec![("42".to_string(), true)]);
    assert_eq!(change.reply, "Autofix for id \"42\" has been updated to **true**");
    let change = autofix(&mut settings, "42", false);
    assert!(!settings.get("42"));
    assert_eq!(change.entries, vec![("42".to_string(), false)]);
    assert_eq!(change.reply, "Autofix for id \"42\" has been updated to **false**");
}

#[test]
fn autofix_reply_is_due_only_after_the_write() {
    let mut settings = UserSetting::new();
    let change = autofix(&mut settings, "42", true);
    assert_eq!(
        autofix_outcome(change, true),
        Ok("Autofix for id \"42\" has been updated to **true**".to_string())
    );
    let change = autofix(&mut settings, "43", true);
    assert_eq!(autofix_outcome(change, false), Err(StoreError::PersistError));
    assert!(settings.get("43"));
}

#[test]
fn check_autofix_answers_for_the_mentioned_user_else_the_author() {
    let mut settings = UserSetting::new();
    settings.set("1", true);
    assert_eq!(
        check_autofix(&settings, "1", None),
        "Autofix for id \"1\" is currently **true**"
    );
    assert_eq!(
        check_autofix(&settings, "1", Some("2")),
        "Autofix for id \"2\" is currently **false**"
    );
    assert_eq!(
        check_autofix(&settings, "2", Some("1")),
        "Autofix for id \"1\" is currently **true**"
    );
}

#[test]
fn every_command_starts_by_acknowledging() {
    for relay in [vid("1", "u"), img("1", "u"), mp3("1", "u")] {
        assert_eq!(relay.phase(), Phase::Acknowledging);
        assert_eq!(relay.pending(), Action::Defer);
    }
}

#[test]
fn fixed_settings() {
    assert_eq!(BOT_PREFIX, ".");
    assert_eq!(SLIDESHOW_CHUNK_VALUE, 4);
}

#[test]
fn relay_failures_are_worded() {
    assert_eq!(
        relay_error_message(RelayError::MediaNotFound(MediaKind::Video)),
        "Video URL not found in the response"
    );
    assert_eq!(
        relay_error_message(RelayError::MediaNotFound(MediaKind::Images)),
        "Images not found in the response"
    );
    assert_eq!(
        relay_error_message(RelayError::MediaNotFound(MediaKind::Audio)),
        "Music URL not found in the response"
    );
    assert_eq!(
        relay_error_message(RelayError::AcknowledgeError),
        "The command could not be acknowledged"
    );
    assert_eq!(relay_error_message(RelayError::ResolveError), "The link could not be resolved");
    assert_eq!(
        relay_error_message(RelayError::DownloadError),
        "The media could not be downloaded"
    );
    assert_eq!(relay_error_message(RelayError::UploadError), "The media could not be uploaded");
    assert_eq!(
        relay_error_message(RelayError::DeleteError),
        "The local files could not be deleted"
    );
}

#[test]
fn store_failures_are_worded() {
    assert_eq!(
        store_error_message(StoreError::ConfigMissing),
        "The configuration file does not exist"
    );
    assert_eq!(
        store_error_message(StoreError::ConfigCorrupt),
        "The configuration file could not be read"
    );
    assert_eq!(
        store_error_message(StoreError::PersistError),
        "The settings could not be written back"
    );
}
