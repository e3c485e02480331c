//! The commands: what each one decides before and after the work that its
//! caller does on the chat platform, the network and the disk.

use crate::config::SLIDESHOW_CHUNK_VALUE;
use crate::database::{
    distinct_users, entries_map, persisted, spec_get, spec_set, update_user_setting, StoreError,
    UserSetting,
};
use crate::relay::{spec_start, Relay};
use crate::tiklydown::{MediaKind, RelayError};
use vstd::prelude::*;
use vstd::string::StringExecFns;

verus! {

/// `true` or `false`, as the replies spell a flag.
pub open spec fn spec_flag_text(value: bool) -> Seq<char> {
    if value {
        "true"@
    } else {
        "false"@
    }
}

/// The reply to a changed preference.
pub open spec fn spec_autofix_reply(user_id: Seq<char>, value: bool) -> Seq<char> {
    "Autofix for id \""@ + user_id + "\" has been updated to **"@ + spec_flag_text(value) + "**"@
}

/// The reply to a question after a preference.
pub open spec fn spec_check_autofix_reply(user_id: Seq<char>, value: bool) -> Seq<char> {
    "Autofix for id \""@ + user_id + "\" is currently **"@ + spec_flag_text(value) + "**"@
}

/// The user that a question is about: the one mentioned, else the author.
pub open spec fn spec_subject(author_id: Seq<char>, mentioned: Option<&str>) -> Seq<char> {
    match mentioned {
        Some(user_id) => user_id@,
        None => author_id,
    }
}

/// Spells a flag.
fn flag_text(value: bool) -> (text: &'static str)
    ensures
        text@ == spec_flag_text(value),
{
    if value {
        "true"
    } else {
        "false"
    }
}

/// A changed preference: the mapping to write back and the reply that is due
/// once it is written.
#[derive(Debug, PartialEq, Eq)]
pub struct Change {
    pub entries: Vec<(String, bool)>,
    pub reply: String,
}

/// Turns the automatic rewrite on or off for `user_id`: the store is changed
/// at once, and the whole mapping is handed out to be written back.
pub fn autofix(settings: &mut UserSetting, user_id: &str, value: bool) -> (change: Change)
    requires
        old(settings).wf(),
    ensures
        final(settings).wf(),
        final(settings)@ == spec_set(old(settings)@, user_id@, value),
        distinct_users(change.entries@),
        entries_map(change.entries@) == final(settings)@,
        change.reply@ == spec_autofix_reply(user_id@, value),
{
    let entries = update_user_setting(settings, user_id, value);
    let reply = String::from_str("Autofix for id \"").concat(user_id).concat(
        "\" has been updated to **",
    ).concat(flag_text(value)).concat("**");
    Change { entries, reply }
}

/// What the user is told after a change, given whether the mapping was
/// written back: the reply, or `PersistError`.
pub fn autofix_outcome(change: Change, written: bool) -> (result: Result<String, StoreError>)
    ensures
        written ==> result == Ok::<String, StoreError>(change.reply),
        !written ==> result == Err::<String, StoreError>(StoreError::PersistError),
{
    match persisted(written) {
        Ok(()) => Ok(change.reply),
        Err(error) => Err(error),
    }
}

/// Answers what the preference of a user is: of the one mentioned, else of
/// the author.
pub fn check_autofix(settings: &UserSetting, author_id: &str, mentioned: Option<&str>) -> (reply:
    String)
    requires
        settings.wf(),
    ensures
        reply@ == spec_check_autofix_reply(
            spec_subject(author_id@, mentioned),
            spec_get(settings@, spec_subject(author_id@, mentioned)),
        ),
{
    let user_id = match mentioned {
        Some(user_id) => user_id,
        None => author_id,
    };
    let value = settings.get(user_id);
    String::from_str("Autofix for id \"").concat(user_id).concat("\" is currently **").concat(
        flag_text(value),
    ).concat("**")
}

/// The relay that the video command starts for `user_id` on `url`.
pub fn vid(user_id: &str, url: &str) -> (relay: Relay)
    ensures
        relay.wf(),
        relay@ == spec_start(MediaKind::Video, user_id@, url@, SLIDESHOW_CHUNK_VALUE as nat),
{
    Relay::new(MediaKind::Video, user_id, url, SLIDESHOW_CHUNK_VALUE)
}

/// The relay that the image command starts for `user_id` on `url`.
pub fn img(user_id: &str, url: &str) -> (relay: Relay)
    ensures
        relay.wf(),
        relay@ == spec_start(MediaKind::Images, user_id@, url@, SLIDESHOW_CHUNK_VALUE as nat),
{
    Relay::new(MediaKind::Images, user_id, url, SLIDESHOW_CHUNK_VALUE)
}

/// The relay that the audio command starts for `user_id` on `url`.
pub fn mp3(user_id: &str, url: &str) -> (relay: Relay)
    ensures
        relay.wf(),
        relay@ == spec_start(MediaKind::Audio, user_id@, url@, SLIDESHOW_CHUNK_VALUE as nat),
{
    Relay::new(MediaKind::Audio, user_id, url, SLIDESHOW_CHUNK_VALUE)
}

/// What a failed relay tells the user.
pub open spec fn spec_relay_error_message(error: RelayError) -> Seq<char> {
    match error {
        RelayError::AcknowledgeError => "The command could not be acknowledged"@,
        RelayError::ResolveError => "The link could not be resolved"@,
        RelayError::MediaNotFound(MediaKind::Video) => "Video URL not found in the response"@,
        RelayError::MediaNotFound(MediaKind::Images) => "Images not found in the response"@,
        RelayError::MediaNotFound(MediaKind::Audio) => "Music URL not found in the response"@,
        RelayError::DownloadError => "The media could not be downloaded"@,
        RelayError::UploadError => "The media could not be uploaded"@,
        RelayError::DeleteError => "The local files could not be deleted"@,
    }
}

/// The failure notice of a relay.
pub fn relay_error_message(error: RelayError) -> (message: String)
    ensures
        message@ == spec_relay_error_message(error),
{
    let text = match error {
        RelayError::AcknowledgeError => "The command could not be acknowledged",
        RelayError::ResolveError => "The link could not be resolved",
        RelayError::MediaNotFound(MediaKind::Video) => "Video URL not found in the response",
        RelayError::MediaNotFound(MediaKind::Images) => "Images not found in the response",
        RelayError::MediaNotFound(MediaKind::Audio) => "Music URL not found in the response",
        RelayError::DownloadError => "The media could not be downloaded",
        RelayError::UploadError => "The media could not be uploaded",
        RelayError::DeleteError => "The local files could not be deleted",
    };
    String::from_str(text)
}

/// What a failure of the store tells the user.
pub open spec fn spec_store_error_message(error: StoreError) -> Seq<char> {
    match error {
        StoreError::ConfigMissing => "The configuration file does not exist"@,
        StoreError::ConfigCorrupt => "The configuration file could not be read"@,
        StoreError::PersistError => "The settings could not be written back"@,
    }
}

/// The failure notice of the store.
pub fn store_error_message(error: StoreError) -> (message: String)
    ensures
        message@ == spec_store_error_message(error),
{
    let text = match error {
        StoreError::ConfigMissing => "The configuration file does not exist",
        StoreError::ConfigCorrupt => "The configuration file could not be read",
        StoreError::PersistError => "The settings could not be written back",
    };
    String::from_str(text)
}

} // verus!
