//! Message triage: what to do with an incoming chat message.

use crate::pattern::{is_match, regex_compiles, regex_is_match, regex_replace_all, replace_all};
use crate::database::{spec_get, Preferences, UserSetting};
use crate::text::{contains, is_substring};
use vstd::prelude::*;
use vstd::string::StringExecFns;

verus! {

/// The regular expression of a recognised link: the platform's main domain or
/// one of its two short-link subdomains, with or without a scheme and `www.`
/// in front, and with the slash that follows, if there is one.
pub const LINK_PATTERN: &'static str =
    "(https?://)?(www\\.)?(tiktok\\.com|vt\\.tiktok\\.com|vm\\.tiktok\\.com)/?";

/// The mirror's base URL, which takes the place of each recognised link.
pub const MIRROR_URL: &'static str = "https://tnktok.com/";

/// The video command's substring.
pub const VIDEO_COMMAND: &'static str = ".vid";

/// The image command's substring.
pub const IMAGE_COMMAND: &'static str = ".img";

/// The audio command's substring.
pub const AUDIO_COMMAND: &'static str = ".mp3";

/// The decision taken on a message.
#[derive(Clone, Copy, Debug, PartialEq, Eq, Structural)]
pub enum TriageAction {
    /// Leave the message alone.
    NoAction,
    /// Suppress the link preview on the message.
    SuppressPreview,
    /// Suppress the preview and reply with the rewritten link.
    SuppressAndReply,
}

/// The triage table.
pub open spec fn spec_triage(is_command: bool, prefers_rewrite: bool, has_link: bool) -> TriageAction {
    if !has_link {
        TriageAction::NoAction
    } else if is_command {
        TriageAction::SuppressPreview
    } else if prefers_rewrite {
        TriageAction::SuppressAndReply
    } else {
        TriageAction::NoAction
    }
}

/// Decides on a message from the three facts about it.
pub fn triage(is_command: bool, prefers_rewrite: bool, has_link: bool) -> (action: TriageAction)
    ensures
        action == spec_triage(is_command, prefers_rewrite, has_link),
        !has_link ==> action == TriageAction::NoAction,
        has_link && is_command ==> action == TriageAction::SuppressPreview,
{
    match (is_command, prefers_rewrite, has_link) {
        (true, _, true) => TriageAction::SuppressPreview,
        (false, true, true) => TriageAction::SuppressAndReply,
        _ => TriageAction::NoAction,
    }
}

/// A message is a manual media command when one of the three command
/// substrings occurs in it, wherever and whatever surrounds it.
pub open spec fn spec_is_command(content: Seq<char>) -> bool {
    ||| is_substring(content, VIDEO_COMMAND@)
    ||| is_substring(content, IMAGE_COMMAND@)
    ||| is_substring(content, AUDIO_COMMAND@)
}

/// Command recognition by substring containment.
pub fn is_command(content: &str) -> (r: bool)
    ensures
        r == spec_is_command(content@),
{
    contains(content, VIDEO_COMMAND) || contains(content, IMAGE_COMMAND) || contains(
        content,
        AUDIO_COMMAND,
    )
}

/// A message contains a recognised link when the link pattern matches
/// somewhere in it.
pub open spec fn spec_contains_link(content: Seq<char>) -> bool {
    regex_is_match(LINK_PATTERN@, content) == Some(true)
}

/// Link recognition. A link is only recognised where the pattern compiles.
pub fn contains_link(content: &str) -> (r: bool)
    ensures
        r == spec_contains_link(content@),
        r ==> regex_compiles(LINK_PATTERN@),
{
    match is_match(LINK_PATTERN, content) {
        Some(found) => found,
        None => false,
    }
}

/// The message with every recognised link replaced by the mirror's base URL;
/// what follows a link stays.
pub open spec fn spec_rewrite_links(content: Seq<char>) -> Seq<char> {
    match regex_replace_all(LINK_PATTERN@, content, MIRROR_URL@) {
        Some(text) => text,
        None => content,
    }
}

/// The reply text, given what the replacement returned: the rewritten text,
/// or the message itself where the pattern could not be used.
pub fn reply_for(content: &str, rewritten: Option<String>) -> (reply: String)
    ensures
        reply@ == match rewritten {
            Some(text) => text@,
            None => content@,
        },
{
    match rewritten {
        Some(text) => text,
        None => content.to_owned(),
    }
}

/// Rewrites every recognised link to the mirror. Where the pattern compiles
/// the result is the replacement's, never the message handed back.
pub fn rewrite_links(content: &str) -> (rewritten: String)
    ensures
        rewritten@ == spec_rewrite_links(content@),
        regex_compiles(LINK_PATTERN@) ==> regex_replace_all(LINK_PATTERN@, content@, MIRROR_URL@)
            == Some(rewritten@),
{
    reply_for(content, replace_all(LINK_PATTERN, content, MIRROR_URL))
}

/// An event of the chat platform, reduced to what the handler reads.
#[derive(Clone, Debug, PartialEq, Eq)]
pub enum FullEvent {
    /// The bot has logged in under `user_name`.
    Ready { user_name: String },
    /// `author_id` has posted `content`.
    Message { author_id: String, content: String },
    /// Any other event.
    Other,
}

/// What the caller is to do on the chat platform after an event.
#[derive(Clone, Debug, PartialEq, Eq)]
pub enum Reaction {
    /// Nothing.
    Nothing,
    /// Print this line.
    Announce(String),
    /// Suppress the link preview on the message.
    SuppressEmbeds,
    /// Suppress the preview, then reply to the message with this text.
    SuppressEmbedsAndReply(String),
}

/// A `Reaction` with its texts as character sequences.
pub enum ReactionView {
    Nothing,
    Announce(Seq<char>),
    SuppressEmbeds,
    SuppressEmbedsAndReply(Seq<char>),
}

impl View for Reaction {
    type V = ReactionView;

    open spec fn view(&self) -> ReactionView {
        match self {
            Reaction::Nothing => ReactionView::Nothing,
            Reaction::Announce(line) => ReactionView::Announce(line@),
            Reaction::SuppressEmbeds => ReactionView::SuppressEmbeds,
            Reaction::SuppressEmbedsAndReply(text) => ReactionView::SuppressEmbedsAndReply(text@),
        }
    }
}

/// The line printed once the bot has logged in.
pub open spec fn spec_ready_line(user_name: Seq<char>) -> Seq<char> {
    "Logged in as "@ + user_name
}

/// The reaction to a message of `content` whose author's preference is
/// `prefers_rewrite`.
pub open spec fn spec_message_reaction(content: Seq<char>, prefers_rewrite: bool) -> ReactionView {
    match spec_triage(spec_is_command(content), prefers_rewrite, spec_contains_link(content)) {
        TriageAction::NoAction => ReactionView::Nothing,
        TriageAction::SuppressPreview => ReactionView::SuppressEmbeds,
        TriageAction::SuppressAndReply => ReactionView::SuppressEmbedsAndReply(
            spec_rewrite_links(content),
        ),
    }
}

/// The reaction to `event` under the preferences `prefs`.
pub open spec fn spec_event_handler(prefs: Preferences, event: FullEvent) -> ReactionView {
    match event {
        FullEvent::Ready { user_name } => ReactionView::Announce(spec_ready_line(user_name@)),
        FullEvent::Message { author_id, content } => spec_message_reaction(
            content@,
            spec_get(prefs, author_id@),
        ),
        FullEvent::Other => ReactionView::Nothing,
    }
}

/// Triage of one message: recognises command and link, decides, and rewrites
/// the links where a reply is due. A reply always holds what the replacement
/// returned.
pub fn message_reaction(content: &str, prefers_rewrite: bool) -> (reaction: Reaction)
    ensures
        reaction@ == spec_message_reaction(content@, prefers_rewrite),
        reaction matches Reaction::SuppressEmbedsAndReply(text) ==> regex_replace_all(
            LINK_PATTERN@,
            content@,
            MIRROR_URL@,
        ) == Some(text@),
{
    let command = is_command(content);
    let link = contains_link(content);
    match triage(command, prefers_rewrite, link) {
        TriageAction::NoAction => Reaction::Nothing,
        TriageAction::SuppressPreview => Reaction::SuppressEmbeds,
        TriageAction::SuppressAndReply => Reaction::SuppressEmbedsAndReply(rewrite_links(content)),
    }
}

/// Handles one event of the chat platform: announces the login, triages a
/// message under its author's preference, and ignores everything else. A
/// reply to a message always holds what the replacement returned.
pub fn event_handler(settings: &UserSetting, event: &FullEvent) -> (reaction: Reaction)
    requires
        settings.wf(),
    ensures
        reaction@ == spec_event_handler(settings@, *event),
        event matches FullEvent::Message { content, .. } ==> (reaction
            matches Reaction::SuppressEmbedsAndReply(text) ==> regex_replace_all(
            LINK_PATTERN@,
            content@,
            MIRROR_URL@,
        ) == Some(text@)),
{
    match event {
        FullEvent::Ready { user_name } => {
            let line = String::from_str("Logged in as ").concat(user_name.as_str());
            Reaction::Announce(line)
        },
        FullEvent::Message { author_id, content } => {
            let should_replace = settings.get(author_id.as_str());
            message_reaction(content.as_str(), should_replace)
        },
        FullEvent::Other => Reaction::Nothing,
    }
}

} // verus!
