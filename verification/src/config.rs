//! The bot's fixed settings.

use vstd::prelude::*;

verus! {

/// What a text command starts with.
pub const BOT_PREFIX: &'static str = ".";

/// How many images go into one message.
pub const SLIDESHOW_CHUNK_VALUE: usize = 4;

} // verus!
