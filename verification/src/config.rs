//! The settings that the commands read.
use vstd::prelude::*;

verus! {

/// The settings of the program.
pub struct Config {
    /// The token of the panel's API.
    pub boil_api_token: String,
    /// The token of the chat bot.
    pub tg_token: Option<String>,
    /// The one chat whose commands the bot obeys.
    pub tg_chat_id: Option<String>,
    /// When the address is changed by itself.
    pub change_cron: Option<String>,
}

} // verus!
