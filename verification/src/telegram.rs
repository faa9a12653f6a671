//! Telegram notification settings.
use vstd::prelude::*;
use crate::text::owned;

verus! {

/// Where notifications go: whether they are on, the bot token and the chat.
pub struct TeleInfo {
    pub telegram_notif: bool,
    pub telegram_token: String,
    pub telegram_chat_id: String,
}

/// Settings for a bot token and a chat, with notifications still off.
pub fn get_data(token: &str, chat_id: &str) -> (info: TeleInfo)
    ensures
        !info.telegram_notif,
        info.telegram_token@ == token@,
        info.telegram_chat_id@ == chat_id@,
{
    TeleInfo { telegram_notif: false, telegram_token: owned(token), telegram_chat_id: owned(chat_id) }
}

} // verus!
