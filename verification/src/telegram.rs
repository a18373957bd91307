//! Messages to a Telegram chat through the Bot API.
use crate::json::{pretty_object, pretty_object_text};
use vstd::prelude::*;

verus! {

/// A bot token and the chat its messages go to.
pub struct Telegram {
    token: String,
    chat_id: String,
}

/// An HTTP request to make: POST `body` to `url`, as JSON.
pub struct TelegramRequest {
    pub url: String,
    pub body: String,
}

/// The content type that goes with a request's body.
pub const JSON_CONTENT_TYPE: &'static str = "application/json; charset=utf-8";

/// The Bot API address that sends a message for the bot with `token`.
pub open spec fn send_message_url(token: Seq<char>) -> Seq<char> {
    "https://api.telegram.org/bot"@ + token + "/sendMessage"@
}

/// The JSON object `{"chat_id": chat_id, "text": text}`, as serde_json's
/// pretty printer writes it (which is what ureq's `send_json` sends).
pub open spec fn send_message_body(chat_id: Seq<char>, text: Seq<char>) -> Seq<char> {
    pretty_object_text("chat_id"@, chat_id, "text"@, text)
}

impl Telegram {
    pub closed spec fn token(&self) -> Seq<char> {
        self.token@
    }

    pub closed spec fn chat_id(&self) -> Seq<char> {
        self.chat_id@
    }

    /// A sender for the bot with `token`, writing to chat `chat_id`.
    pub fn new(token: String, chat_id: String) -> (t: Telegram)
        ensures
            t.token() == token@,
            t.chat_id() == chat_id@,
    {
        Telegram { token, chat_id }
    }

    /// The request that sends `msg` to the chat.
    pub fn request(&self, msg: &str) -> (r: TelegramRequest)
        ensures
            r.url@ == send_message_url(self.token()),
            r.body@ == send_message_body(self.chat_id(), msg@),
    {
        let mut url = String::from_str("https://api.telegram.org/bot");
        url.append(self.token.as_str());
        url.append("/sendMessage");
        let body = pretty_object("chat_id", self.chat_id.as_str(), "text", msg);
        TelegramRequest { url, body }
    }
}

} // verus!
