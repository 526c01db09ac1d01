//! What is sent to the chat's front-end besides the response itself: where
//! requests go, and the body of the signal that an answer is being worked
//! on.

use crate::numeral::{push_signed_decimal, signed_decimal};
use crate::text::{append_str, string_of};
use vstd::prelude::*;

verus! {

/// The address that responses are posted to, for a bot with the given
/// token.
pub open spec fn send_message_address(token: Seq<char>) -> Seq<char> {
    "https://api.telegram.org/bot"@ + token + "/sendMessage"@
}

/// The address that signals are posted to, for a bot with the given token.
pub open spec fn chat_action_address(token: Seq<char>) -> Seq<char> {
    "https://api.telegram.org/bot"@ + token + "/sendChatAction"@
}

/// The body of the signal that an answer for the chat is being worked on.
pub open spec fn typing_signal(chat_id: int) -> Seq<char> {
    "{\"chat_id\": "@ + signed_decimal(chat_id) + ", \"action\": \"typing\"}"@
}

/// The address to post a response to.
pub fn send_message_url(token: &str) -> (url: String)
    ensures
        url@ == send_message_address(token@),
{
    let mut url: Vec<char> = Vec::new();
    append_str(&mut url, "https://api.telegram.org/bot");
    append_str(&mut url, token);
    append_str(&mut url, "/sendMessage");
    string_of(&url)
}

/// The address to post a signal to.
pub fn chat_action_url(token: &str) -> (url: String)
    ensures
        url@ == chat_action_address(token@),
{
    let mut url: Vec<char> = Vec::new();
    append_str(&mut url, "https://api.telegram.org/bot");
    append_str(&mut url, token);
    append_str(&mut url, "/sendChatAction");
    string_of(&url)
}

/// The body to post as a signal for the chat.
pub fn typing_body(chat_id: i64) -> (body: String)
    ensures
        body@ == typing_signal(chat_id as int),
{
    let mut body: Vec<char> = Vec::new();
    append_str(&mut body, "{\"chat_id\": ");
    push_signed_decimal(chat_id, &mut body);
    append_str(&mut body, ", \"action\": \"typing\"}");
    string_of(&body)
}

} // verus!
