//! Conversation sessions: the styles a session can be created with, and
//! the keys under which sessions are stored.

use crate::numeral::{
    lemma_signed_decimal_injective, lemma_signed_decimal_shape, push_signed_decimal,
    signed_decimal,
};
use crate::text::{chars_of, same_chars, string_of};
use vstd::prelude::*;

verus! {

/// For how many seconds a stored session can be resumed.
pub const SESSION_TTL_SECONDS: u64 = 3600;

/// The conversational style of a session.
#[derive(Clone, Copy, Debug, PartialEq, Eq, Structural)]
pub enum Style {
    Creative,
    Balanced,
    Precise,
}

/// The error for a style name that names no style.
#[derive(Clone, Copy, Debug, PartialEq, Eq, Structural)]
pub struct UnknownStyle;

/// The style that `name` names, if it names one. The empty name stands for
/// the creative style.
pub open spec fn style_named(name: Seq<char>) -> Option<Style> {
    if name == Seq::<char>::empty() || name == "creative"@ {
        Some(Style::Creative)
    } else if name == "balanced"@ {
        Some(Style::Balanced)
    } else if name == "precise"@ {
        Some(Style::Precise)
    } else {
        None
    }
}

/// The key under which the session is stored that produced the message
/// `message_id` of the chat `chat_id`.
pub open spec fn key_text(chat_id: int, message_id: int) -> Seq<char> {
    signed_decimal(chat_id) + seq!['-'] + signed_decimal(message_id)
}

/// Reads a style name. Any name but the empty one and the three style
/// names is refused.
pub fn parse_style(name: &str) -> (style: Result<Style, UnknownStyle>)
    ensures
        style == match style_named(name@) {
            Some(s) => Ok::<Style, UnknownStyle>(s),
            None => Err::<Style, UnknownStyle>(UnknownStyle),
        },
{
    let chars = chars_of(name);
    if chars.len() == 0 {
        assert(name@ == Seq::<char>::empty());
        Ok(Style::Creative)
    } else if same_chars(&chars, &chars_of("creative")) {
        Ok(Style::Creative)
    } else if same_chars(&chars, &chars_of("balanced")) {
        Ok(Style::Balanced)
    } else if same_chars(&chars, &chars_of("precise")) {
        Ok(Style::Precise)
    } else {
        Err(UnknownStyle)
    }
}

impl UnknownStyle {
    /// What to tell the operator.
    pub fn message(&self) -> (text: String)
        ensures
            text@ == "style must be one of: creative, balanced, precise"@,
    {
        string_of(&chars_of("style must be one of: creative, balanced, precise"))
    }
}

/// The store key for a message of a chat.
pub fn store_key(chat_id: i64, message_id: i64) -> (key: String)
    ensures
        key@ == key_text(chat_id as int, message_id as int),
{
    let mut chars: Vec<char> = Vec::new();
    push_signed_decimal(chat_id, &mut chars);
    chars.push('-');
    push_signed_decimal(message_id, &mut chars);
    string_of(&chars)
}

/// Two messages have the same store key only if they are the same message
/// of the same chat. So looking a session up under the message that was
/// replied to and storing it under the message that was delivered use two
/// different keys whenever these are two different messages.
pub proof fn lemma_key_text_injective(chat_a: int, message_a: int, chat_b: int, message_b: int)
    requires
        key_text(chat_a, message_a) == key_text(chat_b, message_b),
    ensures
        chat_a == chat_b,
        message_a == message_b,
{
    let head_a = signed_decimal(chat_a);
    let head_b = signed_decimal(chat_b);
    let tail_a = signed_decimal(message_a);
    let tail_b = signed_decimal(message_b);
    let key_a = key_text(chat_a, message_a);
    let key_b = key_text(chat_b, message_b);
    lemma_signed_decimal_shape(chat_a);
    lemma_signed_decimal_shape(chat_b);
    // Behind its first character a key holds no hyphen before the
    // separator, so the separator stands at the same place in both keys.
    if head_a.len() < head_b.len() {
        assert(key_a[head_a.len() as int] == '-');
        assert(key_b[head_a.len() as int] == head_b[head_a.len() as int]);
    }
    if head_b.len() < head_a.len() {
        assert(key_b[head_b.len() as int] == '-');
        assert(key_a[head_b.len() as int] == head_a[head_b.len() as int]);
    }
    assert(head_a.len() == head_b.len());
    assert(key_a.subrange(0, head_a.len() as int) == head_a);
    assert(key_b.subrange(0, head_b.len() as int) == head_b);
    assert(key_a.skip(head_a.len() as int + 1) == tail_a);
    assert(key_b.skip(head_b.len() as int + 1) == tail_b);
    lemma_signed_decimal_injective(chat_a, chat_b);
    lemma_signed_decimal_injective(message_a, message_b);
}

} // verus!
