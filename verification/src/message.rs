//! The inbound request and the outbound response.

use crate::markup::{format_answer, markup, parse_answer, Answer, MarkupMode};
use crate::session::{key_text, lemma_key_text_injective, store_key};
use crate::text::{chars_of, string_of};
use vstd::prelude::*;

verus! {

/// One question from a chat, as it arrives.
#[derive(Debug, PartialEq, Eq)]
pub struct Request {
    pub chat_id: i64,
    pub message_id: i64,
    pub reply_to_message_id: Option<i64>,
    pub question: String,
    pub style: String,
}

/// A request as plain values.
pub struct RequestView {
    pub chat_id: i64,
    pub message_id: i64,
    pub reply_to_message_id: Option<i64>,
    pub question: Seq<char>,
    pub style: Seq<char>,
}

impl View for Request {
    type V = RequestView;

    open spec fn view(&self) -> RequestView {
        RequestView {
            chat_id: self.chat_id,
            message_id: self.message_id,
            reply_to_message_id: self.reply_to_message_id,
            question: self.question@,
            style: self.style@,
        }
    }
}

impl RequestView {
    /// The key under which the session of the conversation so far is looked
    /// up: that of the message that the request replies to. A request that
    /// replies to nothing has none.
    pub open spec fn lookup_key(self) -> Option<Seq<char>> {
        match self.reply_to_message_id {
            Some(replied) => Some(key_text(self.chat_id as int, replied as int)),
            None => None,
        }
    }

    /// The key under which the session is stored once the answer has been
    /// delivered as the message `delivered`.
    pub open spec fn persist_key(self, delivered: i64) -> Seq<char> {
        key_text(self.chat_id as int, delivered as int)
    }
}

impl Request {
    /// The key to look the conversation's session up with, if the request
    /// is a reply.
    pub fn lookup_key(&self) -> (key: Option<String>)
        ensures
            match key {
                Some(k) => self@.lookup_key() == Some(k@),
                None => self@.lookup_key() is None,
            },
    {
        match self.reply_to_message_id {
            Some(replied) => Some(store_key(self.chat_id, replied)),
            None => None,
        }
    }

    /// The key to store the session under, given the message that carried
    /// the answer.
    pub fn persist_key(&self, delivered: i64) -> (key: String)
        ensures
            key@ == self@.persist_key(delivered),
    {
        store_key(self.chat_id, delivered)
    }
}

/// The two keys of an invocation differ. Where the answer to a reply is
/// delivered as another message than the one that was replied to, the key
/// that the session is stored under is not the key that it was looked up
/// with: it is made of the delivered message's number.
pub proof fn lemma_persist_key_differs(request: RequestView, delivered: i64)
    requires
        request.reply_to_message_id matches Some(replied) && replied != delivered,
    ensures
        request.lookup_key() != Some(request.persist_key(delivered)),
        request.persist_key(delivered) == key_text(request.chat_id as int, delivered as int),
{
    if request.lookup_key() == Some(request.persist_key(delivered)) {
        lemma_key_text_injective(
            request.chat_id as int,
            request.reply_to_message_id->0 as int,
            request.chat_id as int,
            delivered as int,
        );
    }
}

/// The name by which the front-end knows a markup dialect.
pub open spec fn parse_mode_name(mode: MarkupMode) -> Seq<char> {
    match mode {
        MarkupMode::Strict => "MarkdownV2"@,
        MarkupMode::Legacy => "Markdown"@,
    }
}

/// The message that is sent to the chat.
#[derive(Debug, PartialEq, Eq)]
pub struct Response {
    pub chat_id: i64,
    pub reply_to_message_id: i64,
    pub text: String,
    pub parse_mode: String,
    pub disable_web_page_preview: bool,
}

/// A response as plain values.
pub struct ResponseView {
    pub chat_id: i64,
    pub reply_to_message_id: i64,
    pub text: Seq<char>,
    pub parse_mode: Seq<char>,
    pub disable_web_page_preview: bool,
}

impl View for Response {
    type V = ResponseView;

    open spec fn view(&self) -> ResponseView {
        ResponseView {
            chat_id: self.chat_id,
            reply_to_message_id: self.reply_to_message_id,
            text: self.text@,
            parse_mode: self.parse_mode@,
            disable_web_page_preview: self.disable_web_page_preview,
        }
    }
}

impl ResponseView {
    /// The response that carries `answer` to the chat `chat_id`, as a reply
    /// to the message `reply_to_message_id`, in the dialect `mode`.
    pub open spec fn carrying(
        chat_id: i64,
        reply_to_message_id: i64,
        text: Seq<char>,
        sources: Seq<Seq<char>>,
        mode: MarkupMode,
    ) -> ResponseView {
        ResponseView {
            chat_id,
            reply_to_message_id,
            text: markup(text, sources, mode),
            parse_mode: parse_mode_name(mode),
            disable_web_page_preview: true,
        }
    }
}

fn parse_mode_of(mode: MarkupMode) -> (name: String)
    ensures
        name@ == parse_mode_name(mode),
{
    match mode {
        MarkupMode::Strict => string_of(&chars_of("MarkdownV2")),
        MarkupMode::Legacy => string_of(&chars_of("Markdown")),
    }
}

impl Default for Response {
    /// An empty strict-dialect message to chat 0, with link previews off.
    fn default() -> (response: Response)
        ensures
            response@ == (ResponseView {
                chat_id: 0,
                reply_to_message_id: 0,
                text: Seq::empty(),
                parse_mode: parse_mode_name(MarkupMode::Strict),
                disable_web_page_preview: true,
            }),
    {
        Response {
            chat_id: 0,
            reply_to_message_id: 0,
            text: String::new(),
            parse_mode: parse_mode_of(MarkupMode::Strict),
            disable_web_page_preview: true,
        }
    }
}

impl Response {
    /// The strict-dialect response that carries `answer`.
    pub fn new(chat_id: i64, reply_to_message_id: i64, answer: Answer) -> (response: Response)
        ensures
            response@ == ResponseView::carrying(
                chat_id,
                reply_to_message_id,
                answer@.text,
                answer@.citations,
                MarkupMode::Strict,
            ),
    {
        let mut response = Response::default();
        response.chat_id = chat_id;
        response.reply_to_message_id = reply_to_message_id;
        response.text = parse_answer(answer);
        response
    }

    /// The response that carries `answer` in the dialect `mode`.
    pub fn in_mode(chat_id: i64, reply_to_message_id: i64, answer: Answer, mode: MarkupMode) -> (response:
        Response)
        ensures
            response@ == ResponseView::carrying(
                chat_id,
                reply_to_message_id,
                answer@.text,
                answer@.citations,
                mode,
            ),
    {
        Response {
            chat_id,
            reply_to_message_id,
            text: format_answer(answer, mode),
            parse_mode: parse_mode_of(mode),
            disable_web_page_preview: true,
        }
    }
}

} // verus!
