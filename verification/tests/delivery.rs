use chat_relay::delivery::{chat_action_url, send_message_url, typing_body};
use chat_relay::markup::Answer;
use chat_relay::Response;

#[test]
fn addresses_hold_the_token() {
    assert_eq!(send_message_url("123:abc"), "https://api.telegram.org/bot123:abc/sendMessage");
    assert_eq!(chat_action_url("123:abc"), "https://api.telegram.org/bot123:abc/sendChatAction");
    assert_eq!(send_message_url(""), "https://api.telegram.org/bot/sendMessage");
}

#[test]
fn the_typing_signal_names_the_chat() {
    assert_eq!(typing_body(1), "{\"chat_id\": 1, \"action\": \"typing\"}");
    assert_eq!(typing_body(-100200), "{\"chat_id\": -100200, \"action\": \"typing\"}");
}

#[test]
fn a_response_by_default() {
    let r = Response::default();
    assert_eq!(r.chat_id, 0);
    assert_eq!(r.reply_to_message_id, 0);
    assert_eq!(r.text, "");
    assert_eq!(r.parse_mode, "MarkdownV2");
    assert!(r.disable_web_page_preview);
}

#[test]
fn a_response_carries_the_formatted_answer() {
    let answer = Answer {
        text: "- it is 2.5[^1^]".to_string(),
        citations: vec!["https://x.y".to_string()],
    };
    let r = Response::new(11, 22, answer);
    assert_eq!(
        r,
        Response {
            chat_id: 11,
            reply_to_message_id: 22,
            text: "• it is 2\\.5[¹](https://x\\.y)".to_string(),
            parse_mode: "MarkdownV2".to_string(),
            disable_web_page_preview: true,
        }
    );
}

#[test]
fn a_response_in_either_dialect() {
    let answer = || Answer { text: "a_b.".to_string(), citations: Vec::new() };
    let strict = Response::in_mode(1, 2, answer(), chat_relay::MarkupMode::Strict);
    assert_eq!(strict, Response::new(1, 2, answer()));
    assert_eq!(strict.text, "a\\_b\\.");
    let legacy = Response::in_mode(1, 2, answer(), chat_relay::MarkupMode::Legacy);
    assert_eq!(legacy.text, "a_b.");
    assert_eq!(legacy.parse_mode, "Markdown");
    assert_eq!((legacy.chat_id, legacy.reply_to_message_id), (1, 2));
    assert!(legacy.disable_web_page_preview);
}
