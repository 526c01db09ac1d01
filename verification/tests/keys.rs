use chat_relay::session::{parse_style, store_key, Style, UnknownStyle, SESSION_TTL_SECONDS};
use chat_relay::Request;

fn request(reply_to_message_id: Option<i64>) -> Request {
    Request {
        chat_id: 1,
        message_id: 5,
        reply_to_message_id,
        question: "hi".to_string(),
        style: String::new(),
    }
}

#[test]
fn the_key_is_made_of_chat_and_message() {
    assert_eq!(store_key(1, 77), "1-77");
    assert_eq!(store_key(0, 0), "0-0");
    assert_eq!(store_key(-1001234567890, 42), "-1001234567890-42");
    assert_eq!(store_key(7, -3), "7--3");
    assert_eq!(store_key(i64::MIN, i64::MAX), "-9223372036854775808-9223372036854775807");
}

#[test]
fn lookup_and_persist_keys_differ() {
    let r = request(Some(10));
    let lookup = r.lookup_key();
    let persist = r.persist_key(77);
    assert_eq!(lookup, Some("1-10".to_string()));
    assert_eq!(persist, "1-77");
    assert_ne!(lookup, Some(persist));
}

#[test]
fn a_request_that_replies_to_nothing_has_no_lookup_key() {
    assert_eq!(request(None).lookup_key(), None);
    assert_eq!(request(None).persist_key(6), "1-6");
}

#[test]
fn keys_of_different_messages_differ() {
    let ids = [-12, -1, 0, 1, 2, 11, 12, 111];
    for a in ids {
        for b in ids {
            for c in ids {
                for d in ids {
                    if (a, b) != (c, d) {
                        assert_ne!(store_key(a, b), store_key(c, d));
                    }
                }
            }
        }
    }
}

#[test]
fn style_names() {
    assert_eq!(parse_style(""), Ok(Style::Creative));
    assert_eq!(parse_style("creative"), Ok(Style::Creative));
    assert_eq!(parse_style("balanced"), Ok(Style::Balanced));
    assert_eq!(parse_style("precise"), Ok(Style::Precise));
}

#[test]
fn other_style_names_are_refused() {
    assert_eq!(parse_style("Creative"), Err(UnknownStyle));
    assert_eq!(parse_style("creative "), Err(UnknownStyle));
    assert_eq!(parse_style("precis"), Err(UnknownStyle));
    assert_eq!(parse_style("funny"), Err(UnknownStyle));
    assert_eq!(UnknownStyle.message(), "style must be one of: creative, balanced, precise");
}

#[test]
fn sessions_are_kept_for_an_hour() {
    assert_eq!(SESSION_TTL_SECONDS, 60 * 60);
}

#[test]
fn the_key_agrees_with_the_standard_formatting() {
    let ids = [i64::MIN, -1000, -10, -9, -1, 0, 1, 9, 10, 99, 100, 12345, i64::MAX];
    for chat_id in ids {
        for message_id in ids {
            assert_eq!(store_key(chat_id, message_id), format!("{}-{}", chat_id, message_id));
        }
    }
}
