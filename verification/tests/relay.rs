use chat_relay::markup::{Answer, MarkupMode};
use chat_relay::relay::{Action, Event, Phase, Relay};
use chat_relay::session::{Style, UnknownStyle};
use chat_relay::{Request, Response};

fn request(reply_to_message_id: Option<i64>, style: &str) -> Request {
    Request {
        chat_id: 1,
        message_id: 5,
        reply_to_message_id,
        question: "hi".to_string(),
        style: style.to_string(),
    }
}

fn plain(text: &str) -> Answer {
    Answer { text: text.to_string(), citations: Vec::new() }
}

fn feed(relay: Relay, events: Vec<Event>) -> (Relay, Vec<Action>) {
    let mut relay = relay;
    let mut actions = Vec::new();
    for event in events {
        let (next, action) = relay.step(event);
        relay = next;
        actions.push(action);
    }
    (relay, actions)
}

#[test]
fn a_fresh_question_from_end_to_end() {
    let (relay, first) = Relay::start(request(None, ""), MarkupMode::Strict).unwrap();
    assert_eq!(first, Action::Create { style: Style::Creative });
    assert_eq!(relay.phase, Phase::AwaitSession);
    let (relay, actions) = feed(
        relay,
        vec![
            Event::SessionReady,
            Event::HeartbeatStarted,
            Event::Answered { answer: plain("Hello there") },
            Event::Delivered { message_id: 6 },
            Event::HeartbeatStopped,
            Event::Persisted,
        ],
    );
    assert_eq!(
        actions,
        vec![
            Action::StartHeartbeat { chat_id: 1 },
            Action::Ask { question: "hi".to_string() },
            Action::Deliver {
                response: Response {
                    chat_id: 1,
                    reply_to_message_id: 5,
                    text: "Hello there".to_string(),
                    parse_mode: "MarkdownV2".to_string(),
                    disable_web_page_preview: true,
                },
            },
            Action::StopHeartbeat,
            Action::Persist { key: "1-6".to_string(), ttl_seconds: 3600 },
            Action::Finish,
        ]
    );
    assert_eq!(relay.phase, Phase::Done);
}

#[test]
fn a_reply_resumes_the_stored_session() {
    let (relay, first) = Relay::start(request(Some(10), "precise"), MarkupMode::Strict).unwrap();
    assert_eq!(first, Action::Lookup { key: "1-10".to_string() });
    assert_eq!(relay.phase, Phase::AwaitLookup);
    assert_eq!(relay.style, Style::Precise);
    let (relay, action) = relay.step(Event::LookupHit { session: "{\"stored\":true}".to_string() });
    assert_eq!(action, Action::Resume { session: "{\"stored\":true}".to_string() });
    assert_eq!(relay.phase, Phase::AwaitSession);
    let (relay, actions) = feed(
        relay,
        vec![
            Event::SessionReady,
            Event::HeartbeatStarted,
            Event::Answered { answer: plain("- a.b") },
            Event::Delivered { message_id: 77 },
            Event::HeartbeatStopped,
        ],
    );
    assert_eq!(actions[2], Action::Deliver { response: Response::new(1, 5, plain("- a.b")) });
    assert_eq!(actions[4], Action::Persist { key: "1-77".to_string(), ttl_seconds: 3600 });
    assert_eq!(relay.phase, Phase::AwaitPersist);
}

#[test]
fn a_miss_falls_back_on_a_new_session() {
    for miss in [Event::LookupNotFound, Event::LookupFailed] {
        let (relay, first) = Relay::start(request(Some(10), "balanced"), MarkupMode::Strict).unwrap();
        assert_eq!(first, Action::Lookup { key: "1-10".to_string() });
        let (relay, action) = relay.step(miss);
        assert_eq!(action, Action::Create { style: Style::Balanced });
        assert_eq!(relay.phase, Phase::AwaitSession);
        let (_, actions) = feed(
            relay,
            vec![
                Event::SessionReady,
                Event::LookupNotFound,
                Event::LookupNotFound,
                Event::SessionReady,
            ],
        );
        assert!(actions.iter().all(|a| !matches!(a, Action::Create { .. })));
    }
}

#[test]
fn an_unknown_style_is_refused_before_anything_is_done() {
    assert_eq!(Relay::start(request(None, "funny"), MarkupMode::Strict), Err(UnknownStyle));
    assert_eq!(Relay::start(request(Some(3), "funny"), MarkupMode::Legacy), Err(UnknownStyle));
}

#[test]
fn a_failure_aborts_and_nothing_follows() {
    let (relay, _) = Relay::start(request(None, "creative"), MarkupMode::Strict).unwrap();
    let (relay, actions) = feed(
        relay,
        vec![
            Event::SessionReady,
            Event::HeartbeatStarted,
            Event::Failed,
            Event::Answered { answer: plain("late") },
            Event::Delivered { message_id: 6 },
            Event::HeartbeatStopped,
            Event::Persisted,
        ],
    );
    assert_eq!(actions[2], Action::Abort);
    assert!(actions[2..].iter().all(|a| *a == Action::Abort));
    assert_eq!(relay.phase, Phase::Aborted);
}

#[test]
fn an_event_out_of_turn_aborts() {
    let (relay, _) = Relay::start(request(None, ""), MarkupMode::Strict).unwrap();
    let (relay, action) = relay.step(Event::Answered { answer: plain("too early") });
    assert_eq!(action, Action::Abort);
    assert_eq!(relay.phase, Phase::Aborted);
    let (relay, _) = Relay::start(request(Some(2), ""), MarkupMode::Strict).unwrap();
    let (relay, action) = relay.step(Event::SessionReady);
    assert_eq!(action, Action::Abort);
    assert_eq!(relay.phase, Phase::Aborted);
}

#[test]
fn nothing_is_done_after_the_end() {
    let (relay, _) = Relay::start(request(None, ""), MarkupMode::Strict).unwrap();
    let (relay, actions) = feed(
        relay,
        vec![
            Event::SessionReady,
            Event::HeartbeatStarted,
            Event::Answered { answer: plain("x") },
            Event::Delivered { message_id: 6 },
            Event::HeartbeatStopped,
            Event::Persisted,
            Event::Persisted,
        ],
    );
    assert_eq!(actions[5], Action::Finish);
    assert_eq!(actions[6], Action::Abort);
    assert_eq!(relay.phase, Phase::Aborted);
}

#[test]
fn the_legacy_dialect_passes_the_answer_through() {
    let (relay, _) = Relay::start(request(None, ""), MarkupMode::Legacy).unwrap();
    let (_, actions) = feed(
        relay,
        vec![
            Event::SessionReady,
            Event::HeartbeatStarted,
            Event::Answered {
                answer: Answer { text: "- a_b[^1^]".to_string(), citations: vec!["u".to_string()] },
            },
        ],
    );
    assert_eq!(
        actions[2],
        Action::Deliver {
            response: Response {
                chat_id: 1,
                reply_to_message_id: 5,
                text: "- a_b[^1^]".to_string(),
                parse_mode: "Markdown".to_string(),
                disable_web_page_preview: true,
            },
        }
    );
}

#[test]
fn the_heartbeat_runs_from_before_the_question_until_after_the_answer() {
    let (relay, first) = Relay::start(request(Some(4), ""), MarkupMode::Strict).unwrap();
    let (_, rest) = feed(
        relay,
        vec![
            Event::LookupNotFound,
            Event::SessionReady,
            Event::HeartbeatStarted,
            Event::Answered { answer: plain("x") },
            Event::Delivered { message_id: 9 },
            Event::HeartbeatStopped,
            Event::Persisted,
        ],
    );
    let mut actions = vec![first];
    actions.extend(rest);
    let place = |wanted: fn(&Action) -> bool| actions.iter().position(|a| wanted(a)).unwrap();
    let started = place(|a| matches!(a, Action::StartHeartbeat { .. }));
    let asked = place(|a| matches!(a, Action::Ask { .. }));
    let delivered = place(|a| matches!(a, Action::Deliver { .. }));
    let stopped = place(|a| matches!(a, Action::StopHeartbeat));
    let persisted = place(|a| matches!(a, Action::Persist { .. }));
    assert!(started < asked && asked < delivered && delivered < stopped && stopped < persisted);
    assert_eq!(actions.iter().filter(|a| matches!(a, Action::StopHeartbeat)).count(), 1);
    assert_eq!(actions.iter().filter(|a| matches!(a, Action::Create { .. })).count(), 1);
}
