use bplus_tui::actions::AppAction;
use bplus_tui::state::Role;
use bplus_tui::stream::decode_stream_event;
use bplus_tui::stream::message_from_parts;
use bplus_tui::stream::transcript_from_value;

#[test]
fn results_event_decodes_sources() {
    let data = r#"[{"title":"T1","url":"U1","content":"C1","engine":"E1"},
                   {"title":"T2","url":"U2","content":"C2","engine":"E2"}]"#;
    let (actions, stop) = decode_stream_event("results", data);
    assert!(!stop);
    assert_eq!(actions.len(), 1);
    match &actions[0] {
        AppAction::SearchSourcesReceived(sources) => {
            assert_eq!(sources.len(), 2);
            assert_eq!(sources[0].title, "T1");
            assert_eq!(sources[0].url, "U1");
            assert_eq!(sources[1].content, "C2");
            assert_eq!(sources[1].engine, "E2");
        },
        other => panic!("expected a source batch, got {:?}", other),
    }
}

#[test]
fn results_event_with_bad_payload_is_ignored() {
    let (actions, stop) = decode_stream_event("results", "not json at all");
    assert!(!stop);
    assert!(actions.is_empty());
    // an element missing a field fails the whole batch
    let (actions, stop) = decode_stream_event("results", r#"[{"title":"T"}]"#);
    assert!(!stop);
    assert!(actions.is_empty());
    // a field of the wrong type fails it too
    let (actions, _) = decode_stream_event(
        "results",
        r#"[{"title":"T","url":1,"content":"C","engine":"E"}]"#,
    );
    assert!(actions.is_empty());
}

#[test]
fn chunk_event_extracts_text() {
    let (actions, stop) = decode_stream_event("summary-chunk", r#"{"text":"Hello"}"#);
    assert!(!stop);
    assert_eq!(actions.len(), 1);
    match &actions[0] {
        AppAction::SearchStreamToken(text) => assert_eq!(text, "Hello"),
        other => panic!("expected a token, got {:?}", other),
    }
    let (actions, _) = decode_stream_event("summary-chunk", r#"{"other":"x"}"#);
    assert!(actions.is_empty());
}

#[test]
fn error_event_fails_the_stream() {
    let (actions, stop) = decode_stream_event("error", "backend unavailable");
    assert!(stop);
    assert_eq!(actions.len(), 1);
    match &actions[0] {
        AppAction::SearchError(msg) => assert_eq!(msg, "backend unavailable"),
        other => panic!("expected an error action, got {:?}", other),
    }
}

#[test]
fn done_event_completes_the_stream() {
    let (actions, stop) = decode_stream_event("summary-done", "");
    assert!(stop);
    assert!(matches!(actions[0], AppAction::SearchDone));
}

#[test]
fn unrecognized_events_are_ignored() {
    let (actions, stop) = decode_stream_event("heartbeat", "{}");
    assert!(!stop);
    assert!(actions.is_empty());
}

#[test]
fn roles_map_to_the_closed_set() {
    let m = message_from_parts("user", "hi".to_string(), vec![]);
    assert_eq!(m.role, Role::User);
    let m = message_from_parts("assistant", "yo".to_string(), vec![]);
    assert_eq!(m.role, Role::Assistant);
    let m = message_from_parts("system", "note".to_string(), vec![]);
    assert_eq!(m.role, Role::System);
    let m = message_from_parts("someone-else", "x".to_string(), vec![]);
    assert_eq!(m.role, Role::System);
    assert_eq!(m.content, "x");
}

#[test]
fn transcript_parses_roles_text_and_embedded_sources() {
    let body = r#"{"messages":[
        {"role":"user","content":"hi"},
        {"role":"assistant","content":"yo",
         "sources":"[{\"title\":\"T\",\"url\":\"U\",\"content\":\"C\",\"engine\":\"E\"}]"},
        {"content":42}
    ]}"#;
    let v: serde_json::Value = serde_json::from_str(body).expect("valid JSON");
    let messages = transcript_from_value(&v);
    assert_eq!(messages.len(), 3);
    assert_eq!(messages[0].role, Role::User);
    assert_eq!(messages[0].content, "hi");
    assert!(messages[0].sources.is_empty());
    assert_eq!(messages[1].role, Role::Assistant);
    assert_eq!(messages[1].sources.len(), 1);
    assert_eq!(messages[1].sources[0].title, "T");
    assert_eq!(messages[2].role, Role::System);
    assert_eq!(messages[2].content, "");
}

#[test]
fn transcript_without_messages_is_empty() {
    let v: serde_json::Value = serde_json::from_str(r#"{"status":"ok"}"#).expect("valid JSON");
    assert!(transcript_from_value(&v).is_empty());
    let v: serde_json::Value = serde_json::from_str(r#"{"messages":"no"}"#).expect("valid JSON");
    assert!(transcript_from_value(&v).is_empty());
}
