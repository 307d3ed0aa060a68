use hotkey_notes::enrich::{
    finish_enrichment, note_from_content, outcome_of_reply, prepare_request, status_is_success,
    system_prompt, EnrichError, NoteDocument, MODEL,
};
use hotkey_notes::prompts::{CLOSING, EMAIL_BLOCK, MEETING_BLOCK, SCHEMA, SMART_NOTE_BLOCK, TASKS_BLOCK};
use serde_json::Value;

fn reply(text: &str) -> Value {
    serde_json::from_str(text).unwrap()
}

#[test]
fn blank_key_is_refused() {
    let r = prepare_request("", "some text", "tasks");
    match r {
        Err(e @ EnrichError::MissingApiKey) => {
            assert_eq!(e.message(), "API-Key fehlt. Bitte in den Einstellungen eintragen.")
        },
        _ => panic!("expected a missing-key error"),
    }
    assert!(matches!(prepare_request(" \t\n", "some text", "tasks"), Err(EnrichError::MissingApiKey)));
}

#[test]
fn blank_text_is_refused() {
    let r = prepare_request("key", "   ", "smart_note");
    match r {
        Err(e @ EnrichError::MissingText) => assert_eq!(e.message(), "Kein Transkript vorhanden."),
        _ => panic!("expected a missing-text error"),
    }
    assert!(matches!(
        prepare_request("key", "\u{3000}\u{a0}\r\n", "smart_note"),
        Err(EnrichError::MissingText)
    ));
}

#[test]
fn blank_key_wins_over_blank_text() {
    assert!(matches!(prepare_request("  ", "", "email"), Err(EnrichError::MissingApiKey)));
}

#[test]
fn unknown_mode_uses_smart_note() {
    let req = match prepare_request("key", "text", "unknown_mode") {
        Ok(r) => r,
        Err(_) => panic!("expected a request"),
    };
    assert_eq!(req.system, format!("{}\n{}\n{}", SCHEMA, SMART_NOTE_BLOCK, CLOSING));
    assert!(req.system.contains("MODUS: SMART NOTE"));
    assert_eq!(req.user, "text");
    assert_eq!(req.api_key, "key");
    assert_eq!(req.model, MODEL);
    assert_eq!(req.model, "gpt-4o-mini");
}

#[test]
fn each_mode_selects_its_block() {
    assert_eq!(system_prompt("smart_note"), format!("{}\n{}\n{}", SCHEMA, SMART_NOTE_BLOCK, CLOSING));
    assert_eq!(system_prompt("tasks"), format!("{}\n{}\n{}", SCHEMA, TASKS_BLOCK, CLOSING));
    assert_eq!(system_prompt("meeting_minutes"), format!("{}\n{}\n{}", SCHEMA, MEETING_BLOCK, CLOSING));
    assert_eq!(system_prompt("email"), format!("{}\n{}\n{}", SCHEMA, EMAIL_BLOCK, CLOSING));
    assert!(system_prompt("tasks").contains("MODUS: AUFGABEN"));
    assert!(system_prompt("Tasks").contains("MODUS: SMART NOTE"));
    assert!(system_prompt("").contains("MODUS: SMART NOTE"));
}

#[test]
fn text_is_sent_untrimmed() {
    match prepare_request(" key ", "  hallo  ", "email") {
        Ok(req) => {
            assert_eq!(req.user, "  hallo  ");
            assert_eq!(req.api_key, " key ");
        },
        Err(_) => panic!("expected a request"),
    }
}

#[test]
fn non_json_content_gives_empty_note() {
    let body = reply(r#"{"choices":[{"message":{"content":"Hier ist deine Notiz"}}]}"#);
    match finish_enrichment(200, &body) {
        Ok(n @ NoteDocument::Empty) => {
            let v = n.into_value();
            assert!(v.as_object().map(|m| m.is_empty()).unwrap_or(false));
        },
        _ => panic!("expected the empty note"),
    }
}

#[test]
fn json_content_is_returned_as_is() {
    let body = reply(r#"{"choices":[{"message":{"content":"{\"title\":\"Einkauf\",\"nextSteps\":[\"Milch kaufen\"]}"}}]}"#);
    match finish_enrichment(200, &body) {
        Ok(NoteDocument::Parsed(v)) => {
            assert_eq!(v["title"], "Einkauf");
            assert_eq!(v["nextSteps"][0], "Milch kaufen");
            assert!(v.get("decisions").is_none());
        },
        _ => panic!("expected a parsed note"),
    }
}

#[test]
fn missing_content_gives_empty_object() {
    let body = reply(r#"{"choices":[]}"#);
    match finish_enrichment(200, &body) {
        Ok(NoteDocument::Parsed(v)) => assert!(v.as_object().map(|m| m.is_empty()).unwrap_or(false)),
        _ => panic!("expected the parsed empty object"),
    }
}

#[test]
fn non_string_content_gives_empty_object() {
    let body = reply(r#"{"choices":[{"message":{"content":42}}]}"#);
    assert!(matches!(finish_enrichment(201, &body), Ok(NoteDocument::Parsed(_))));
}

#[test]
fn remote_error_carries_the_body() {
    let body = reply(r#"{"error":{"message":"Incorrect API key"}}"#);
    match finish_enrichment(401, &body) {
        Err(e @ EnrichError::Remote(_)) => {
            let m = e.message();
            assert!(m.contains(r#"{"error":{"message":"Incorrect API key"}}"#));
            assert_eq!(m, r#"OpenAI Fehler: {"error":{"message":"Incorrect API key"}}"#);
        },
        _ => panic!("expected a remote error"),
    }
}

#[test]
fn outcome_of_failed_reply_keeps_rendered_body() {
    match outcome_of_reply(500, "{\"x\":1}".to_string(), Some("{}")) {
        Err(EnrichError::Remote(b)) => assert_eq!(b, "{\"x\":1}"),
        _ => panic!("expected a remote error"),
    }
    assert!(matches!(outcome_of_reply(299, String::new(), Some("[1,2]")), Ok(NoteDocument::Parsed(_))));
    assert!(matches!(outcome_of_reply(200, String::new(), Some("nope")), Ok(NoteDocument::Empty)));
}

#[test]
fn content_decoding_is_lenient() {
    assert!(matches!(note_from_content(None), NoteDocument::Parsed(_)));
    assert!(matches!(note_from_content(Some("{\"a\":")), NoteDocument::Empty));
    assert!(matches!(note_from_content(Some("")), NoteDocument::Empty));
}

#[test]
fn success_statuses() {
    assert!(!status_is_success(199));
    assert!(status_is_success(200));
    assert!(status_is_success(299));
    assert!(!status_is_success(300));
    assert!(!status_is_success(404));
}

#[test]
fn transport_message_passes_through() {
    let e = EnrichError::Transport("connection refused".to_string());
    assert_eq!(e.message(), "connection refused");
}

#[test]
fn parsed_note_value_is_the_decoded_content() {
    let body = reply(r#"{"choices":[{"message":{"content":"{\"title\":\"T\",\"extra\":1}"}}]}"#);
    match finish_enrichment(200, &body) {
        Ok(n) => {
            let v = n.into_value();
            assert_eq!(v, reply(r#"{"title":"T","extra":1}"#));
        },
        Err(_) => panic!("expected a note"),
    }
}
