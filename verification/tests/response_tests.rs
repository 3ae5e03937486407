use clob_bridge::json::{add_item, add_member, escape_text, push_escaped, Json};
use clob_bridge::response::{
    auth_response, auth_status_name, emit_response, error_response, success_response, AuthStatus,
    AuthStory, Response,
};

fn story_with(status: AuthStatus) -> AuthStory {
    AuthStory {
        run_id: "run_1_41c67ea6".to_string(),
        signer_address: "0xabc".to_string(),
        funder_address: Some("0xdef".to_string()),
        signature_type: "GnosisSafe".to_string(),
        auth_status: status,
        balance_usdc: None,
        error_details: None,
    }
}

fn well_formed(r: &Response) -> bool {
    r.success == r.error.is_none()
}

#[test]
fn success_response_carries_only_the_payload() {
    let r = success_response(Json::text("x"));
    assert_eq!(
        r,
        Response { success: true, data: Some(Json::Text("x".to_string())), error: None, auth_story: None }
    );
    assert!(well_formed(&r));
}

#[test]
fn error_response_carries_only_the_message() {
    let r = error_response("Missing token_id");
    assert_eq!(
        r,
        Response {
            success: false,
            data: None,
            error: Some("Missing token_id".to_string()),
            auth_story: None,
        }
    );
    assert!(well_formed(&r));
}

#[test]
fn auth_response_succeeds_only_on_success() {
    let ok = auth_response(story_with(AuthStatus::Success), Some(Json::Bool(true)));
    assert!(ok.success);
    assert_eq!(ok.error, None);
    assert_eq!(ok.data, Some(Json::Bool(true)));
    assert_eq!(ok.auth_story, Some(story_with(AuthStatus::Success)));

    let failed = auth_response(story_with(AuthStatus::Failed), None);
    assert!(!failed.success);
    assert_eq!(failed.error, Some("FAILED".to_string()));
    assert_eq!(failed.data, None);
    assert_eq!(failed.auth_story, Some(story_with(AuthStatus::Failed)));

    let pending = auth_response(story_with(AuthStatus::Pending), None);
    assert!(!pending.success);
    assert_eq!(pending.error, Some("PENDING".to_string()));

    for r in [&ok, &failed, &pending] {
        assert!(well_formed(r));
    }
}

#[test]
fn auth_status_names() {
    assert_eq!(auth_status_name(AuthStatus::Pending), "PENDING");
    assert_eq!(auth_status_name(AuthStatus::Success), "SUCCESS");
    assert_eq!(auth_status_name(AuthStatus::Failed), "FAILED");
}

#[test]
fn emit_response_passes_a_serialized_line_through() {
    let line = "{\"success\":true,\"data\":{\"status\":\"exiting\"}}".to_string();
    assert_eq!(emit_response(Ok(line.clone())), line);
    assert_eq!(emit_response(Ok(String::new())), "");
}

#[test]
fn emit_response_falls_back_when_serializing_failed() {
    assert_eq!(
        emit_response(Err("key must be a string".to_string())),
        "{\"success\":false,\"error\":\"JSON serialization failed: key must be a string\"}"
    );
    assert_eq!(
        emit_response(Err(String::new())),
        "{\"success\":false,\"error\":\"JSON serialization failed: \"}"
    );
}

#[test]
fn json_builders() {
    assert_eq!(Json::text("a"), Json::Text("a".to_string()));
    assert_eq!(Json::opt_text(&Some("a".to_string())), Json::Text("a".to_string()));
    assert_eq!(Json::opt_text(&None), Json::Null);

    let mut members = Vec::new();
    add_member(&mut members, "first", Json::Bool(true));
    add_member(&mut members, "second", Json::Null);
    let mut items = Vec::new();
    add_item(&mut items, Json::Number(1));
    add_item(&mut items, Json::object(members));
    assert_eq!(
        Json::list(items),
        Json::List(vec![
            Json::Number(1),
            Json::Object(vec![
                ("first".to_string(), Json::Bool(true)),
                ("second".to_string(), Json::Null),
            ]),
        ])
    );
}

#[test]
fn escape_text_escapes_what_a_json_string_cannot_hold() {
    assert_eq!(escape_text(""), "");
    assert_eq!(escape_text("plain text, é and 漢"), "plain text, é and 漢");
    assert_eq!(escape_text("\""), "\\\"");
    assert_eq!(escape_text("\\"), "\\\\");
    assert_eq!(escape_text("a\"b\\c"), "a\\\"b\\\\c");
    assert_eq!(escape_text("\n\r\t\u{8}\u{c}"), "\\n\\r\\t\\b\\f");
    assert_eq!(escape_text("\u{0}\u{1}\u{b}\u{1f}"), "\\u0000\\u0001\\u000b\\u001f");
    assert_eq!(escape_text("/ \u{7f}"), "/ \u{7f}");
    let mut out = String::from("x");
    push_escaped(&mut out, '"');
    push_escaped(&mut out, 'y');
    assert_eq!(out, "x\\\"y");
}

#[test]
fn escape_text_agrees_with_the_serializer() {
    let mut samples: Vec<String> = (0u32..0x100)
        .filter_map(char::from_u32)
        .map(|c| format!("a{}b", c))
        .collect();
    samples.push("expected `,` or `}` at line 1 column 7".to_string());
    samples.push("\"\"\\\\\n".to_string());
    samples.push("\u{2028}\u{2029}\u{feff}".to_string());
    for sample in samples {
        let quoted = serde_json::to_string(&sample).unwrap();
        assert_eq!(format!("\"{}\"", escape_text(&sample)), quoted);
    }
}

#[test]
fn the_fallback_line_is_always_one_json_object() {
    for complaint in ["\"", "\\", "a\nb", "\u{1}", "key must be a string", "\"}, {\"success\":true", ""] {
        let line = emit_response(Err(complaint.to_string()));
        assert!(!line.contains('\n'));
        let value: serde_json::Value = serde_json::from_str(&line).unwrap();
        let object = value.as_object().unwrap();
        assert_eq!(object.len(), 2);
        assert_eq!(object.get("success"), Some(&serde_json::Value::Bool(false)));
        assert_eq!(
            object.get("error"),
            Some(&serde_json::Value::String(format!("JSON serialization failed: {}", complaint)))
        );
    }
    assert_eq!(
        emit_response(Err("\"".to_string())),
        "{\"success\":false,\"error\":\"JSON serialization failed: \\\"\"}"
    );
}
