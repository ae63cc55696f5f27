use simple_api::{eavs, respond, root, status_message_json, text_eq, Method};

const ROOT_BODY: &str = "{\"status\":\"success\",\"message\":\"Simple API\"}";
const EAVS_BODY: &str = "{\"status\":\"hell yeah\",\"message\":\"eavs endpoint\"}";

#[test]
fn root_handler_returns_success_object() {
    let r = root();
    assert_eq!(r.status, 200);
    assert_eq!(r.body.as_deref(), Some(ROOT_BODY));
}

#[test]
fn eavs_handler_returns_eavs_object() {
    let r = eavs();
    assert_eq!(r.status, 200);
    assert_eq!(r.body.as_deref(), Some(EAVS_BODY));
}

#[test]
fn get_root_is_answered() {
    let r = respond(Method::Get, "/");
    assert_eq!(r.status, 200);
    assert_eq!(r.body.as_deref(), Some(ROOT_BODY));
}

#[test]
fn get_eavs_is_answered() {
    let r = respond(Method::Get, "/eavs");
    assert_eq!(r.status, 200);
    assert_eq!(r.body.as_deref(), Some(EAVS_BODY));
}

#[test]
fn head_follows_get() {
    let r = respond(Method::Head, "/eavs");
    assert_eq!(r.status, 200);
    assert_eq!(r.body.as_deref(), Some(EAVS_BODY));
}

#[test]
fn repeated_requests_give_identical_bodies() {
    for path in ["/", "/eavs", "/missing"] {
        let a = respond(Method::Get, path);
        let b = respond(Method::Get, path);
        assert_eq!(a.status, b.status);
        assert_eq!(a.body, b.body);
    }
}

#[test]
fn other_method_on_known_path_is_405() {
    let r = respond(Method::Other, "/");
    assert_eq!(r.status, 405);
    assert!(r.body.is_none());
    let r = respond(Method::Other, "/eavs");
    assert_eq!(r.status, 405);
    assert!(r.body.is_none());
}

#[test]
fn undefined_routes_are_404() {
    for path in ["", "/eavs/", "/EAVS", "/eav", "/eavsx", "//", "/other"] {
        let r = respond(Method::Get, path);
        assert_eq!(r.status, 404, "path {:?}", path);
        assert!(r.body.is_none());
        let r = respond(Method::Other, path);
        assert!(!(200..300).contains(&r.status));
    }
}

fn message_of(m: &str) -> String {
    format!("{{\"status\":\"\",\"message\":{}}}", m)
}

#[test]
fn member_text_is_quoted_as_is_when_plain() {
    assert_eq!(status_message_json("", "Simple API"), message_of("\"Simple API\""));
    assert_eq!(status_message_json("", ""), message_of("\"\""));
    assert_eq!(status_message_json("", "héllo ✓"), message_of("\"héllo ✓\""));
    assert_eq!(status_message_json("", "\u{7f}/"), message_of("\"\u{7f}/\""));
}

#[test]
fn member_text_escapes_specials() {
    assert_eq!(status_message_json("", "a\"b\\c"), message_of("\"a\\\"b\\\\c\""));
    assert_eq!(status_message_json("", "\n\r\t\u{8}\u{c}"), message_of("\"\\n\\r\\t\\b\\f\""));
    assert_eq!(status_message_json("", "\u{1}\u{1f}"), message_of("\"\\u0001\\u001f\""));
}

#[test]
fn status_message_json_frames_members_in_order() {
    assert_eq!(status_message_json("ok", "a\"b"), "{\"status\":\"ok\",\"message\":\"a\\\"b\"}");
    assert_eq!(status_message_json("", ""), "{\"status\":\"\",\"message\":\"\"}");
}

#[test]
fn text_eq_compares_characters() {
    assert!(text_eq("/eavs", "/eavs"));
    assert!(text_eq("", ""));
    assert!(!text_eq("/eavs", "/eav"));
    assert!(!text_eq("/", "/eavs"));
    assert!(!text_eq("é", "e"));
}
