use pprefox_rs::envelope::{decimal_text, decode_reply, query_text, DecodeError, ReplyFields, RequestType};
use pprefox_rs::json::{ExtensionRequest, ExtensionResponse, Tab, TabQuery, Theme};

fn text(cmd: &RequestType, id: &str) -> String {
    String::from_utf8(cmd.serialize(id.to_string()).unwrap()).unwrap()
}

#[test]
fn set_theme_envelope() {
    let bytes = RequestType::SetTheme("dark".to_string()).serialize("u-1".to_string()).unwrap();
    let v: serde_json::Value = serde_json::from_slice(&bytes).unwrap();
    let obj = v.as_object().unwrap();
    assert_eq!(obj.len(), 3);
    assert_eq!(obj["uuid"], serde_json::Value::String("u-1".to_string()));
    assert_eq!(obj["command"], serde_json::Value::String("set_theme".to_string()));
    assert_eq!(obj["theme_id"], serde_json::Value::String("dark".to_string()));
    assert!(obj.get("query").is_none());
    assert!(obj.get("index").is_none());
    assert_eq!(
        String::from_utf8(bytes).unwrap(),
        "{\"uuid\":\"u-1\",\"command\":\"set_theme\",\"theme_id\":\"dark\"}"
    );
}

#[test]
fn list_themes_envelope() {
    assert_eq!(text(&RequestType::ListThemes, "a"), "{\"uuid\":\"a\",\"command\":\"list_themes\"}");
}

#[test]
fn swap_tab_envelope() {
    assert_eq!(
        text(&RequestType::SwapTab(12345), "a"),
        "{\"uuid\":\"a\",\"command\":\"select_tab\",\"index\":12345}"
    );
}

#[test]
fn list_tabs_envelope() {
    let q = TabQuery { active: Some(true), ..TabQuery::default() };
    assert_eq!(
        text(&RequestType::ListTabs(q), "a"),
        "{\"uuid\":\"a\",\"command\":\"list_tabs\",\"query\":{\"active\":true}}"
    );
}

#[test]
fn full_query_text() {
    let q = TabQuery {
        active: Some(false),
        attention: Some(true),
        audible: Some(false),
        current_window: Some(true),
        index: Some(0),
        muted: Some(true),
        pinned: Some(false),
        title: Some("t".to_string()),
        url: Some("u".to_string()),
        window_id: Some("w".to_string()),
        window_type: Some("normal".to_string()),
    };
    assert_eq!(
        query_text(&q),
        "{\"active\":false,\"attention\":true,\"audible\":false,\"currentWindow\":true,\"index\":0,\"muted\":true,\"pinned\":false,\"title\":\"t\",\"url\":\"u\",\"windowId\":\"w\",\"windowType\":\"normal\"}"
    );
    assert_eq!(query_text(&TabQuery::default()), "{}");
}

#[test]
fn strings_are_escaped() {
    let t = text(&RequestType::SetTheme("a\"b\\c\n".to_string()), "a");
    assert_eq!(t, "{\"uuid\":\"a\",\"command\":\"set_theme\",\"theme_id\":\"a\\\"b\\\\c\\n\"}");
    let v: serde_json::Value = serde_json::from_str(&t).unwrap();
    assert_eq!(v["theme_id"], serde_json::Value::String("a\"b\\c\n".to_string()));
}

#[test]
fn decimal_digits() {
    assert_eq!(decimal_text(0), "0");
    assert_eq!(decimal_text(9), "9");
    assert_eq!(decimal_text(10), "10");
    assert_eq!(decimal_text(65535), "65535");
}

#[test]
fn envelope_round_trip_through_peer_parse() {
    let q = TabQuery { pinned: Some(true), title: Some("x y".to_string()), ..TabQuery::default() };
    let cmds = vec![
        RequestType::ListThemes,
        RequestType::SetTheme("light".to_string()),
        RequestType::ListTabs(q),
        RequestType::SwapTab(3),
    ];
    for cmd in cmds {
        let bytes = cmd.serialize("id-9".to_string()).unwrap();
        let v: serde_json::Value = serde_json::from_slice(&bytes).unwrap();
        let obj = v.as_object().unwrap();
        assert_eq!(obj["uuid"].as_str().unwrap(), "id-9");
        for (_, value) in obj.iter() {
            assert!(!value.is_null());
        }
        let req = ExtensionRequest {
            uuid: obj["uuid"].as_str().unwrap().to_string(),
            command: obj["command"].as_str().unwrap().to_string(),
            theme_id: obj.get("theme_id").map(|t| t.as_str().unwrap().to_string()),
            query: obj.get("query").map(|q| TabQuery {
                active: q.get("active").and_then(|b| b.as_bool()),
                attention: q.get("attention").and_then(|b| b.as_bool()),
                audible: q.get("audible").and_then(|b| b.as_bool()),
                current_window: q.get("currentWindow").and_then(|b| b.as_bool()),
                index: q.get("index").and_then(|n| n.as_u64()).map(|n| n as u16),
                muted: q.get("muted").and_then(|b| b.as_bool()),
                pinned: q.get("pinned").and_then(|b| b.as_bool()),
                title: q.get("title").and_then(|s| s.as_str()).map(|s| s.to_string()),
                url: q.get("url").and_then(|s| s.as_str()).map(|s| s.to_string()),
                window_id: q.get("windowId").and_then(|s| s.as_str()).map(|s| s.to_string()),
                window_type: q.get("windowType").and_then(|s| s.as_str()).map(|s| s.to_string()),
            }),
            index: obj.get("index").map(|n| n.as_u64().unwrap() as u16),
        };
        assert_eq!(req.into_command(), Some(cmd));
    }
}

#[test]
fn request_round_trip() {
    let cmd = RequestType::SwapTab(4);
    let req = cmd.clone().into_request("k".to_string());
    assert_eq!(req.command, "select_tab");
    assert_eq!(req.index, Some(4));
    assert_eq!(req.theme_id, None);
    assert_eq!(req.query, None);
    assert_eq!(req.into_command(), Some(cmd));
}

#[test]
fn unknown_tag_reads_as_no_command() {
    let req = ExtensionRequest {
        uuid: "k".to_string(),
        command: "reload".to_string(),
        theme_id: None,
        query: None,
        index: None,
    };
    assert_eq!(req.into_command(), None);
    let missing = ExtensionRequest {
        uuid: "k".to_string(),
        command: "set_theme".to_string(),
        theme_id: None,
        query: None,
        index: None,
    };
    assert_eq!(missing.into_command(), None);
}

#[test]
fn decode_reply_errors_and_success() {
    assert_eq!(decode_reply(None), Err(DecodeError::Malformed));
    let no_id = ReplyFields { uuid: None, themes: None, success: Some(true), tabs: None };
    assert_eq!(decode_reply(Some(no_id)), Err(DecodeError::MissingIdentity));
    let themes = vec![Theme { name: "Dark".to_string(), id: "d".to_string() }];
    let ok = ReplyFields { uuid: Some("z".to_string()), themes: Some(themes.clone()), success: None, tabs: None };
    assert_eq!(
        decode_reply(Some(ok)),
        Ok(ExtensionResponse { uuid: "z".to_string(), themes: Some(themes), success: None, tabs: None })
    );
    let ack = ReplyFields { uuid: Some("y".to_string()), themes: None, success: None, tabs: None };
    let tabs: Option<Vec<Tab>> = None;
    assert_eq!(
        decode_reply(Some(ack)),
        Ok(ExtensionResponse { uuid: "y".to_string(), themes: None, success: None, tabs })
    );
}

#[test]
fn list_tabs_camel_case_and_empty_query() {
    let q = TabQuery {
        current_window: Some(false),
        window_id: Some("7".to_string()),
        window_type: Some("normal".to_string()),
        ..TabQuery::default()
    };
    assert_eq!(
        text(&RequestType::ListTabs(q), "u"),
        "{\"uuid\":\"u\",\"command\":\"list_tabs\",\"query\":{\"currentWindow\":false,\"windowId\":\"7\",\"windowType\":\"normal\"}}"
    );
    assert_eq!(
        text(&RequestType::ListTabs(TabQuery::default()), "u"),
        "{\"uuid\":\"u\",\"command\":\"list_tabs\",\"query\":{}}"
    );
}

#[test]
fn serialize_is_deterministic() {
    let cmd = RequestType::SetTheme("é \u{1}".to_string());
    assert_eq!(cmd.serialize("u".to_string()), cmd.serialize("u".to_string()));
    assert_eq!(text(&cmd, "u"), "{\"uuid\":\"u\",\"command\":\"set_theme\",\"theme_id\":\"é \\u0001\"}");
}
