use ntfy::{DecodeError, NtfyActionType, NtfyErrorResponse, NtfyPriority, NtfyResponse, WireValue};

fn text(s: &str) -> WireValue {
    WireValue::Text(s.to_string())
}

fn obj(fields: Vec<(&str, WireValue)>) -> WireValue {
    WireValue::Object(fields.into_iter().map(|(k, v)| (k.to_string(), v)).collect())
}

fn event_fields() -> Vec<(&'static str, WireValue)> {
    vec![
        ("id", text("sPs71M8A2T")),
        ("time", WireValue::Num(1643935928)),
        ("event", text("message")),
        ("topic", text("mytopic")),
    ]
}

#[test]
fn response_without_attachment_decodes() {
    let mut f = event_fields();
    f.push(("message", text("hi")));
    let r = NtfyResponse::from_wire(&obj(f)).unwrap();
    assert_eq!(r.id, "sPs71M8A2T");
    assert_eq!(r.time, 1643935928);
    assert_eq!(r.event, "message");
    assert_eq!(r.topic, "mytopic");
    assert_eq!(r.message.as_deref(), Some("hi"));
    assert!(r.attachment.is_none());
    assert!(r.title.is_none() && r.tags.is_none() && r.priority.is_none());
    assert!(r.click.is_none() && r.action.is_none());
}

#[test]
fn response_missing_id_fails() {
    let f: Vec<_> = event_fields().into_iter().filter(|(k, _)| *k != "id").collect();
    assert_eq!(NtfyResponse::from_wire(&obj(f)).unwrap_err(), DecodeError::Malformed);
}

#[test]
fn response_with_wrong_shape_fails() {
    let mut f = event_fields();
    f[1] = ("time", text("yesterday"));
    assert!(NtfyResponse::from_wire(&obj(f)).is_err());
    let mut g = event_fields();
    g.push(("tags", WireValue::List(vec![text("a"), WireValue::Num(1)])));
    assert!(NtfyResponse::from_wire(&obj(g)).is_err());
    assert!(NtfyResponse::from_wire(&text("not an object")).is_err());
}

#[test]
fn response_unknown_event_kind_decodes() {
    let mut f = event_fields();
    f[2] = ("event", text("poll_request_v9"));
    let r = NtfyResponse::from_wire(&obj(f)).unwrap();
    assert_eq!(r.event, "poll_request_v9");
}

#[test]
fn response_null_optional_is_absent() {
    let mut f = event_fields();
    f.push(("title", WireValue::Null));
    f.push(("attachment", WireValue::Null));
    let r = NtfyResponse::from_wire(&obj(f)).unwrap();
    assert!(r.title.is_none());
    assert!(r.attachment.is_none());
}

#[test]
fn response_with_attachment_and_tags() {
    let mut f = event_fields();
    f.push(("tags", WireValue::List(vec![text("warning"), text("skull")])));
    f.push((
        "attachment",
        obj(vec![
            ("name", text("flower.jpg")),
            ("url", text("https://ntfy.sh/file/abc.jpg")),
            ("type", text("image/jpeg")),
            ("size", WireValue::Num(15398)),
            ("expires", WireValue::Num(1643946728)),
        ]),
    ));
    let r = NtfyResponse::from_wire(&obj(f)).unwrap();
    assert_eq!(r.tags, Some(vec!["warning".to_string(), "skull".to_string()]));
    let a = r.attachment.unwrap();
    assert_eq!(a.name, "flower.jpg");
    assert_eq!(a.url, "https://ntfy.sh/file/abc.jpg");
    assert_eq!(a.mime_type.as_deref(), Some("image/jpeg"));
    assert_eq!(a.size, Some(15398));
    assert_eq!(a.expires, Some(1643946728));
}

#[test]
fn response_attachment_missing_url_fails() {
    let mut f = event_fields();
    f.push(("attachment", obj(vec![("name", text("x"))])));
    assert!(NtfyResponse::from_wire(&obj(f)).is_err());
}

#[test]
fn response_priority_is_forgiving() {
    let cases: Vec<(WireValue, NtfyPriority)> = vec![
        (WireValue::Num(1), NtfyPriority::Minimum),
        (WireValue::Num(4), NtfyPriority::High),
        (WireValue::Num(3), NtfyPriority::Default),
        (WireValue::Num(0), NtfyPriority::Default),
        (WireValue::Num(255), NtfyPriority::Default),
        (WireValue::Num(1000), NtfyPriority::Default),
        (WireValue::Signed(-2), NtfyPriority::Default),
        (text("high"), NtfyPriority::Default),
    ];
    for (v, want) in cases {
        let mut f = event_fields();
        f.push(("priority", v));
        let r = NtfyResponse::from_wire(&obj(f)).unwrap();
        assert_eq!(r.priority, Some(want));
    }
}

#[test]
fn inbound_actions_use_singular_name() {
    let action = obj(vec![
        ("action", text("view")),
        ("label", text("Open")),
        ("url", text("https://x")),
        ("clear", WireValue::Bool(true)),
    ]);
    let mut f = event_fields();
    f.push(("action", WireValue::List(vec![action])));
    let r = NtfyResponse::from_wire(&obj(f)).unwrap();
    let acts = r.action.unwrap();
    assert_eq!(acts.len(), 1);
    assert_eq!(acts[0].action, NtfyActionType::View);
    assert_eq!(acts[0].label, "Open");
    assert_eq!(acts[0].clear, Some(true));

    let plural = obj(vec![("action", text("view")), ("label", text("L")), ("url", text("U"))]);
    let mut g = event_fields();
    g.push(("actions", WireValue::List(vec![plural])));
    let r2 = NtfyResponse::from_wire(&obj(g)).unwrap();
    assert!(r2.action.is_none());
}

#[test]
fn error_response_reads_all_fields() {
    let doc = obj(vec![
        ("code", WireValue::Num(40101)),
        ("http", WireValue::Num(401)),
        ("error", text("unauthorized")),
        ("link", text("https://ntfy.sh/docs/publish/#authentication")),
    ]);
    let e = NtfyErrorResponse::from_wire(&doc).unwrap();
    assert_eq!(e.code, 40101);
    assert_eq!(e.http, 401);
    assert_ne!(e.code, e.http as u64);
    assert_eq!(e.error, "unauthorized");
    assert_eq!(e.link, "https://ntfy.sh/docs/publish/#authentication");
}

#[test]
fn error_response_http_out_of_range_fails() {
    let doc = obj(vec![
        ("code", WireValue::Num(1)),
        ("http", WireValue::Num(70000)),
        ("error", text("e")),
        ("link", text("l")),
    ]);
    assert!(NtfyErrorResponse::from_wire(&doc).is_err());
}

#[test]
fn error_response_missing_link_fails() {
    let doc = obj(vec![
        ("code", WireValue::Num(1)),
        ("http", WireValue::Num(500)),
        ("error", text("e")),
    ]);
    assert!(NtfyErrorResponse::from_wire(&doc).is_err());
}

#[test]
fn first_field_of_a_name_is_read() {
    let doc = obj(vec![("k", text("first")), ("k", text("second"))]);
    match doc.get("k") {
        Some(WireValue::Text(s)) => assert_eq!(s, "first"),
        other => panic!("got {:?}", other),
    }
    assert!(doc.get("missing").is_none());
    assert!(text("x").get("k").is_none());
}
