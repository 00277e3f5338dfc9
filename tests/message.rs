use ntfy::{NtfyAction, NtfyActionType, NtfyMsg, NtfyMsgBuilder, NtfyPriority, WireValue};

fn text(s: &str) -> WireValue {
    WireValue::Text(s.to_string())
}

fn keys(v: &WireValue) -> Vec<String> {
    match v {
        WireValue::Object(fields) => fields.iter().map(|(k, _)| k.clone()).collect(),
        _ => panic!("not an object: {:?}", v),
    }
}

#[test]
fn bare_message_encodes_only_topic() {
    let doc = NtfyMsg::new("alerts").to_wire();
    assert_eq!(keys(&doc), vec!["topic".to_string()]);
    assert_eq!(format!("{:?}", doc.get("topic")), format!("{:?}", Some(&text("alerts"))));
    assert!(doc.get("message").is_none());
    assert!(doc.get("priority").is_none());
}

#[test]
fn new_message_has_every_optional_field_absent() {
    let m = NtfyMsg::new("t");
    assert_eq!(m.topic, "t");
    assert!(m.message.is_none() && m.title.is_none() && m.tags.is_none());
    assert!(m.priority.is_none() && m.attach.is_none() && m.filename.is_none());
    assert!(m.click.is_none() && m.actions.is_none() && m.delay.is_none() && m.email.is_none());
}

#[test]
fn full_message_encodes_fields_in_order() {
    let m = NtfyMsg::builder("alerts")
        .message("body")
        .title("T")
        .add_tag("warning")
        .priority(NtfyPriority::Maximum)
        .attach("https://example.com/a.png")
        .filename("a.png")
        .click("https://example.com")
        .add_action(NtfyAction::new("Open".to_string(), "https://example.com/o".to_string()))
        .delay("30m")
        .email("me@example.com")
        .build();
    let doc = m.to_wire();
    assert_eq!(
        keys(&doc),
        vec![
            "topic", "message", "title", "tags", "priority", "attach", "filename", "click", "actions",
            "delay", "email"
        ]
    );
    match doc.get("priority") {
        Some(WireValue::Num(5)) => {}
        other => panic!("priority encoded as {:?}", other),
    }
    match doc.get("tags") {
        Some(WireValue::List(items)) => {
            assert_eq!(format!("{:?}", items), format!("{:?}", vec![text("warning")]))
        }
        other => panic!("tags encoded as {:?}", other),
    }
}

#[test]
fn explicit_default_priority_is_present() {
    let doc = NtfyMsg::builder("t").priority(NtfyPriority::Default).build().to_wire();
    match doc.get("priority") {
        Some(WireValue::Num(3)) => {}
        other => panic!("priority encoded as {:?}", other),
    }
}

#[test]
fn two_tag_appends_encode_like_tag_list() {
    let appended = NtfyMsg::builder("alerts").add_tag("a").add_tag("b").build();
    let whole = NtfyMsg::builder("alerts")
        .tags(vec!["a".to_string(), "b".to_string()])
        .build();
    assert_eq!(appended.tags, Some(vec!["a".to_string(), "b".to_string()]));
    assert_eq!(format!("{:?}", appended.to_wire()), format!("{:?}", whole.to_wire()));
}

#[test]
fn add_tag_extends_existing_list() {
    let m = NtfyMsg::builder("t").tags(vec!["x".to_string()]).add_tag("y").build();
    assert_eq!(m.tags, Some(vec!["x".to_string(), "y".to_string()]));
}

#[test]
fn builder_chain_matches_direct_construction() {
    let built = NtfyMsg::builder("alerts")
        .title("T")
        .message("M")
        .priority(NtfyPriority::High)
        .build();
    let mut direct = NtfyMsg::new("alerts");
    direct.title = Some("T".to_string());
    direct.message = Some("M".to_string());
    direct.priority = Some(NtfyPriority::High);
    assert_eq!(format!("{:?}", built), format!("{:?}", direct));
    assert_eq!(built.topic, "alerts");
    assert_eq!(built.title.as_deref(), Some("T"));
    assert_eq!(built.message.as_deref(), Some("M"));
    assert_eq!(built.priority, Some(NtfyPriority::High));
    assert!(built.tags.is_none() && built.attach.is_none() && built.actions.is_none());
}

#[test]
fn builder_last_write_wins() {
    let m = NtfyMsg::builder("a").topic("b").title("x").title("y").build();
    assert_eq!(m.topic, "b");
    assert_eq!(m.title.as_deref(), Some("y"));
}

#[test]
fn builder_sets_remaining_fields() {
    let actions = vec![NtfyAction::new("L".to_string(), "U".to_string())];
    let m = NtfyMsgBuilder::new("t")
        .attach("att")
        .filename("f.txt")
        .click("c")
        .actions(actions)
        .add_action(NtfyAction::new("L2".to_string(), "U2".to_string()))
        .delay("tomorrow")
        .email("e@x")
        .build();
    assert_eq!(m.attach.as_deref(), Some("att"));
    assert_eq!(m.filename.as_deref(), Some("f.txt"));
    assert_eq!(m.click.as_deref(), Some("c"));
    assert_eq!(m.delay.as_deref(), Some("tomorrow"));
    assert_eq!(m.email.as_deref(), Some("e@x"));
    let acts = m.actions.unwrap();
    assert_eq!(acts.len(), 2);
    assert_eq!(acts[0].label, "L");
    assert_eq!(acts[1].label, "L2");
}

#[test]
fn outbound_actions_use_plural_name() {
    let m = NtfyMsg::builder("t")
        .add_action(NtfyAction::new("Open".to_string(), "https://x".to_string()))
        .build();
    let doc = m.to_wire();
    assert!(doc.get("actions").is_some());
    assert!(doc.get("action").is_none());
    match doc.get("actions") {
        Some(WireValue::List(items)) => {
            assert_eq!(items.len(), 1);
            assert_eq!(keys(&items[0]), vec!["action", "label", "url"]);
            let back = NtfyAction::from_wire(&items[0]).unwrap();
            assert_eq!(back.action, NtfyActionType::View);
            assert_eq!(back.label, "Open");
            assert_eq!(back.url, "https://x");
            assert_eq!(back.clear, None);
        }
        other => panic!("actions encoded as {:?}", other),
    }
}

#[test]
fn action_new_defaults() {
    let a = NtfyAction::new("L".to_string(), "U".to_string());
    assert_eq!(a.action, NtfyActionType::View);
    assert_eq!(a.clear, None);
    assert_eq!(NtfyActionType::default(), NtfyActionType::View);
}

#[test]
fn action_with_clear_round_trips() {
    let mut a = NtfyAction::new("L".to_string(), "U".to_string());
    a.clear = Some(true);
    let doc = a.to_wire();
    assert_eq!(keys(&doc), vec!["action", "label", "url", "clear"]);
    match doc.get("action") {
        Some(WireValue::Text(s)) => assert_eq!(s, "view"),
        other => panic!("kind encoded as {:?}", other),
    }
    let back = NtfyAction::from_wire(&doc).unwrap();
    assert_eq!(back.clear, Some(true));
}

#[test]
fn unknown_action_kind_is_kept() {
    let doc = WireValue::Object(vec![
        ("action".to_string(), text("broadcast")),
        ("label".to_string(), text("L")),
        ("url".to_string(), text("U")),
    ]);
    let a = NtfyAction::from_wire(&doc).unwrap();
    assert_eq!(a.action, NtfyActionType::Other("broadcast".to_string()));
    assert_eq!(a.action.name(), "broadcast");
}

#[test]
fn action_missing_label_is_an_error() {
    let doc = WireValue::Object(vec![
        ("action".to_string(), text("view")),
        ("url".to_string(), text("U")),
    ]);
    assert!(NtfyAction::from_wire(&doc).is_err());
}
