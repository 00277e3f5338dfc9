use vstd::prelude::*;
use crate::priority::{NtfyPriority, priority_code};
use crate::wire::{
    DecodeError, Doc, WireValue, entries, field, get, lemma_field_concat, lemma_field_opt_entry,
    lemma_list_doc, lemma_object_doc, opt_bool, opt_entry, opt_string, opt_strings, opt_text_doc,
    opt_value_doc, req_text, strings, text_list_doc,
};

verus! {

/// What an action button does.
#[derive(Debug)]
pub enum NtfyActionType {
    /// Opens a URL.
    View,
    /// A kind that this library does not know, kept by its name so that
    /// documents from newer services still decode.
    Other(String),
}

/// The mathematical form of an action kind.
pub enum ActionKind {
    View,
    Other(Seq<char>),
}

impl View for NtfyActionType {
    type V = ActionKind;

    open spec fn view(&self) -> ActionKind {
        match self {
            NtfyActionType::View => ActionKind::View,
            NtfyActionType::Other(s) => ActionKind::Other(s@),
        }
    }
}

/// The name under which an action kind travels.
pub open spec fn kind_text(k: ActionKind) -> Seq<char> {
    match k {
        ActionKind::View => "view"@,
        ActionKind::Other(s) => s,
    }
}

/// The action kind that a name read from the wire stands for.
pub open spec fn kind_of_text(t: Seq<char>) -> ActionKind {
    if t == "view"@ {
        ActionKind::View
    } else {
        ActionKind::Other(t)
    }
}

impl Default for NtfyActionType {
    fn default() -> (r: Self)
        ensures
            r@ == ActionKind::View,
    {
        NtfyActionType::View
    }
}

impl Clone for NtfyActionType {
    fn clone(&self) -> (r: Self)
        ensures
            r@ == self@,
    {
        match self {
            NtfyActionType::View => NtfyActionType::View,
            NtfyActionType::Other(s) => NtfyActionType::Other(s.clone()),
        }
    }
}

impl PartialEq for NtfyActionType {
    fn eq(&self, o: &NtfyActionType) -> (r: bool) {
        match (self, o) {
            (NtfyActionType::View, NtfyActionType::View) => true,
            (NtfyActionType::Other(a), NtfyActionType::Other(b)) => *a == *b,
            _ => false,
        }
    }
}

impl vstd::std_specs::cmp::PartialEqSpecImpl for NtfyActionType {
    open spec fn obeys_eq_spec() -> bool {
        true
    }

    open spec fn eq_spec(&self, o: &NtfyActionType) -> bool {
        self@ == o@
    }
}

impl NtfyActionType {
    /// The name under which this kind travels.
    pub fn name(&self) -> (r: String)
        ensures
            r@ == kind_text(self@),
    {
        match self {
            NtfyActionType::View => "view".to_owned(),
            NtfyActionType::Other(s) => s.clone(),
        }
    }

    /// The kind named by `t`; an unknown name is kept as `Other`.
    pub fn from_name(t: String) -> (r: NtfyActionType)
        ensures
            r@ == kind_of_text(t@),
    {
        let view = "view".to_owned();
        if t == view {
            NtfyActionType::View
        } else {
            NtfyActionType::Other(t)
        }
    }
}

/// An interactive button attached to a notification.
#[derive(Debug)]
pub struct NtfyAction {
    pub action: NtfyActionType,
    pub label: String,
    pub url: String,
    pub clear: Option<bool>,
}

/// The mathematical form of an action.
pub struct ActionView {
    pub action: ActionKind,
    pub label: Seq<char>,
    pub url: Seq<char>,
    pub clear: Option<bool>,
}

impl View for NtfyAction {
    type V = ActionView;

    open spec fn view(&self) -> ActionView {
        ActionView { action: self.action@, label: self.label@, url: self.url@, clear: self.clear }
    }
}

/// The actions of a vector, in order.
pub open spec fn action_views(v: Seq<NtfyAction>) -> Seq<ActionView> {
    v.map_values(|a: NtfyAction| a@)
}

pub open spec fn opt_bool_doc(o: Option<bool>) -> Option<Doc> {
    match o {
        Some(b) => Some(Doc::Bool(b)),
        None => None,
    }
}

/// The document of an action: `action`, `label` and `url`, then `clear`
/// when it is set.
pub open spec fn action_doc(a: ActionView) -> Doc {
    Doc::Object(
        seq![
            ("action"@, Doc::Text(kind_text(a.action))),
            ("label"@, Doc::Text(a.label)),
            ("url"@, Doc::Text(a.url)),
        ] + opt_entry("clear"@, opt_bool_doc(a.clear)),
    )
}

/// The document of a list of actions, in order.
pub open spec fn actions_doc(s: Seq<ActionView>) -> Doc {
    Doc::List(s.map_values(|a: ActionView| action_doc(a)))
}

/// An action read from a document: `action`, `label` and `url` are
/// required text, `clear` an optional boolean.
pub open spec fn decode_action(d: Doc) -> Option<ActionView> {
    match (req_text(d, "action"@), req_text(d, "label"@), req_text(d, "url"@), opt_bool(d, "clear"@)) {
        (Some(k), Some(l), Some(u), Some(c)) => Some(
            ActionView { action: kind_of_text(k), label: l, url: u, clear: c },
        ),
        _ => None,
    }
}

/// A list of actions read from a document: a list whose every item reads
/// as an action.
pub open spec fn decode_actions(d: Doc) -> Option<Seq<ActionView>> {
    match d {
        Doc::List(items) => if forall|i: int|
            0 <= i < items.len() ==> decode_action(#[trigger] items[i]) is Some {
            Some(items.map_values(|x: Doc| decode_action(x)->0))
        } else {
            None
        },
        _ => None,
    }
}

/// An optional field that holds a list of actions.
pub open spec fn opt_actions(d: Doc, key: Seq<char>) -> Option<Option<Seq<ActionView>>> {
    match get(d, key) {
        None => Some(None),
        Some(Doc::Null) => Some(None),
        Some(x) => match decode_actions(x) {
            Some(v) => Some(Some(v)),
            None => None,
        },
    }
}

impl Default for NtfyAction {
    fn default() -> (r: Self)
        ensures
            r@ == (ActionView { action: ActionKind::View, label: Seq::empty(), url: Seq::empty(), clear: None }),
    {
        NtfyAction { action: NtfyActionType::View, label: String::new(), url: String::new(), clear: None }
    }
}

impl Clone for NtfyAction {
    fn clone(&self) -> (r: Self)
        ensures
            r@ == self@,
    {
        NtfyAction {
            action: self.action.clone(),
            label: self.label.clone(),
            url: self.url.clone(),
            clear: self.clear,
        }
    }
}

impl NtfyAction {
    /// A button that opens `url`, labelled `label`, with `clear` unset.
    pub fn new(label: String, url: String) -> (r: NtfyAction)
        ensures
            r@ == (ActionView { action: ActionKind::View, label: label@, url: url@, clear: None }),
    {
        NtfyAction { action: NtfyActionType::View, label, url, clear: None }
    }

    /// The document of this action.
    pub fn to_wire(&self) -> (r: WireValue)
        ensures
            r.doc() == action_doc(self@),
    {
        let mut fields: Vec<(String, WireValue)> = Vec::new();
        WireValue::push_field(&mut fields, "action", WireValue::Text(self.action.name()));
        WireValue::push_field(&mut fields, "label", WireValue::Text(self.label.clone()));
        WireValue::push_field(&mut fields, "url", WireValue::Text(self.url.clone()));
        match self.clear {
            Some(b) => WireValue::push_field(&mut fields, "clear", WireValue::Bool(b)),
            None => {},
        }
        proof {
            lemma_object_doc(fields);
            assert(entries(fields@) =~= action_doc(self@)->Object_0);
        }
        WireValue::Object(fields)
    }

    /// Reads an action from a document.
    pub fn from_wire(v: &WireValue) -> (r: Result<NtfyAction, DecodeError>)
        ensures
            match r {
                Ok(a) => decode_action(v.doc()) == Some(a@),
                Err(_) => decode_action(v.doc()) is None,
            },
    {
        let kind = match v.req_text("action") {
            Ok(k) => k,
            Err(e) => return Err(e),
        };
        let label = match v.req_text("label") {
            Ok(l) => l,
            Err(e) => return Err(e),
        };
        let url = match v.req_text("url") {
            Ok(u) => u,
            Err(e) => return Err(e),
        };
        let clear = match v.opt_bool("clear") {
            Ok(c) => c,
            Err(e) => return Err(e),
        };
        Ok(NtfyAction { action: NtfyActionType::from_name(kind), label, url, clear })
    }
}

/// Reads a list of actions.
pub fn actions_from_wire(v: &WireValue) -> (r: Result<Vec<NtfyAction>, DecodeError>)
    ensures
        match r {
            Ok(l) => decode_actions(v.doc()) == Some(action_views(l@)),
            Err(_) => decode_actions(v.doc()) is None,
        },
{
    match v {
        WireValue::List(items) => {
            proof {
                lemma_list_doc(*items);
            }
            let ghost ds = v.doc()->List_0;
            let mut out: Vec<NtfyAction> = Vec::new();
            let mut i: usize = 0;
            while i < items.len()
                invariant
                    0 <= i <= items.len(),
                    ds == items@.map_values(|x: WireValue| x.doc()),
                    v.doc() == Doc::List(ds),
                    out@.len() == i,
                    forall|j: int| 0 <= j < i ==> decode_action(#[trigger] ds[j]) == Some(out@[j]@),
                decreases items.len() - i,
            {
                match NtfyAction::from_wire(&items[i]) {
                    Ok(a) => out.push(a),
                    Err(e) => {
                        assert(decode_action(ds[i as int]) is None);
                        return Err(e);
                    },
                }
                i = i + 1;
            }
            assert(ds.map_values(|x: Doc| decode_action(x)->0) =~= action_views(out@));
            Ok(out)
        },
        _ => Err(DecodeError::Malformed),
    }
}

/// The document of a list of actions.
pub fn actions_to_wire(v: &Vec<NtfyAction>) -> (r: WireValue)
    ensures
        r.doc() == actions_doc(action_views(v@)),
{
    let mut out: Vec<WireValue> = Vec::new();
    let mut i: usize = 0;
    while i < v.len()
        invariant
            0 <= i <= v.len(),
            out@.len() == i,
            forall|j: int| 0 <= j < i ==> (#[trigger] out@[j]).doc() == action_doc(v@[j]@),
        decreases v.len() - i,
    {
        out.push(v[i].to_wire());
        i = i + 1;
    }
    proof {
        lemma_list_doc(out);
        assert(out@.map_values(|x: WireValue| x.doc()) =~= action_views(v@).map_values(
            |a: ActionView| action_doc(a),
        ));
    }
    WireValue::List(out)
}

/// One notification send request.
#[derive(Debug, Clone)]
pub struct NtfyMsg {
    pub topic: String,
    pub message: Option<String>,
    pub title: Option<String>,
    pub tags: Option<Vec<String>>,
    pub priority: Option<NtfyPriority>,
    pub attach: Option<String>,
    pub filename: Option<String>,
    pub click: Option<String>,
    pub actions: Option<Vec<NtfyAction>>,
    pub delay: Option<String>,
    pub email: Option<String>,
}

/// The mathematical form of a send request.
pub struct MsgView {
    pub topic: Seq<char>,
    pub message: Option<Seq<char>>,
    pub title: Option<Seq<char>>,
    pub tags: Option<Seq<Seq<char>>>,
    pub priority: Option<NtfyPriority>,
    pub attach: Option<Seq<char>>,
    pub filename: Option<Seq<char>>,
    pub click: Option<Seq<char>>,
    pub actions: Option<Seq<ActionView>>,
    pub delay: Option<Seq<char>>,
    pub email: Option<Seq<char>>,
}

/// The actions of an optional vector.
pub open spec fn opt_action_views(o: Option<Vec<NtfyAction>>) -> Option<Seq<ActionView>> {
    match o {
        Some(v) => Some(action_views(v@)),
        None => None,
    }
}

impl View for NtfyMsg {
    type V = MsgView;

    open spec fn view(&self) -> MsgView {
        MsgView {
            topic: self.topic@,
            message: opt_string(self.message),
            title: opt_string(self.title),
            tags: opt_strings(self.tags),
            priority: self.priority,
            attach: opt_string(self.attach),
            filename: opt_string(self.filename),
            click: opt_string(self.click),
            actions: opt_action_views(self.actions),
            delay: opt_string(self.delay),
            email: opt_string(self.email),
        }
    }
}

/// A request for `topic` with every optional field absent.
pub open spec fn bare_msg(topic: Seq<char>) -> MsgView {
    MsgView {
        topic,
        message: None,
        title: None,
        tags: None,
        priority: None,
        attach: None,
        filename: None,
        click: None,
        actions: None,
        delay: None,
        email: None,
    }
}

pub open spec fn opt_tags_doc(o: Option<Seq<Seq<char>>>) -> Option<Doc> {
    match o {
        Some(t) => Some(text_list_doc(t)),
        None => None,
    }
}

/// A level travels as its integer.
pub open spec fn opt_priority_doc(o: Option<NtfyPriority>) -> Option<Doc> {
    match o {
        Some(p) => Some(Doc::Num(priority_code(p) as int)),
        None => None,
    }
}

pub open spec fn opt_actions_doc(o: Option<Seq<ActionView>>) -> Option<Doc> {
    match o {
        Some(a) => Some(actions_doc(a)),
        None => None,
    }
}

/// The document of a send request: `topic` first, then each optional
/// field that is present, in declaration order; an absent field leaves no
/// entry at all.
pub open spec fn msg_doc(m: MsgView) -> Doc {
    Doc::Object(
        seq![("topic"@, Doc::Text(m.topic))]
            + opt_entry("message"@, opt_text_doc(m.message))
            + opt_entry("title"@, opt_text_doc(m.title))
            + opt_entry("tags"@, opt_tags_doc(m.tags))
            + opt_entry("priority"@, opt_priority_doc(m.priority))
            + opt_entry("attach"@, opt_text_doc(m.attach))
            + opt_entry("filename"@, opt_text_doc(m.filename))
            + opt_entry("click"@, opt_text_doc(m.click))
            + opt_entry("actions"@, opt_actions_doc(m.actions))
            + opt_entry("delay"@, opt_text_doc(m.delay))
            + opt_entry("email"@, opt_text_doc(m.email)),
    )
}

impl Default for NtfyMsg {
    fn default() -> (r: Self)
        ensures
            r@ == bare_msg(Seq::empty()),
    {
        NtfyMsg {
            topic: String::new(),
            message: None,
            title: None,
            tags: None,
            priority: None,
            attach: None,
            filename: None,
            click: None,
            actions: None,
            delay: None,
            email: None,
        }
    }
}

impl NtfyMsg {
    /// A request for `topic` with every optional field absent.
    pub fn new(topic: &str) -> (r: NtfyMsg)
        ensures
            r@ == bare_msg(topic@),
    {
        NtfyMsg {
            topic: topic.to_owned(),
            message: None,
            title: None,
            tags: None,
            priority: None,
            attach: None,
            filename: None,
            click: None,
            actions: None,
            delay: None,
            email: None,
        }
    }

    /// The document of this request.
    pub fn to_wire(&self) -> (r: WireValue)
        ensures
            r.doc() == msg_doc(self@),
    {
        let ghost m = self@;
        let mut fields: Vec<(String, WireValue)> = Vec::new();
        WireValue::push_field(&mut fields, "topic", WireValue::Text(self.topic.clone()));
        assert(entries(fields@) =~= seq![("topic"@, Doc::Text(m.topic))]);
        WireValue::push_opt_text(&mut fields, "message", &self.message);
        WireValue::push_opt_text(&mut fields, "title", &self.title);
        let tags = match &self.tags {
            Some(t) => Some(WireValue::text_list(t)),
            None => None,
        };
        assert(opt_value_doc(tags) == opt_tags_doc(m.tags));
        WireValue::push_opt(&mut fields, "tags", tags);
        let priority = match self.priority {
            Some(p) => Some(WireValue::Num(p.code() as u64)),
            None => None,
        };
        assert(opt_value_doc(priority) == opt_priority_doc(m.priority));
        WireValue::push_opt(&mut fields, "priority", priority);
        WireValue::push_opt_text(&mut fields, "attach", &self.attach);
        WireValue::push_opt_text(&mut fields, "filename", &self.filename);
        WireValue::push_opt_text(&mut fields, "click", &self.click);
        let actions = match &self.actions {
            Some(a) => Some(actions_to_wire(a)),
            None => None,
        };
        assert(opt_value_doc(actions) == opt_actions_doc(m.actions));
        WireValue::push_opt(&mut fields, "actions", actions);
        WireValue::push_opt_text(&mut fields, "delay", &self.delay);
        WireValue::push_opt_text(&mut fields, "email", &self.email);
        proof {
            lemma_object_doc(fields);
        }
        WireValue::Object(fields)
    }
}

/// A request with only its topic set travels as a document with exactly
/// one field, `topic`; no optional field appears, not even as null.
pub proof fn lemma_bare_msg_doc(topic: Seq<char>)
    ensures
        msg_doc(bare_msg(topic)) == Doc::Object(seq![("topic"@, Doc::Text(topic))]),
{
    let e = Seq::<(Seq<char>, Doc)>::empty();
    assert(opt_entry("message"@, None) == e);
    assert(msg_doc(bare_msg(topic))->Object_0 =~= seq![("topic"@, Doc::Text(topic))]);
}

/// An action's document reads back as the same action, provided an
/// unknown kind does not carry the name of a known one.
pub proof fn lemma_action_round_trip(a: ActionView)
    requires
        a.action != ActionKind::Other("view"@),
    ensures
        decode_action(action_doc(a)) == Some(a),
{
    reveal_strlit("action");
    reveal_strlit("label");
    reveal_strlit("url");
    reveal_strlit("clear");
    reveal_strlit("view");
    reveal_with_fuel(field, 4);
    let head = seq![
        ("action"@, Doc::Text(kind_text(a.action))),
        ("label"@, Doc::Text(a.label)),
        ("url"@, Doc::Text(a.url)),
    ];
    let tail = opt_entry("clear"@, opt_bool_doc(a.clear));
    assert("action"@.len() != "label"@.len() || "action"@[0] != "label"@[0] || "action"@[1] != "label"@[1]);
    assert("action"@.len() != "url"@.len() || "action"@[0] != "url"@[0] || "action"@[1] != "url"@[1]);
    assert("label"@.len() != "url"@.len() || "label"@[0] != "url"@[0] || "label"@[1] != "url"@[1]);
    assert("clear"@.len() != "action"@.len() || "clear"@[0] != "action"@[0] || "clear"@[1] != "action"@[1]);
    assert("clear"@.len() != "label"@.len() || "clear"@[0] != "label"@[0] || "clear"@[1] != "label"@[1]);
    assert("clear"@.len() != "url"@.len() || "clear"@[0] != "url"@[0] || "clear"@[1] != "url"@[1]);
    assert(head.drop_first() =~= seq![("label"@, Doc::Text(a.label)), ("url"@, Doc::Text(a.url))]);
    assert(head.drop_first().drop_first() =~= seq![("url"@, Doc::Text(a.url))]);
    assert(head.drop_first().drop_first().drop_first() =~= Seq::<(Seq<char>, Doc)>::empty());
    lemma_field_concat(head, tail, "action"@);
    lemma_field_concat(head, tail, "label"@);
    lemma_field_concat(head, tail, "url"@);
    lemma_field_concat(head, tail, "clear"@);
    lemma_field_opt_entry("clear"@, opt_bool_doc(a.clear), "clear"@);
    match a.action {
        ActionKind::View => {},
        ActionKind::Other(t) => {
            assert(t != "view"@);
        },
    }
}

/// A list of actions reads back as the same list, under the proviso of
/// `lemma_action_round_trip` for each action.
pub proof fn lemma_actions_round_trip(xs: Seq<ActionView>)
    requires
        forall|i: int| 0 <= i < xs.len() ==> (#[trigger] xs[i]).action != ActionKind::Other("view"@),
    ensures
        decode_actions(actions_doc(xs)) == Some(xs),
{
    let items = xs.map_values(|a: ActionView| action_doc(a));
    assert forall|i: int| 0 <= i < items.len() implies decode_action(#[trigger] items[i]) == Some(xs[i]) by {
        lemma_action_round_trip(xs[i]);
    }
    assert(items.map_values(|x: Doc| decode_action(x)->0) =~= xs);
}

/// The actions of a request travel under the plural name `actions`, and no
/// field named `action` appears in a request's document.
pub proof fn lemma_msg_actions_field(m: MsgView)
    ensures
        get(msg_doc(m), "actions"@) == opt_actions_doc(m.actions),
        get(msg_doc(m), "action"@) is None,
{
    reveal_strlit("topic");
    reveal_strlit("message");
    reveal_strlit("title");
    reveal_strlit("tags");
    reveal_strlit("priority");
    reveal_strlit("attach");
    reveal_strlit("filename");
    reveal_strlit("click");
    reveal_strlit("actions");
    reveal_strlit("action");
    reveal_strlit("delay");
    reveal_strlit("email");
    let e0 = seq![("topic"@, Doc::Text(m.topic))];
    let e1 = opt_entry("message"@, opt_text_doc(m.message));
    let e2 = opt_entry("title"@, opt_text_doc(m.title));
    let e3 = opt_entry("tags"@, opt_tags_doc(m.tags));
    let e4 = opt_entry("priority"@, opt_priority_doc(m.priority));
    let e5 = opt_entry("attach"@, opt_text_doc(m.attach));
    let e6 = opt_entry("filename"@, opt_text_doc(m.filename));
    let e7 = opt_entry("click"@, opt_text_doc(m.click));
    let e8 = opt_entry("actions"@, opt_actions_doc(m.actions));
    let e9 = opt_entry("delay"@, opt_text_doc(m.delay));
    let e10 = opt_entry("email"@, opt_text_doc(m.email));
    let p1 = e0 + e1;
    let p2 = p1 + e2;
    let p3 = p2 + e3;
    let p4 = p3 + e4;
    let p5 = p4 + e5;
    let p6 = p5 + e6;
    let p7 = p6 + e7;
    let p8 = p7 + e8;
    let p9 = p8 + e9;
    let p10 = p9 + e10;
    assert(msg_doc(m) == Doc::Object(p10));
    let ks = seq!["actions"@, "action"@];
    assert forall|i: int| 0 <= i < 2 implies field(p7, #[trigger] ks[i]) is None by {
        let k = ks[i];
        assert(e0.drop_first() =~= Seq::<(Seq<char>, Doc)>::empty());
        assert(field(e0.drop_first(), k) is None);
        assert("topic"@.len() != k.len() || "topic"@[0] != k[0] || "topic"@[1] != k[1]);
        assert("message"@.len() != k.len() || "message"@[0] != k[0] || "message"@[1] != k[1]);
        assert("title"@.len() != k.len() || "title"@[0] != k[0] || "title"@[1] != k[1]);
        assert("tags"@.len() != k.len() || "tags"@[0] != k[0] || "tags"@[1] != k[1]);
        assert("priority"@.len() != k.len() || "priority"@[0] != k[0] || "priority"@[1] != k[1]);
        assert("attach"@.len() != k.len() || "attach"@[0] != k[0] || "attach"@[1] != k[1]);
        assert("filename"@.len() != k.len() || "filename"@[0] != k[0] || "filename"@[1] != k[1]);
        assert("click"@.len() != k.len() || "click"@[0] != k[0] || "click"@[1] != k[1]);
        lemma_field_opt_entry("message"@, opt_text_doc(m.message), k);
        lemma_field_opt_entry("title"@, opt_text_doc(m.title), k);
        lemma_field_opt_entry("tags"@, opt_tags_doc(m.tags), k);
        lemma_field_opt_entry("priority"@, opt_priority_doc(m.priority), k);
        lemma_field_opt_entry("attach"@, opt_text_doc(m.attach), k);
        lemma_field_opt_entry("filename"@, opt_text_doc(m.filename), k);
        lemma_field_opt_entry("click"@, opt_text_doc(m.click), k);
        lemma_field_concat(e0, e1, k);
        lemma_field_concat(p1, e2, k);
        lemma_field_concat(p2, e3, k);
        lemma_field_concat(p3, e4, k);
        lemma_field_concat(p4, e5, k);
        lemma_field_concat(p5, e6, k);
        lemma_field_concat(p6, e7, k);
    }
    let k = "actions"@;
    assert(field(p7, ks[0]) is None);
    assert("delay"@.len() != k.len() || "delay"@[0] != k[0] || "delay"@[1] != k[1]);
    assert("email"@.len() != k.len() || "email"@[0] != k[0] || "email"@[1] != k[1]);
    lemma_field_opt_entry("actions"@, opt_actions_doc(m.actions), k);
    lemma_field_opt_entry("delay"@, opt_text_doc(m.delay), k);
    lemma_field_opt_entry("email"@, opt_text_doc(m.email), k);
    lemma_field_concat(p7, e8, k);
    lemma_field_concat(p8, e9, k);
    lemma_field_concat(p9, e10, k);
    let k = "action"@;
    assert(field(p7, ks[1]) is None);
    assert("actions"@.len() != k.len() || "actions"@[0] != k[0] || "actions"@[1] != k[1]);
    assert("delay"@.len() != k.len() || "delay"@[0] != k[0] || "delay"@[1] != k[1]);
    assert("email"@.len() != k.len() || "email"@[0] != k[0] || "email"@[1] != k[1]);
    lemma_field_opt_entry("actions"@, opt_actions_doc(m.actions), k);
    lemma_field_opt_entry("delay"@, opt_text_doc(m.delay), k);
    lemma_field_opt_entry("email"@, opt_text_doc(m.email), k);
    lemma_field_concat(p7, e8, k);
    lemma_field_concat(p8, e9, k);
    lemma_field_concat(p9, e10, k);
}

} // verus!
