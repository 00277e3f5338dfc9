use vstd::prelude::*;
use crate::message::{ActionView, MsgView, NtfyAction, NtfyMsg, bare_msg, msg_doc};
use crate::priority::NtfyPriority;

verus! {

/// Appends one item to an optional sequence, creating it on the first one.
pub open spec fn appended<T>(o: Option<Seq<T>>, x: T) -> Option<Seq<T>> {
    match o {
        Some(s) => Some(s.push(x)),
        None => Some(seq![x]),
    }
}

/// Assembles a send request one field at a time. Each step consumes the
/// builder and hands back the next one; setting a field twice keeps the
/// last value.
pub struct NtfyMsgBuilder {
    msg: NtfyMsg,
}

impl View for NtfyMsgBuilder {
    type V = MsgView;

    /// The request assembled so far.
    closed spec fn view(&self) -> MsgView {
        self.msg@
    }
}

impl NtfyMsg {
    /// A builder for a request to `topic`.
    pub fn builder(topic: &str) -> (r: NtfyMsgBuilder)
        ensures
            r@ == bare_msg(topic@),
    {
        NtfyMsgBuilder::new(topic)
    }
}

impl NtfyMsgBuilder {
    /// A builder for a request to `topic`, every optional field absent.
    pub fn new(topic: &str) -> (r: NtfyMsgBuilder)
        ensures
            r@ == bare_msg(topic@),
    {
        NtfyMsgBuilder { msg: NtfyMsg::new(topic) }
    }

    pub fn topic(self, topic: &str) -> (r: NtfyMsgBuilder)
        ensures
            r@ == (MsgView { topic: topic@, ..self@ }),
    {
        let mut b = self;
        b.msg.topic = topic.to_owned();
        b
    }

    pub fn message(self, message: &str) -> (r: NtfyMsgBuilder)
        ensures
            r@ == (MsgView { message: Some(message@), ..self@ }),
    {
        let mut b = self;
        b.msg.message = Some(message.to_owned());
        b
    }

    pub fn title(self, title: &str) -> (r: NtfyMsgBuilder)
        ensures
            r@ == (MsgView { title: Some(title@), ..self@ }),
    {
        let mut b = self;
        b.msg.title = Some(title.to_owned());
        b
    }

    /// Sets the whole tag list.
    pub fn tags(self, tags: Vec<String>) -> (r: NtfyMsgBuilder)
        ensures
            r@ == (MsgView { tags: Some(tags@.map_values(|s: String| s@)), ..self@ }),
    {
        let mut b = self;
        b.msg.tags = Some(tags);
        b
    }

    /// Appends one tag, creating the list on the first one.
    pub fn add_tag(self, tag: &str) -> (r: NtfyMsgBuilder)
        ensures
            r@ == (MsgView { tags: appended(self@.tags, tag@), ..self@ }),
    {
        let mut b = self;
        let t = tag.to_owned();
        match b.msg.tags.take() {
            Some(mut v) => {
                let ghost before = v@;
                v.push(t);
                assert(v@.map_values(|s: String| s@) =~= before.map_values(|s: String| s@).push(tag@));
                b.msg.tags = Some(v);
            },
            None => {
                let v = vec![t];
                assert(v@.map_values(|s: String| s@) =~= seq![tag@]);
                b.msg.tags = Some(v);
            },
        }
        b
    }

    pub fn priority(self, priority: NtfyPriority) -> (r: NtfyMsgBuilder)
        ensures
            r@ == (MsgView { priority: Some(priority), ..self@ }),
    {
        let mut b = self;
        b.msg.priority = Some(priority);
        b
    }

    pub fn attach(self, attach: &str) -> (r: NtfyMsgBuilder)
        ensures
            r@ == (MsgView { attach: Some(attach@), ..self@ }),
    {
        let mut b = self;
        b.msg.attach = Some(attach.to_owned());
        b
    }

    pub fn filename(self, filename: &str) -> (r: NtfyMsgBuilder)
        ensures
            r@ == (MsgView { filename: Some(filename@), ..self@ }),
    {
        let mut b = self;
        b.msg.filename = Some(filename.to_owned());
        b
    }

    pub fn click(self, click: &str) -> (r: NtfyMsgBuilder)
        ensures
            r@ == (MsgView { click: Some(click@), ..self@ }),
    {
        let mut b = self;
        b.msg.click = Some(click.to_owned());
        b
    }

    /// Sets the whole action list.
    pub fn actions(self, actions: Vec<NtfyAction>) -> (r: NtfyMsgBuilder)
        ensures
            r@ == (MsgView { actions: Some(actions@.map_values(|a: NtfyAction| a@)), ..self@ }),
    {
        let mut b = self;
        b.msg.actions = Some(actions);
        b
    }

    /// Appends one action, creating the list on the first one.
    pub fn add_action(self, action: NtfyAction) -> (r: NtfyMsgBuilder)
        ensures
            r@ == (MsgView { actions: appended(self@.actions, action@), ..self@ }),
    {
        let mut b = self;
        let ghost a: ActionView = action@;
        match b.msg.actions.take() {
            Some(mut v) => {
                let ghost before = v@;
                v.push(action);
                assert(v@.map_values(|x: NtfyAction| x@) =~= before.map_values(|x: NtfyAction| x@).push(a));
                b.msg.actions = Some(v);
            },
            None => {
                let v = vec![action];
                assert(v@.map_values(|x: NtfyAction| x@) =~= seq![a]);
                b.msg.actions = Some(v);
            },
        }
        b
    }

    pub fn delay(self, delay: &str) -> (r: NtfyMsgBuilder)
        ensures
            r@ == (MsgView { delay: Some(delay@), ..self@ }),
    {
        let mut b = self;
        b.msg.delay = Some(delay.to_owned());
        b
    }

    pub fn email(self, email: &str) -> (r: NtfyMsgBuilder)
        ensures
            r@ == (MsgView { email: Some(email@), ..self@ }),
    {
        let mut b = self;
        b.msg.email = Some(email.to_owned());
        b
    }

    /// The assembled request; the builder is used up.
    pub fn build(self) -> (r: NtfyMsg)
        ensures
            r@ == self@,
    {
        self.msg
    }
}

/// Two single-tag appends to a request without tags give the same
/// request, and so the same document, as setting the two tags at once.
pub proof fn lemma_two_tags(m: MsgView, a: Seq<char>, b: Seq<char>)
    requires
        m.tags is None,
    ensures
        (MsgView { tags: appended(appended(m.tags, a), b), ..m }) == (MsgView { tags: Some(seq![a, b]), ..m }),
        msg_doc(MsgView { tags: appended(appended(m.tags, a), b), ..m }) == msg_doc(
            MsgView { tags: Some(seq![a, b]), ..m },
        ),
{
    assert(seq![a].push(b) =~= seq![a, b]);
}

/// Appending tags one by one extends the list in order.
pub proof fn lemma_append_order(s: Seq<Seq<char>>, a: Seq<char>, b: Seq<char>)
    ensures
        appended(appended(Some(s), a), b) == Some(s + seq![a, b]),
{
    assert(s.push(a).push(b) =~= s + seq![a, b]);
}

} // verus!
