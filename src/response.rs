use vstd::prelude::*;
use crate::message::{ActionView, NtfyAction, actions_from_wire, opt_action_views, opt_actions};
use crate::priority::{NtfyPriority, priority_of_int};
use crate::wire::{
    DecodeError, Doc, WireValue, get, opt_string, opt_strings, opt_text, opt_text_list, opt_u64,
    req_text, req_u16, req_u64,
};

verus! {

/// The priority field of an inbound document. Reading it never fails: a
/// missing or null field is absent, an integer names its level or falls
/// back to `Default`, and any other value falls back to `Default` too.
pub open spec fn opt_priority(d: Doc, key: Seq<char>) -> Option<NtfyPriority> {
    match get(d, key) {
        None => None,
        Some(Doc::Null) => None,
        Some(Doc::Num(n)) => Some(priority_of_int(n)),
        Some(_) => Some(NtfyPriority::Default),
    }
}

/// Reads the priority field of an inbound document.
pub fn read_priority(v: &WireValue, key: &str) -> (r: Option<NtfyPriority>)
    ensures
        r == opt_priority(v.doc(), key@),
{
    match v.get(key) {
        None => None,
        Some(WireValue::Null) => None,
        Some(WireValue::Num(n)) => Some(NtfyPriority::from_wire_int(*n)),
        Some(WireValue::Signed(n)) => if *n >= 0 {
            Some(NtfyPriority::from_wire_int(*n as u64))
        } else {
            Some(NtfyPriority::Default)
        },
        Some(_) => Some(NtfyPriority::Default),
    }
}

/// Metadata the service reports about a delivered attachment.
#[derive(Debug, Clone)]
pub struct NtfyAttachment {
    pub name: String,
    pub url: String,
    /// The MIME type; travels under the name `type`.
    pub mime_type: Option<String>,
    pub size: Option<u64>,
    pub expires: Option<u64>,
}

/// The mathematical form of attachment metadata.
pub struct AttachmentView {
    pub name: Seq<char>,
    pub url: Seq<char>,
    pub mime_type: Option<Seq<char>>,
    pub size: Option<u64>,
    pub expires: Option<u64>,
}

impl View for NtfyAttachment {
    type V = AttachmentView;

    open spec fn view(&self) -> AttachmentView {
        AttachmentView {
            name: self.name@,
            url: self.url@,
            mime_type: opt_string(self.mime_type),
            size: self.size,
            expires: self.expires,
        }
    }
}

/// Attachment metadata read from a document: `name` and `url` are
/// required text; `type`, `size` and `expires` are optional.
pub open spec fn decode_attachment(d: Doc) -> Option<AttachmentView> {
    if req_text(d, "name"@) is Some && req_text(d, "url"@) is Some && opt_text(d, "type"@) is Some
        && opt_u64(d, "size"@) is Some && opt_u64(d, "expires"@) is Some {
        Some(
            AttachmentView {
                name: req_text(d, "name"@)->0,
                url: req_text(d, "url"@)->0,
                mime_type: opt_text(d, "type"@)->0,
                size: opt_u64(d, "size"@)->0,
                expires: opt_u64(d, "expires"@)->0,
            },
        )
    } else {
        None
    }
}

/// An optional field that holds attachment metadata.
pub open spec fn opt_attachment(d: Doc, key: Seq<char>) -> Option<Option<AttachmentView>> {
    match get(d, key) {
        None => Some(None),
        Some(Doc::Null) => Some(None),
        Some(x) => match decode_attachment(x) {
            Some(a) => Some(Some(a)),
            None => None,
        },
    }
}

pub open spec fn opt_attachment_view(o: Option<NtfyAttachment>) -> Option<AttachmentView> {
    match o {
        Some(a) => Some(a@),
        None => None,
    }
}

impl Default for NtfyAttachment {
    fn default() -> (r: Self)
        ensures
            r@ == (AttachmentView {
                name: Seq::empty(),
                url: Seq::empty(),
                mime_type: None,
                size: None,
                expires: None,
            }),
    {
        NtfyAttachment { name: String::new(), url: String::new(), mime_type: None, size: None, expires: None }
    }
}

impl NtfyAttachment {
    /// Reads attachment metadata from a document.
    pub fn from_wire(v: &WireValue) -> (r: Result<NtfyAttachment, DecodeError>)
        ensures
            match r {
                Ok(a) => decode_attachment(v.doc()) == Some(a@),
                Err(_) => decode_attachment(v.doc()) is None,
            },
    {
        let name = match v.req_text("name") {
            Ok(x) => x,
            Err(e) => return Err(e),
        };
        let url = match v.req_text("url") {
            Ok(x) => x,
            Err(e) => return Err(e),
        };
        let mime_type = match v.opt_text("type") {
            Ok(x) => x,
            Err(e) => return Err(e),
        };
        let size = match v.opt_u64("size") {
            Ok(x) => x,
            Err(e) => return Err(e),
        };
        let expires = match v.opt_u64("expires") {
            Ok(x) => x,
            Err(e) => return Err(e),
        };
        Ok(NtfyAttachment { name, url, mime_type, size, expires })
    }
}

/// One delivery event reported by the service.
#[derive(Debug, Clone)]
pub struct NtfyResponse {
    pub id: String,
    pub time: u64,
    pub event: String,
    pub topic: String,
    pub message: Option<String>,
    pub title: Option<String>,
    pub tags: Option<Vec<String>>,
    pub priority: Option<NtfyPriority>,
    pub click: Option<String>,
    pub action: Option<Vec<NtfyAction>>,
    pub attachment: Option<NtfyAttachment>,
}

/// The mathematical form of a delivery event.
pub struct ResponseView {
    pub id: Seq<char>,
    pub time: u64,
    pub event: Seq<char>,
    pub topic: Seq<char>,
    pub message: Option<Seq<char>>,
    pub title: Option<Seq<char>>,
    pub tags: Option<Seq<Seq<char>>>,
    pub priority: Option<NtfyPriority>,
    pub click: Option<Seq<char>>,
    pub action: Option<Seq<ActionView>>,
    pub attachment: Option<AttachmentView>,
}

impl View for NtfyResponse {
    type V = ResponseView;

    open spec fn view(&self) -> ResponseView {
        ResponseView {
            id: self.id@,
            time: self.time,
            event: self.event@,
            topic: self.topic@,
            message: opt_string(self.message),
            title: opt_string(self.title),
            tags: opt_strings(self.tags),
            priority: self.priority,
            click: opt_string(self.click),
            action: opt_action_views(self.action),
            attachment: opt_attachment_view(self.attachment),
        }
    }
}

/// A delivery event read from a document. `id`, `time`, `event` and
/// `topic` are required; the rest are optional, the actions travelling
/// under the singular name `action`. The event kind is open text.
pub open spec fn decode_response(d: Doc) -> Option<ResponseView> {
    if req_text(d, "id"@) is Some && req_u64(d, "time"@) is Some && req_text(d, "event"@) is Some
        && req_text(d, "topic"@) is Some && opt_text(d, "message"@) is Some && opt_text(
        d,
        "title"@,
    ) is Some && opt_text_list(d, "tags"@) is Some && opt_text(d, "click"@) is Some && opt_actions(
        d,
        "action"@,
    ) is Some && opt_attachment(d, "attachment"@) is Some {
        Some(
            ResponseView {
                id: req_text(d, "id"@)->0,
                time: req_u64(d, "time"@)->0,
                event: req_text(d, "event"@)->0,
                topic: req_text(d, "topic"@)->0,
                message: opt_text(d, "message"@)->0,
                title: opt_text(d, "title"@)->0,
                tags: opt_text_list(d, "tags"@)->0,
                priority: opt_priority(d, "priority"@),
                click: opt_text(d, "click"@)->0,
                action: opt_actions(d, "action"@)->0,
                attachment: opt_attachment(d, "attachment"@)->0,
            },
        )
    } else {
        None
    }
}

/// Reads an optional field that holds a list of actions.
pub fn read_opt_actions(v: &WireValue, key: &str) -> (r: Result<Option<Vec<NtfyAction>>, DecodeError>)
    ensures
        match r {
            Ok(o) => opt_actions(v.doc(), key@) == Some(opt_action_views(o)),
            Err(_) => opt_actions(v.doc(), key@) is None,
        },
{
    match v.get(key) {
        None => Ok(None),
        Some(x) => if x.is_null() {
            Ok(None)
        } else {
            match actions_from_wire(x) {
                Ok(l) => Ok(Some(l)),
                Err(e) => Err(e),
            }
        },
    }
}

/// Reads an optional field that holds attachment metadata.
pub fn read_opt_attachment(v: &WireValue, key: &str) -> (r: Result<Option<NtfyAttachment>, DecodeError>)
    ensures
        match r {
            Ok(o) => opt_attachment(v.doc(), key@) == Some(opt_attachment_view(o)),
            Err(_) => opt_attachment(v.doc(), key@) is None,
        },
{
    match v.get(key) {
        None => Ok(None),
        Some(x) => if x.is_null() {
            Ok(None)
        } else {
            match NtfyAttachment::from_wire(x) {
                Ok(a) => Ok(Some(a)),
                Err(e) => Err(e),
            }
        },
    }
}

impl Default for NtfyResponse {
    fn default() -> (r: Self)
        ensures
            r@ == (ResponseView {
                id: Seq::empty(),
                time: 0,
                event: Seq::empty(),
                topic: Seq::empty(),
                message: None,
                title: None,
                tags: None,
                priority: None,
                click: None,
                action: None,
                attachment: None,
            }),
    {
        NtfyResponse {
            id: String::new(),
            time: 0,
            event: String::new(),
            topic: String::new(),
            message: None,
            title: None,
            tags: None,
            priority: None,
            click: None,
            action: None,
            attachment: None,
        }
    }
}

impl NtfyResponse {
    /// Reads a delivery event from a document.
    pub fn from_wire(v: &WireValue) -> (r: Result<NtfyResponse, DecodeError>)
        ensures
            match r {
                Ok(x) => decode_response(v.doc()) == Some(x@),
                Err(_) => decode_response(v.doc()) is None,
            },
    {
        let id = match v.req_text("id") {
            Ok(x) => x,
            Err(e) => return Err(e),
        };
        let time = match v.req_u64("time") {
            Ok(x) => x,
            Err(e) => return Err(e),
        };
        let event = match v.req_text("event") {
            Ok(x) => x,
            Err(e) => return Err(e),
        };
        let topic = match v.req_text("topic") {
            Ok(x) => x,
            Err(e) => return Err(e),
        };
        let message = match v.opt_text("message") {
            Ok(x) => x,
            Err(e) => return Err(e),
        };
        let title = match v.opt_text("title") {
            Ok(x) => x,
            Err(e) => return Err(e),
        };
        let tags = match v.opt_text_list("tags") {
            Ok(x) => x,
            Err(e) => return Err(e),
        };
        let click = match v.opt_text("click") {
            Ok(x) => x,
            Err(e) => return Err(e),
        };
        let action = match read_opt_actions(v, "action") {
            Ok(x) => x,
            Err(e) => return Err(e),
        };
        let attachment = match read_opt_attachment(v, "attachment") {
            Ok(x) => x,
            Err(e) => return Err(e),
        };
        let priority = read_priority(v, "priority");
        Ok(
            NtfyResponse {
                id,
                time,
                event,
                topic,
                message,
                title,
                tags,
                priority,
                click,
                action,
                attachment,
            },
        )
    }
}

/// A failure reported by the service.
#[derive(Debug, Clone)]
pub struct NtfyErrorResponse {
    pub code: u64,
    pub http: u16,
    pub error: String,
    pub link: String,
}

/// The mathematical form of a failure report.
pub struct ErrorView {
    pub code: u64,
    pub http: u16,
    pub error: Seq<char>,
    pub link: Seq<char>,
}

impl View for NtfyErrorResponse {
    type V = ErrorView;

    open spec fn view(&self) -> ErrorView {
        ErrorView { code: self.code, http: self.http, error: self.error@, link: self.link@ }
    }
}

/// A failure report read from a document: all four fields required, the
/// HTTP status within 16 bits.
pub open spec fn decode_error_response(d: Doc) -> Option<ErrorView> {
    if req_u64(d, "code"@) is Some && req_u16(d, "http"@) is Some && req_text(d, "error"@) is Some
        && req_text(d, "link"@) is Some {
        Some(
            ErrorView {
                code: req_u64(d, "code"@)->0,
                http: req_u16(d, "http"@)->0,
                error: req_text(d, "error"@)->0,
                link: req_text(d, "link"@)->0,
            },
        )
    } else {
        None
    }
}

impl Default for NtfyErrorResponse {
    fn default() -> (r: Self)
        ensures
            r@ == (ErrorView { code: 0, http: 0, error: Seq::empty(), link: Seq::empty() }),
    {
        NtfyErrorResponse { code: 0, http: 0, error: String::new(), link: String::new() }
    }
}

impl NtfyErrorResponse {
    /// Reads a failure report from a document.
    pub fn from_wire(v: &WireValue) -> (r: Result<NtfyErrorResponse, DecodeError>)
        ensures
            match r {
                Ok(x) => decode_error_response(v.doc()) == Some(x@),
                Err(_) => decode_error_response(v.doc()) is None,
            },
    {
        let code = match v.req_u64("code") {
            Ok(x) => x,
            Err(e) => return Err(e),
        };
        let http = match v.req_u16("http") {
            Ok(x) => x,
            Err(e) => return Err(e),
        };
        let error = match v.req_text("error") {
            Ok(x) => x,
            Err(e) => return Err(e),
        };
        let link = match v.req_text("link") {
            Ok(x) => x,
            Err(e) => return Err(e),
        };
        Ok(NtfyErrorResponse { code, http, error, link })
    }
}

/// A delivery event cannot be read from a document without an `id`.
pub proof fn lemma_response_needs_id(d: Doc)
    requires
        get(d, "id"@) is None,
    ensures
        decode_response(d) is None,
{
}

/// A document without `attachment` reads as an event without attachment,
/// and whether it reads at all does not depend on that field.
pub proof fn lemma_response_attachment_optional(d: Doc)
    requires
        get(d, "attachment"@) is None,
    ensures
        opt_attachment(d, "attachment"@) == Some(None::<AttachmentView>),
        decode_response(d) is Some ==> decode_response(d)->0.attachment is None,
{
}

/// Inbound actions are read from the singular field `action` only: a
/// document without it reads, if at all, as an event without actions.
pub proof fn lemma_response_action_field(d: Doc)
    requires
        get(d, "action"@) is None,
    ensures
        decode_response(d) is Some ==> decode_response(d)->0.action is None,
{
}

} // verus!
