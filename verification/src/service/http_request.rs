//! The envelope of the server's REST replies, how a reply is judged, and
//! the multipart forms the client posts.

use vstd::prelude::*;

use crate::text::{decimal, push_decimal};

verus! {

/// The envelope of every REST reply: a status code in text, a payload and
/// a message.
pub struct RestResponse<T> {
    pub code: String,
    pub data: T,
    pub msg: String,
}

/// The kinds of request the client sends.
pub enum RequestKind {
    Get,
    Post,
    PostForm,
}

/// Why a request did not yield a decoded reply.
pub enum HttpError {
    /// The request could not be sent, or no reply came; the kind of request
    /// and the transport's description.
    Send { kind: RequestKind, detail: String },
    /// The server answered with a status outside 200..=299.
    Status { status: u16, body: String },
    /// The server answered with success, but the body did not decode as a
    /// reply envelope; the decoder's description and the body.
    Decode { detail: String, body: String },
}

/// A success status, as `reqwest::StatusCode::is_success` defines one.
pub open spec fn spec_is_success(status: u16) -> bool {
    200 <= status <= 299
}

/// Whether an HTTP status code means success (200 to 299).
pub fn is_success_status(status: u16) -> (b: bool)
    ensures
        b == spec_is_success(status),
{
    200 <= status && status <= 299
}

/// Judges a reply: with a success status the decoded envelope is the
/// result, or the decoding error; with any other status the reply is an
/// error that carries the status and the body.
pub fn handle_response<T>(status: u16, decoded: Result<RestResponse<T>, String>, body: String) -> (r: Result<RestResponse<T>, HttpError>)
    ensures
        spec_is_success(status) ==> match decoded {
            Ok(resp) => r == Ok::<RestResponse<T>, HttpError>(resp),
            Err(detail) => r == Err::<RestResponse<T>, HttpError>(HttpError::Decode { detail, body }),
        },
        !spec_is_success(status) ==> r == Err::<RestResponse<T>, HttpError>(
            HttpError::Status { status, body },
        ),
{
    if is_success_status(status) {
        match decoded {
            Ok(resp) => Ok(resp),
            Err(detail) => Err(HttpError::Decode { detail, body }),
        }
    } else {
        Err(HttpError::Status { status, body })
    }
}

/// The reason phrase that `http::StatusCode::canonical_reason` (the type
/// reqwest re-exports as `reqwest::StatusCode`) gives for status `code`,
/// when its table holds one.
pub uninterp spec fn canonical_reason_of(code: u16) -> Option<Seq<char>>;

/// The reason phrase of status `code`: `reqwest::StatusCode::from_u16` and
/// then `canonical_reason`. As the http crate's source shows, `from_u16`
/// refuses codes outside 100..=999, which have no reason phrase; inside
/// that range the phrase comes from a fixed table of the http crate, which
/// is named here, not written out.
#[verifier::external_body]
fn canonical_reason(code: u16) -> (r: Option<String>)
    ensures
        !(100 <= code <= 999) ==> r is None,
        100 <= code <= 999 ==> match r {
            Some(t) => canonical_reason_of(code) == Some(t@),
            None => canonical_reason_of(code) is None,
        },
{
    match reqwest::StatusCode::from_u16(code) {
        Ok(s) => match s.canonical_reason() {
            Some(t) => Some(t.to_owned()),
            None => None,
        },
        Err(_) => None,
    }
}

/// How `reqwest::StatusCode` displays status `code`: the number, a space
/// and the reason phrase, or a stand-in when there is none.
pub open spec fn status_line(code: u16) -> Seq<char> {
    decimal(code as nat) + " "@ + match (if 100 <= code <= 999 { canonical_reason_of(code) } else { None }) {
        Some(t) => t,
        None => "<unknown status code>"@,
    }
}

/// The text the client reports for an error.
pub open spec fn spec_error_text(e: HttpError) -> Seq<char> {
    match e {
        HttpError::Send { kind, detail } => match kind {
            RequestKind::Get => "GET请求失败: "@ + detail@,
            RequestKind::Post => "POST请求失败: "@ + detail@,
            RequestKind::PostForm => "POST表单请求失败: "@ + detail@,
        },
        HttpError::Status { status, body } => "请求失败, 状态码: "@ + status_line(status) + ", 响应: "@ + body@,
        HttpError::Decode { detail, body } => "序列化失败: "@ + detail@ + ", 响应内容: "@ + body@,
    }
}

impl HttpError {
    /// The text the client reports for this error.
    pub fn text(&self) -> (t: String)
        ensures
            t@ == spec_error_text(*self),
    {
        let mut t = String::new();
        match self {
            HttpError::Send { kind, detail } => {
                match kind {
                    RequestKind::Get => t.append("GET请求失败: "),
                    RequestKind::Post => t.append("POST请求失败: "),
                    RequestKind::PostForm => t.append("POST表单请求失败: "),
                }
                t.append(detail.as_str());
            },
            HttpError::Status { status, body } => {
                t.append("请求失败, 状态码: ");
                push_decimal(&mut t, *status as usize);
                t.append(" ");
                match canonical_reason(*status) {
                    Some(reason) => t.append(reason.as_str()),
                    None => t.append("<unknown status code>"),
                }
                t.append(", 响应: ");
                t.append(body.as_str());
            },
            HttpError::Decode { detail, body } => {
                t.append("序列化失败: ");
                t.append(detail.as_str());
                t.append(", 响应内容: ");
                t.append(body.as_str());
            },
        }
        assert(t@ =~= spec_error_text(*self));
        t
    }
}

/// The text fields of a multipart form, each a name and a value, in order.
pub open spec fn form_model(v: Seq<(String, String)>) -> Seq<(Seq<char>, Seq<char>)> {
    v.map_values(|f: (String, String)| (f.0@, f.1@))
}

/// A text field of a form.
pub fn form_field(name: &str, value: &str) -> (f: (String, String))
    ensures
        f.0@ == name@,
        f.1@ == value@,
{
    (name.to_owned(), value.to_owned())
}

/// `base` followed by `path`: the address of an endpoint of the server.
pub fn endpoint_url(base: &str, path: &str) -> (u: String)
    ensures
        u@ == base@ + path@,
{
    let mut u = base.to_owned();
    u.append(path);
    u
}

} // verus!
