//! The application-wide state, the events passed between pages, and the
//! decisions of the WebSocket connection to the server.

use vstd::prelude::*;

use crate::component::login::{LoginResponseMsg, LoginResponseMsgModel};
use crate::service::http_request::endpoint_url;

verus! {

/// A text frame received over the WebSocket.
pub struct WsTextMessage(pub String);

/// The events passed between the pages.
pub enum EventBus {
    /// A text frame from the server.
    WebSocketText(String),
    /// A request to open the conversation at an index.
    ChangeMessageGroupSelectIndex(usize),
    /// A request to show the conversations page.
    ChildrenChangeSelectIndex,
}

/// The application-wide state: the server's addresses, the logged-in user,
/// and whether a dialog window is open.
pub struct State {
    pub http_server: String,
    pub ws_server: String,
    pub user_state: LoginResponseMsg,
    pub dial_window_is_open: bool,
}

impl Clone for State {
    fn clone(&self) -> (r: Self)
        ensures
            r.http_server@ == self.http_server@,
            r.ws_server@ == self.ws_server@,
            r.user_state@ == self.user_state@,
            r.dial_window_is_open == self.dial_window_is_open,
    {
        State {
            http_server: self.http_server.clone(),
            ws_server: self.ws_server.clone(),
            user_state: self.user_state.clone(),
            dial_window_is_open: self.dial_window_is_open,
        }
    }
}

/// A lowercase hexadecimal digit.
pub open spec fn hex_digit(n: nat) -> char {
    if n < 10 {
        ((48 + n) as u8) as char
    } else {
        ((87 + n) as u8) as char
    }
}

/// How `serde_json` writes character `c` inside a string: `"` and `\`
/// behind a backslash, the control characters with a short escape as that
/// escape, the other control characters (below U+0020) as `\u00XX` with
/// lowercase hex digits, and every other character as itself.
pub open spec fn json_escaped_char(c: char) -> Seq<char> {
    if c == '"' {
        seq!['\\', '"']
    } else if c == '\\' {
        seq!['\\', '\\']
    } else if c == '\u{8}' {
        seq!['\\', 'b']
    } else if c == '\t' {
        seq!['\\', 't']
    } else if c == '\n' {
        seq!['\\', 'n']
    } else if c == '\u{c}' {
        seq!['\\', 'f']
    } else if c == '\r' {
        seq!['\\', 'r']
    } else if (c as u32) < 0x20 {
        seq!['\\', 'u', '0', '0', hex_digit((c as u32 / 16) as nat), hex_digit((c as u32 % 16) as nat)]
    } else {
        seq![c]
    }
}

/// The characters of `s`, each written as `serde_json` writes it inside a
/// string.
pub open spec fn json_escaped(s: Seq<char>) -> Seq<char>
    decreases s.len(),
{
    if s.len() == 0 {
        Seq::empty()
    } else {
        json_escaped(s.drop_last()) + json_escaped_char(s.last())
    }
}

/// The JSON string literal of `s`.
pub open spec fn json_string(s: Seq<char>) -> Seq<char> {
    seq!['"'] + json_escaped(s) + seq!['"']
}

/// Whether string `a` sorts before string `b` as Rust orders strings: by
/// their UTF-8 bytes, which is the order of their characters' code points,
/// a proper prefix first.
pub open spec fn sorts_before(a: Seq<char>, b: Seq<char>) -> bool
    decreases a.len(),
{
    if a.len() == 0 {
        b.len() > 0
    } else if b.len() == 0 {
        false
    } else if a[0] != b[0] {
        (a[0] as u32) < (b[0] as u32)
    } else {
        sorts_before(a.drop_first(), b.drop_first())
    }
}

/// The compact JSON object with member `k1: v1` followed by `k2: v2`, all
/// four being strings.
pub open spec fn json_object2_text(k1: Seq<char>, v1: Seq<char>, k2: Seq<char>, v2: Seq<char>) -> Seq<char> {
    seq!['{'] + json_string(k1) + seq![':'] + json_string(v1) + seq![','] + json_string(k2) + seq![':']
        + json_string(v2) + seq!['}']
}

/// The message that authenticates a WebSocket connection: the compact JSON
/// object `{"id":id,"token":token}`, with its keys in that order.
pub open spec fn auth_message_text(id: Seq<char>, token: Seq<char>) -> Seq<char> {
    json_object2_text("id"@, id, "token"@, token)
}

/// Prints the JSON object with string members `k1: v1` and `k2: v2` with
/// `serde_json` (`Value::to_string` on an object built with two
/// `Map::insert` calls). As the serde_json source shows, `to_string` writes
/// compactly, with no spaces, and escapes strings as `json_escaped_char`
/// states; the map keeps its keys sorted (or in insertion order, with the
/// `preserve_order` feature). The contract speaks of the case where `k1`
/// sorts before `k2`, in which both orders put `k1` first; with equal keys
/// the second insert replaces the first, and with `k2` first the order
/// depends on that feature, so nothing is claimed there.
#[verifier::external_body]
fn json_object2(k1: &str, v1: &str, k2: &str, v2: &str) -> (r: String)
    ensures
        sorts_before(k1@, k2@) ==> r@ == json_object2_text(k1@, v1@, k2@, v2@),
{
    let mut m = serde_json::Map::new();
    m.insert(k1.to_owned(), serde_json::Value::String(v1.to_owned()));
    m.insert(k2.to_owned(), serde_json::Value::String(v2.to_owned()));
    serde_json::Value::Object(m).to_string()
}

/// The server's default HTTP address.
pub open spec fn default_http_server() -> Seq<char> {
    "http://127.0.0.1:34332"@
}

/// The server's default WebSocket address.
pub open spec fn default_ws_server() -> Seq<char> {
    "ws://127.0.0.1:34332"@
}

/// Seconds to wait before connecting again.
pub const RECONNECT_DELAY_SECS: u64 = 3;

/// Where the WebSocket connection stands.
pub enum WsPhase {
    /// A connection is being opened.
    Connecting,
    /// The authentication message is being sent.
    Authenticating,
    /// Waiting for the next frame.
    Reading,
    /// A text frame is being handed to the pages.
    Forwarding,
    /// Waiting before connecting again.
    Waiting,
}

/// What happened since the last action.
pub enum WsInput {
    Connected,
    ConnectFailed,
    AuthSent,
    AuthFailed,
    Text(String),
    Binary,
    Ping(Vec<u8>),
    Pong,
    Close,
    ReadError,
    StreamEnded,
    /// A frame of another kind.
    Other,
    Forwarded,
    /// The pages no longer listen.
    ForwardFailed,
    PongSent,
    Slept,
}

/// What the connection's driver does next.
pub enum WsAction {
    /// Open a connection to the address.
    Connect(String),
    /// Send the text frame that authenticates the connection.
    SendAuth(String),
    /// Wait for the next frame.
    ReadNext,
    /// Hand a text frame to the pages.
    Forward(String),
    /// Answer a ping with a pong that carries the same bytes.
    SendPong(Vec<u8>),
    /// Wait this many seconds.
    Sleep(u64),
    /// Nothing: the input was not expected in this phase.
    Ignore,
}

/// The mathematical value of a [`WsAction`].
pub enum WsActionModel {
    Connect(Seq<char>),
    SendAuth(Seq<char>),
    ReadNext,
    Forward(Seq<char>),
    SendPong(Seq<u8>),
    Sleep(u64),
    Ignore,
}

impl View for WsAction {
    type V = WsActionModel;

    open spec fn view(&self) -> WsActionModel {
        match self {
            WsAction::Connect(u) => WsActionModel::Connect(u@),
            WsAction::SendAuth(p) => WsActionModel::SendAuth(p@),
            WsAction::ReadNext => WsActionModel::ReadNext,
            WsAction::Forward(t) => WsActionModel::Forward(t@),
            WsAction::SendPong(d) => WsActionModel::SendPong(d@),
            WsAction::Sleep(s) => WsActionModel::Sleep(*s),
            WsAction::Ignore => WsActionModel::Ignore,
        }
    }
}

/// The mathematical value of a [`WsInput`]: its kind, with the text or
/// bytes it carries.
pub enum WsInputModel {
    Connected,
    ConnectFailed,
    AuthSent,
    AuthFailed,
    Text(Seq<char>),
    Binary,
    Ping(Seq<u8>),
    Pong,
    Close,
    ReadError,
    StreamEnded,
    Other,
    Forwarded,
    ForwardFailed,
    PongSent,
    Slept,
}

impl View for WsInput {
    type V = WsInputModel;

    open spec fn view(&self) -> WsInputModel {
        match self {
            WsInput::Connected => WsInputModel::Connected,
            WsInput::ConnectFailed => WsInputModel::ConnectFailed,
            WsInput::AuthSent => WsInputModel::AuthSent,
            WsInput::AuthFailed => WsInputModel::AuthFailed,
            WsInput::Text(t) => WsInputModel::Text(t@),
            WsInput::Binary => WsInputModel::Binary,
            WsInput::Ping(d) => WsInputModel::Ping(d@),
            WsInput::Pong => WsInputModel::Pong,
            WsInput::Close => WsInputModel::Close,
            WsInput::ReadError => WsInputModel::ReadError,
            WsInput::StreamEnded => WsInputModel::StreamEnded,
            WsInput::Other => WsInputModel::Other,
            WsInput::Forwarded => WsInputModel::Forwarded,
            WsInput::ForwardFailed => WsInputModel::ForwardFailed,
            WsInput::PongSent => WsInputModel::PongSent,
            WsInput::Slept => WsInputModel::Slept,
        }
    }
}

/// The WebSocket connection's decisions: where it stands, where it
/// connects, and the message that authenticates it.
pub struct WsSession {
    pub phase: WsPhase,
    pub url: String,
    pub auth_payload: String,
}

/// The next phase and action: a new connection first sends the
/// authentication message (a failed send connects again at once), then
/// reads frames, handing text to the pages and answering pings; a refused
/// connection, a closed or broken one, or pages that no longer listen lead
/// to a three-second wait and a new connection. Unexpected inputs are
/// ignored.
pub open spec fn spec_ws_step(phase: WsPhase, input: WsInputModel, url: Seq<char>, auth: Seq<char>) -> (WsPhase, WsActionModel) {
    match phase {
        WsPhase::Connecting => match input {
            WsInputModel::Connected => (WsPhase::Authenticating, WsActionModel::SendAuth(auth)),
            WsInputModel::ConnectFailed => (WsPhase::Waiting, WsActionModel::Sleep(RECONNECT_DELAY_SECS)),
            _ => (phase, WsActionModel::Ignore),
        },
        WsPhase::Authenticating => match input {
            WsInputModel::AuthSent => (WsPhase::Reading, WsActionModel::ReadNext),
            WsInputModel::AuthFailed => (WsPhase::Connecting, WsActionModel::Connect(url)),
            _ => (phase, WsActionModel::Ignore),
        },
        WsPhase::Reading => match input {
            WsInputModel::Text(t) => (WsPhase::Forwarding, WsActionModel::Forward(t)),
            WsInputModel::Binary | WsInputModel::Pong | WsInputModel::Other | WsInputModel::PongSent => (
                WsPhase::Reading,
                WsActionModel::ReadNext,
            ),
            WsInputModel::Ping(d) => (WsPhase::Reading, WsActionModel::SendPong(d)),
            WsInputModel::Close | WsInputModel::ReadError | WsInputModel::StreamEnded => (
                WsPhase::Waiting,
                WsActionModel::Sleep(RECONNECT_DELAY_SECS),
            ),
            _ => (phase, WsActionModel::Ignore),
        },
        WsPhase::Forwarding => match input {
            WsInputModel::Forwarded => (WsPhase::Reading, WsActionModel::ReadNext),
            WsInputModel::ForwardFailed => (WsPhase::Waiting, WsActionModel::Sleep(RECONNECT_DELAY_SECS)),
            _ => (phase, WsActionModel::Ignore),
        },
        WsPhase::Waiting => match input {
            WsInputModel::Slept => (WsPhase::Connecting, WsActionModel::Connect(url)),
            _ => (phase, WsActionModel::Ignore),
        },
    }
}

/// Text reaches the pages only on a connection that sent its
/// authentication message: a `Forward` comes only from `Reading`, and
/// `Reading` is entered only from `Authenticating` once the message was
/// sent, or from `Reading` and `Forwarding` themselves.
pub proof fn lemma_forward_only_after_auth(phase: WsPhase, input: WsInputModel, url: Seq<char>, auth: Seq<char>)
    ensures
        spec_ws_step(phase, input, url, auth).1 is Forward ==> phase == WsPhase::Reading,
        spec_ws_step(phase, input, url, auth).0 == WsPhase::Reading ==> (phase == WsPhase::Reading
            || phase == WsPhase::Forwarding || (phase == WsPhase::Authenticating && input
            == WsInputModel::AuthSent)),
        spec_ws_step(phase, input, url, auth).0 == WsPhase::Forwarding ==> phase == WsPhase::Reading
            || phase == WsPhase::Forwarding,
{
}

/// A lost connection is always retried after the three-second wait, and
/// the wait always ends in a new connection to the same address.
pub proof fn lemma_lost_connection_retried(phase: WsPhase, input: WsInputModel, url: Seq<char>, auth: Seq<char>)
    ensures
        (input == WsInputModel::Close || input == WsInputModel::ReadError || input
            == WsInputModel::StreamEnded) && phase == WsPhase::Reading ==> spec_ws_step(phase, input, url, auth)
            == (WsPhase::Waiting, WsActionModel::Sleep(RECONNECT_DELAY_SECS)),
        input == WsInputModel::ConnectFailed && phase == WsPhase::Connecting ==> spec_ws_step(phase, input, url, auth)
            == (WsPhase::Waiting, WsActionModel::Sleep(RECONNECT_DELAY_SECS)),
        phase == WsPhase::Waiting && input == WsInputModel::Slept ==> spec_ws_step(phase, input, url, auth)
            == (WsPhase::Connecting, WsActionModel::Connect(url)),
{
}

impl WsSession {
    /// Takes the next decision after `input`.
    pub fn step(&mut self, input: WsInput) -> (a: WsAction)
        ensures
            (final(self).phase, a@) == spec_ws_step(old(self).phase, input@, old(self).url@, old(self).auth_payload@),
            final(self).url == old(self).url,
            final(self).auth_payload == old(self).auth_payload,
    {
        match self.phase {
            WsPhase::Connecting => match input {
                WsInput::Connected => {
                    self.phase = WsPhase::Authenticating;
                    WsAction::SendAuth(self.auth_payload.clone())
                },
                WsInput::ConnectFailed => {
                    self.phase = WsPhase::Waiting;
                    WsAction::Sleep(RECONNECT_DELAY_SECS)
                },
                _ => WsAction::Ignore,
            },
            WsPhase::Authenticating => match input {
                WsInput::AuthSent => {
                    self.phase = WsPhase::Reading;
                    WsAction::ReadNext
                },
                WsInput::AuthFailed => {
                    self.phase = WsPhase::Connecting;
                    WsAction::Connect(self.url.clone())
                },
                _ => WsAction::Ignore,
            },
            WsPhase::Reading => match input {
                WsInput::Text(t) => {
                    self.phase = WsPhase::Forwarding;
                    WsAction::Forward(t)
                },
                WsInput::Binary | WsInput::Pong | WsInput::Other | WsInput::PongSent => WsAction::ReadNext,
                WsInput::Ping(d) => WsAction::SendPong(d),
                WsInput::Close | WsInput::ReadError | WsInput::StreamEnded => {
                    self.phase = WsPhase::Waiting;
                    WsAction::Sleep(RECONNECT_DELAY_SECS)
                },
                _ => WsAction::Ignore,
            },
            WsPhase::Forwarding => match input {
                WsInput::Forwarded => {
                    self.phase = WsPhase::Reading;
                    WsAction::ReadNext
                },
                WsInput::ForwardFailed => {
                    self.phase = WsPhase::Waiting;
                    WsAction::Sleep(RECONNECT_DELAY_SECS)
                },
                _ => WsAction::Ignore,
            },
            WsPhase::Waiting => match input {
                WsInput::Slept => {
                    self.phase = WsPhase::Connecting;
                    WsAction::Connect(self.url.clone())
                },
                _ => WsAction::Ignore,
            },
        }
    }
}

impl State {
    /// The state at start-up: the default server addresses, nobody logged
    /// in, no dialog open.
    pub fn new() -> (s: Self)
        ensures
            s.http_server@ == default_http_server(),
            s.ws_server@ == default_ws_server(),
            s.user_state@ == (LoginResponseMsgModel {
                user_id: Seq::empty(),
                user_avatar: Seq::empty(),
                user_token: Seq::empty(),
            }),
            !s.dial_window_is_open,
    {
        let s = State {
            http_server: "http://127.0.0.1:34332".to_owned(),
            ws_server: "ws://127.0.0.1:34332".to_owned(),
            user_state: LoginResponseMsg::empty(),
            dial_window_is_open: false,
        };
        assert(s.user_state@ =~= (LoginResponseMsgModel {
            user_id: Seq::empty(),
            user_avatar: Seq::empty(),
            user_token: Seq::empty(),
        }));
        s
    }

    /// Records the user who logged in.
    pub fn set_user_state(&mut self, user: LoginResponseMsg)
        ensures
            final(self).user_state@ == user@,
            final(self).http_server == old(self).http_server,
            final(self).ws_server == old(self).ws_server,
            final(self).dial_window_is_open == old(self).dial_window_is_open,
    {
        self.user_state = user;
    }

    /// Opens a dialog window unless one is open; says whether it may open.
    pub fn try_open_dialog(&mut self) -> (opened: bool)
        ensures
            (opened, final(self).dial_window_is_open) == spec_try_open_dialog(old(self).dial_window_is_open),
            final(self).http_server == old(self).http_server,
            final(self).ws_server == old(self).ws_server,
            final(self).user_state == old(self).user_state,
    {
        if self.dial_window_is_open {
            return false;
        }
        self.dial_window_is_open = true;
        true
    }

    /// A dialog window closed.
    pub fn close_dialog(&mut self)
        ensures
            !final(self).dial_window_is_open,
            final(self).http_server == old(self).http_server,
            final(self).ws_server == old(self).ws_server,
            final(self).user_state == old(self).user_state,
    {
        self.dial_window_is_open = false;
    }

    /// The address of the endpoint `path` of the HTTP server.
    pub fn endpoint(&self, path: &str) -> (u: String)
        ensures
            u@ == self.http_server@ + path@,
    {
        endpoint_url(self.http_server.as_str(), path)
    }

    /// The address that creates a conversation: a group chat from the
    /// create-group window, or a private chat from the friends list or the
    /// member list.
    pub fn create_group_chat_url(&self) -> (u: String)
        ensures
            u@ == self.http_server@ + "/create_group_chat"@,
    {
        endpoint_url(self.http_server.as_str(), "/create_group_chat")
    }

    /// The address that takes a message and its files.
    pub fn send_message_url(&self) -> (u: String)
        ensures
            u@ == self.http_server@ + "/user_send_message"@,
    {
        endpoint_url(self.http_server.as_str(), "/user_send_message")
    }

    /// The address that searches groups and users by keyword.
    pub fn search_url(&self) -> (u: String)
        ensures
            u@ == self.http_server@ + "/search_group_and_user"@,
    {
        endpoint_url(self.http_server.as_str(), "/search_group_and_user")
    }

    /// The address that adds the user to a group.
    pub fn join_group_chat_url(&self) -> (u: String)
        ensures
            u@ == self.http_server@ + "/join_group_chat"@,
    {
        endpoint_url(self.http_server.as_str(), "/join_group_chat")
    }

    /// The address that lists the logged-in user's conversations and
    /// friends.
    pub fn user_message_group_url(&self) -> (u: String)
        ensures
            u@ == self.http_server@ + "/user_message_group?user_id="@ + self.user_state.user_id@,
    {
        let mut u = endpoint_url(self.http_server.as_str(), "/user_message_group?user_id=");
        u.append(self.user_state.user_id.as_str());
        u
    }

    /// The WebSocket connection for the logged-in user: it connects to the
    /// server's `/register_ws` and authenticates with the user's id and
    /// token. Returns the connection and its first action.
    pub fn init_ws(&self) -> (r: (WsSession, WsAction))
        ensures
            r.0.phase == WsPhase::Connecting,
            r.0.url@ == self.ws_server@ + "/register_ws"@,
            r.0.auth_payload@ == auth_message_text(self.user_state.user_id@, self.user_state.user_token@),
            r.1@ == WsActionModel::Connect(r.0.url@),
    {
        let url = endpoint_url(self.ws_server.as_str(), "/register_ws");
        proof {
            reveal_strlit("id");
            reveal_strlit("token");
        }
        assert(sorts_before("id"@, "token"@));
        let auth_payload = json_object2(
            "id",
            self.user_state.user_id.as_str(),
            "token",
            self.user_state.user_token.as_str(),
        );
        let first = WsAction::Connect(url.clone());
        (WsSession { phase: WsPhase::Connecting, url, auth_payload }, first)
    }
}

/// A request to open a dialog when one may be open: whether it opens, and
/// whether a dialog is open afterwards.
pub open spec fn spec_try_open_dialog(open: bool) -> (bool, bool) {
    (!open, true)
}

/// At most one dialog window is open at a time: after any request to open
/// one, a second request is refused until the dialog closes, and after a
/// close the next request succeeds.
pub proof fn lemma_one_dialog_at_a_time(open: bool)
    ensures
        !spec_try_open_dialog(spec_try_open_dialog(open).1).0,
        spec_try_open_dialog(false).0,
{
}

} // verus!
