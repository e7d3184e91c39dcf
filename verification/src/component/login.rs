//! The login window.

use vstd::prelude::*;

use crate::component::message_page::create_group_chat_window::{normalize_path, normalized_path};
use crate::service::http_request::endpoint_url;

verus! {

/// The pages of the login window.
pub enum Page {
    LoginPage,
    RegisterPage,
    ResetPasswordPage,
}

/// The body of a login request.
pub struct LoginParams {
    pub username: String,
    pub password: String,
}

/// The server's reply to a login request.
pub struct LoginResponse<T> {
    pub code: String,
    pub data: T,
    pub msg: String,
}

/// What a successful login returns: the user's id, avatar and token.
pub struct LoginResponseMsg {
    pub user_id: String,
    pub user_avatar: String,
    pub user_token: String,
}

/// The mathematical value of a [`LoginResponseMsg`].
pub struct LoginResponseMsgModel {
    pub user_id: Seq<char>,
    pub user_avatar: Seq<char>,
    pub user_token: Seq<char>,
}

impl View for LoginResponseMsg {
    type V = LoginResponseMsgModel;

    open spec fn view(&self) -> LoginResponseMsgModel {
        LoginResponseMsgModel {
            user_id: self.user_id@,
            user_avatar: self.user_avatar@,
            user_token: self.user_token@,
        }
    }
}

impl LoginResponseMsg {
    /// The state of a user who has not logged in: every field empty.
    pub fn empty() -> (m: Self)
        ensures
            m.user_id@ == Seq::<char>::empty(),
            m.user_avatar@ == Seq::<char>::empty(),
            m.user_token@ == Seq::<char>::empty(),
    {
        LoginResponseMsg { user_id: String::new(), user_avatar: String::new(), user_token: String::new() }
    }
}

impl Clone for LoginResponseMsg {
    fn clone(&self) -> (r: Self)
        ensures
            r@ == self@,
    {
        LoginResponseMsg {
            user_id: self.user_id.clone(),
            user_avatar: self.user_avatar.clone(),
            user_token: self.user_token.clone(),
        }
    }
}

/// The error shown when a field of the login form is empty.
pub open spec fn empty_fields_msg() -> Seq<char> {
    "请填写用户名密码"@
}

/// The code of a successful login reply.
pub open spec fn success_code() -> Seq<char> {
    "200"@
}

/// Why a login attempt brought no reply to judge.
pub enum LoginError {
    /// The request could not be sent; the transport's description.
    Send(String),
    /// The reply's body could not be read; the transport's description.
    Read(String),
    /// The body did not decode as a login reply; the decoder's description
    /// and the body.
    Decode { detail: String, body: String },
    /// The task that made the request did not finish; its description.
    Task(String),
}

/// The text the login window shows for an error.
pub open spec fn spec_login_error_text(e: LoginError) -> Seq<char> {
    match e {
        LoginError::Send(d) => "请求失败: "@ + d@,
        LoginError::Read(d) => "读取响应失败: "@ + d@,
        LoginError::Decode { detail, body } => "JSON 解析失败: "@ + detail@ + "\n原始内容: "@ + body@,
        LoginError::Task(d) => d@,
    }
}

impl LoginError {
    /// The text the login window shows for this error.
    pub fn text(&self) -> (t: String)
        ensures
            t@ == spec_login_error_text(*self),
    {
        let mut t = String::new();
        match self {
            LoginError::Send(d) => {
                t.append("请求失败: ");
                t.append(d.as_str());
            },
            LoginError::Read(d) => {
                t.append("读取响应失败: ");
                t.append(d.as_str());
            },
            LoginError::Decode { detail, body } => {
                t.append("JSON 解析失败: ");
                t.append(detail.as_str());
                t.append("\n原始内容: ");
                t.append(body.as_str());
            },
            LoginError::Task(d) => {
                t.append(d.as_str());
            },
        }
        assert(t@ =~= spec_login_error_text(*self));
        t
    }
}

/// The login window's state.
pub struct LoginView {
    pub avatar_path: Option<String>,
    pub login_state: bool,
    pub button_loading: bool,
    pub err_msg: String,
    pub current_page: Page,
}

/// The address of the login endpoint of the server at `base`.
pub fn login_url(base: &str) -> (u: String)
    ensures
        u@ == base@ + "/user/login"@,
{
    endpoint_url(base, "/user/login")
}

impl LoginView {
    /// The login page, with no error and nobody logged in.
    pub fn new() -> (v: Self)
        ensures
            v.avatar_path is None,
            !v.login_state,
            !v.button_loading,
            v.err_msg@ == Seq::<char>::empty(),
            v.current_page == Page::LoginPage,
    {
        LoginView {
            avatar_path: None,
            login_state: false,
            button_loading: false,
            err_msg: String::new(),
            current_page: Page::LoginPage,
        }
    }

    /// The user pressed the login button with the given username and
    /// password. With an empty field, the window shows an error and nothing
    /// is sent; otherwise the request to send is returned, and the button
    /// is ready again at once.
    pub fn submit_login(&mut self, username: &str, password: &str) -> (r: Option<LoginParams>)
        ensures
            (username@.len() == 0 || password@.len() == 0) ==> r is None && final(self).err_msg@
                == empty_fields_msg() && final(self).button_loading == old(self).button_loading,
            (username@.len() != 0 && password@.len() != 0) ==> (r matches Some(p) && p.username@
                == username@ && p.password@ == password@),
            (username@.len() != 0 && password@.len() != 0) ==> final(self).err_msg@ == old(self).err_msg@ && !final(self).button_loading,
            final(self).login_state == old(self).login_state,
            final(self).current_page == old(self).current_page,
            final(self).avatar_path == old(self).avatar_path,
    {
        if username.is_empty() || password.is_empty() {
            self.err_msg = "请填写用户名密码".to_owned();
            return None;
        }
        self.button_loading = true;
        let params = LoginParams { username: username.to_owned(), password: password.to_owned() };
        self.button_loading = false;
        Some(params)
    }

    /// The login request finished with `outcome`: the reply, or the text of
    /// the error that prevented one. A reply with code `200` logs the user
    /// in and hands back the user's data; any other reply shows its
    /// message, and an error shows its text.
    pub fn finish_login(&mut self, outcome: Result<LoginResponse<LoginResponseMsg>, LoginError>) -> (r: Option<LoginResponseMsg>)
        ensures
            match outcome {
                Ok(resp) => if resp.code@ == success_code() {
                    (r matches Some(d) && d@ == resp.data@) && final(self).login_state && final(self).err_msg@ == old(self).err_msg@
                } else {
                    r is None && final(self).err_msg@ == resp.msg@ && final(self).login_state
                        == old(self).login_state
                },
                Err(e) => r is None && final(self).err_msg@ == spec_login_error_text(e) && final(self).login_state
                    == old(self).login_state,
            },
            final(self).button_loading == old(self).button_loading,
            final(self).current_page == old(self).current_page,
            final(self).avatar_path == old(self).avatar_path,
    {
        match outcome {
            Ok(resp) => {
                if resp.code == "200".to_owned() {
                    self.login_state = true;
                    Some(resp.data)
                } else {
                    self.err_msg = resp.msg;
                    None
                }
            },
            Err(e) => {
                self.err_msg = e.text();
                None
            },
        }
    }

    /// Records the avatar the user picked, with slashes for separators.
    pub fn set_avatar_path(&mut self, picked: &str)
        ensures
            final(self).avatar_path matches Some(p) && p@ == normalized_path(picked@),
            final(self).login_state == old(self).login_state,
            final(self).button_loading == old(self).button_loading,
            final(self).err_msg == old(self).err_msg,
            final(self).current_page == old(self).current_page,
    {
        self.avatar_path = Some(normalize_path(picked));
    }

    /// The page drawn: the reset-password page is drawn as the login page.
    pub fn page_to_render(&self) -> (p: Page)
        ensures
            p == match self.current_page {
                Page::RegisterPage => Page::RegisterPage,
                _ => Page::LoginPage,
            },
    {
        match self.current_page {
            Page::LoginPage => Page::LoginPage,
            Page::RegisterPage => Page::RegisterPage,
            Page::ResetPasswordPage => Page::LoginPage,
        }
    }
}

} // verus!
