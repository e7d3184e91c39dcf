use gui::service::http_request::{
    endpoint_url, handle_response, is_success_status, HttpError, RequestKind, RestResponse,
};
use gui::text::{after_last, remove_char, replace_char, take_chars, to_decimal, wrap_chars};

#[test]
fn take_chars_counts_characters() {
    assert_eq!(take_chars("hello", 3), "hel");
    assert_eq!(take_chars("hi", 10), "hi");
    assert_eq!(take_chars("你好世界", 2), "你好");
    assert_eq!(take_chars("", 2), "");
    assert_eq!(take_chars("abc", 0), "");
}

#[test]
fn char_helpers() {
    assert_eq!(remove_char("a\nb\n", '\n'), "ab");
    assert_eq!(replace_char("a\\b", '\\', '/'), "a/b");
    assert_eq!(after_last("a/b/c", '/'), "c");
    assert_eq!(wrap_chars("abcdef", 2), "ab\ncd\nef");
    assert_eq!(wrap_chars("abcde", 2), "ab\ncd\ne");
    assert_eq!(to_decimal(0), "0");
    assert_eq!(to_decimal(99), "99");
    assert_eq!(to_decimal(100), "100");
    assert_eq!(to_decimal(usize::MAX), usize::MAX.to_string());
}

#[test]
fn status_codes() {
    assert!(is_success_status(200));
    assert!(is_success_status(204));
    assert!(is_success_status(299));
    assert!(!is_success_status(199));
    assert!(!is_success_status(300));
    assert!(!is_success_status(404));
}

fn resp() -> RestResponse<u32> {
    RestResponse { code: "200".to_string(), data: 7, msg: "ok".to_string() }
}

#[test]
fn handle_response_outcomes() {
    match handle_response(200, Ok(resp()), "{}".to_string()) {
        Ok(r) => assert_eq!(r.data, 7),
        Err(_) => panic!("expected a reply"),
    }
    match handle_response(201, Err::<RestResponse<u32>, String>("bad json".to_string()), "xx".to_string()) {
        Err(HttpError::Decode { detail, body }) => {
            assert_eq!(detail, "bad json");
            assert_eq!(body, "xx");
        },
        _ => panic!("expected a decoding error"),
    }
    match handle_response(500, Ok(resp()), "oops".to_string()) {
        Err(HttpError::Status { status, body }) => {
            assert_eq!(status, 500);
            assert_eq!(body, "oops");
        },
        _ => panic!("expected a status error"),
    }
    assert_eq!(endpoint_url("http://h", "/x"), "http://h/x");
}

#[test]
fn wrapping_keeps_every_character() {
    for s in ["", "a", "line\nbreak and more text that is long", "你好世界你好世界你好世界"] {
        for w in [1usize, 3, 40] {
            let wrapped = wrap_chars(s, w);
            assert_eq!(remove_char(&wrapped, '\n'), remove_char(s, '\n'));
        }
    }
}

#[test]
fn error_text_of_a_failed_status() {
    let body = r#"{"code":"500","data":null,"msg":"fail"}"#;
    match handle_response(500, Ok(resp()), body.to_string()) {
        Err(e) => assert_eq!(e.text(), format!("请求失败, 状态码: 500 Internal Server Error, 响应: {}", body)),
        Ok(_) => panic!("expected a status error"),
    }
    let e = HttpError::Status { status: 404, body: "nf".to_string() };
    assert_eq!(e.text(), "请求失败, 状态码: 404 Not Found, 响应: nf");
    let e = HttpError::Status { status: 599, body: String::new() };
    assert_eq!(e.text(), "请求失败, 状态码: 599 <unknown status code>, 响应: ");
    let e = HttpError::Status { status: 42, body: String::new() };
    assert_eq!(e.text(), "请求失败, 状态码: 42 <unknown status code>, 响应: ");
}

#[test]
fn error_text_of_send_and_decode_errors() {
    let e = HttpError::Send { kind: RequestKind::Get, detail: "refused".to_string() };
    assert_eq!(e.text(), "GET请求失败: refused");
    let e = HttpError::Send { kind: RequestKind::Post, detail: "refused".to_string() };
    assert_eq!(e.text(), "POST请求失败: refused");
    let e = HttpError::Send { kind: RequestKind::PostForm, detail: "refused".to_string() };
    assert_eq!(e.text(), "POST表单请求失败: refused");
    let e = HttpError::Decode { detail: "eof".to_string(), body: "{".to_string() };
    assert_eq!(e.text(), "序列化失败: eof, 响应内容: {");
}
