use nodemcu_collector::http::{
    index_page, static_dir, th_http_listener, HttpAction, HttpEvent, METHOD_NOT_ALLOWED,
    NOT_FOUND, OK, PERMANENT_REDIRECT,
};

#[test]
fn status_codes() {
    assert_eq!(PERMANENT_REDIRECT, 308);
    assert_eq!(OK, 200);
    assert_eq!(NOT_FOUND, 404);
    assert_eq!(METHOD_NOT_ALLOWED, 405);
    assert_eq!(index_page(), "/index.html");
    assert_eq!(static_dir(), "static");
}

#[test]
fn root_is_redirected() {
    let e = HttpEvent::Request { get: true, absolute: true, root: true };
    assert_eq!(th_http_listener(e), HttpAction::Redirect { status: 308 });
}

#[test]
fn other_path_is_read() {
    let e = HttpEvent::Request { get: true, absolute: true, root: false };
    assert_eq!(th_http_listener(e), HttpAction::ReadFile);
}

#[test]
fn other_requests_are_refused() {
    for (get, absolute, root) in [
        (false, true, true),
        (false, true, false),
        (true, false, false),
        (true, false, true),
        (false, false, false),
    ] {
        let e = HttpEvent::Request { get, absolute, root };
        assert_eq!(th_http_listener(e), HttpAction::Refuse { status: 405 });
    }
}

#[test]
fn file_outcomes() {
    assert_eq!(
        th_http_listener(HttpEvent::FileRead { length: 12 }),
        HttpAction::SendFile { status: 200, length: 12 }
    );
    assert_eq!(th_http_listener(HttpEvent::FileMissing), HttpAction::Refuse { status: 404 });
    assert_eq!(th_http_listener(HttpEvent::FileUnreadable), HttpAction::Nothing);
}
