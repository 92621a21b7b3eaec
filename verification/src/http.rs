//! The decisions of the HTTP listener, which serves the files of one
//! directory.
//!
//! The listener itself only carries out: it hands each event to
//! `th_http_listener` and does what the answer says.

use vstd::prelude::*;

verus! {

/// Status of a redirect that is to be remembered.
pub const PERMANENT_REDIRECT: u16 = 308;

/// Status of an answer that carries the file asked for.
pub const OK: u16 = 200;

/// Status of an answer to a request for a file that cannot be opened.
pub const NOT_FOUND: u16 = 404;

/// Status of an answer to a request that is no `GET` of an absolute path.
pub const METHOD_NOT_ALLOWED: u16 = 405;

/// What reaches the listener.
#[derive(Debug, Eq, PartialEq, Clone, Copy, Structural)]
pub enum HttpEvent {
    /// A request came in. `get`: its method is `GET`. `absolute`: its target
    /// is an absolute path. `root`: that path names the root.
    Request { get: bool, absolute: bool, root: bool },
    /// The file that a request asked for was read, and holds `length` bytes.
    FileRead { length: u64 },
    /// The file that a request asked for could not be opened.
    FileMissing,
    /// The file that a request asked for was opened, and could not be read.
    FileUnreadable,
}

/// What the listener does next.
#[derive(Debug, Eq, PartialEq, Clone, Copy, Structural)]
pub enum HttpAction {
    /// Answer with `status`, and send the client to the index page.
    Redirect { status: u16 },
    /// Read the file that the path names below the directory that is
    /// served, and report how that went.
    ReadFile,
    /// Answer with `status` and the file's content, `length` bytes.
    SendFile { status: u16, length: u64 },
    /// Answer with `status` and nothing else.
    Refuse { status: u16 },
    /// Leave the answer as it is.
    Nothing,
}

/// What the listener does on an event.
///
/// Only a `GET` of an absolute path is served. The root is answered with a
/// redirect to the index page; any other path with the file of that name,
/// or with `NOT_FOUND` where it cannot be opened.
pub open spec fn http_step(event: HttpEvent) -> HttpAction {
    match event {
        HttpEvent::Request { get, absolute, root } => if get && absolute {
            if root {
                HttpAction::Redirect { status: PERMANENT_REDIRECT }
            } else {
                HttpAction::ReadFile
            }
        } else {
            HttpAction::Refuse { status: METHOD_NOT_ALLOWED }
        },
        HttpEvent::FileRead { length } => HttpAction::SendFile { status: OK, length },
        HttpEvent::FileMissing => HttpAction::Refuse { status: NOT_FOUND },
        HttpEvent::FileUnreadable => HttpAction::Nothing,
    }
}

/// The page that a request for the root is sent to.
pub fn index_page() -> (page: &'static str)
    ensures
        page@ == "/index.html"@,
{
    "/index.html"
}

/// The directory whose files are served.
pub fn static_dir() -> (dir: &'static str)
    ensures
        dir@ == "static"@,
{
    "static"
}

/// One step of the HTTP listener: what it does on `event`.
pub fn th_http_listener(event: HttpEvent) -> (action: HttpAction)
    ensures
        action == http_step(event),
{
    match event {
        HttpEvent::Request { get, absolute, root } => {
            if !(get && absolute) {
                HttpAction::Refuse { status: METHOD_NOT_ALLOWED }
            } else if root {
                HttpAction::Redirect { status: PERMANENT_REDIRECT }
            } else {
                HttpAction::ReadFile
            }
        },
        HttpEvent::FileRead { length } => HttpAction::SendFile { status: OK, length },
        HttpEvent::FileMissing => HttpAction::Refuse { status: NOT_FOUND },
        HttpEvent::FileUnreadable => HttpAction::Nothing,
    }
}

} // verus!
