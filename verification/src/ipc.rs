//! Where the event and command sockets live, and the line protocol of the
//! command socket.
//!
//! The sockets themselves (binding, accepting, writing JSON lines) belong to
//! the program around the library; it asks these functions where they are
//! and what to answer.
use vstd::prelude::*;
use crate::text::{str_eq, trim, trim_str};

verus! {

/// File name of the event socket.
pub open spec fn event_socket_name() -> Seq<char> {
    "ears.sock"@
}

/// File name of the command socket.
pub open spec fn command_socket_name() -> Seq<char> {
    "ears-cmd.sock"@
}

/// `name` joined below directory `dir`, as `Path::join` does for a relative
/// file name: no separator is added to an empty directory or one that
/// already ends in `/`.
pub open spec fn joined(dir: Seq<char>, name: Seq<char>) -> Seq<char> {
    if dir.len() == 0 {
        name
    } else if dir.last() == '/' {
        dir + name
    } else {
        dir + seq!['/'] + name
    }
}

/// Where a socket named `name` lives: in the runtime directory when one is
/// set, else in `/tmp`.
pub open spec fn socket_in(runtime_dir: Option<Seq<char>>, name: Seq<char>) -> Seq<char> {
    match runtime_dir {
        Some(d) => joined(d, name),
        None => "/tmp/"@ + name,
    }
}

fn join_path(dir: &str, name: &str) -> (r: String)
    ensures
        r@ == joined(dir@, name@),
{
    let mut s = dir.to_string();
    let v = crate::text::chars_of(dir);
    if v.len() > 0 && v[v.len() - 1] != '/' {
        crate::text::string_push(&mut s, '/');
    }
    s.append(name);
    proof {
        if dir@.len() > 0 && dir@.last() != '/' {
            assert(dir@ + seq!['/'] + name@ =~= dir@.push('/') + name@);
        }
    }
    s
}

fn socket_path_in(runtime_dir: Option<&str>, name: &str) -> (r: String)
    ensures
        r@ == socket_in(
            match runtime_dir {
                Some(d) => Some(d@),
                None => None,
            },
            name@,
        ),
{
    match runtime_dir {
        Some(d) => join_path(d, name),
        None => {
            let mut s = "/tmp/".to_string();
            s.append(name);
            s
        },
    }
}

/// The event socket's path, given the value of `XDG_RUNTIME_DIR` (`None`
/// when it is not set).
pub fn event_socket_path(runtime_dir: Option<&str>) -> (r: String)
    ensures
        r@ == socket_in(
            match runtime_dir {
                Some(d) => Some(d@),
                None => None,
            },
            event_socket_name(),
        ),
{
    socket_path_in(runtime_dir, "ears.sock")
}

/// The command socket's path, given the value of `XDG_RUNTIME_DIR` (`None`
/// when it is not set).
pub fn command_socket_path(runtime_dir: Option<&str>) -> (r: String)
    ensures
        r@ == socket_in(
            match runtime_dir {
                Some(d) => Some(d@),
                None => None,
            },
            command_socket_name(),
        ),
{
    socket_path_in(runtime_dir, "ears-cmd.sock")
}

/// A request read from the command socket.
#[derive(Debug, Clone, Copy, PartialEq, Eq, Structural)]
pub enum CommandRequest {
    /// Flip whether Enter is pressed after each dictated segment.
    ToggleAutoEnter,
}

/// The request a line of the command protocol asks for, if it names one:
/// surrounding white space is ignored.
pub open spec fn request_of(line: Seq<char>) -> Option<CommandRequest> {
    if trim(line) == "toggle-auto-enter"@ {
        Some(CommandRequest::ToggleAutoEnter)
    } else {
        None
    }
}

/// Parses one line of the command protocol.
pub fn parse_command_line(line: &str) -> (r: Option<CommandRequest>)
    ensures
        r == request_of(line@),
{
    let t = trim_str(line);
    if str_eq(t.as_str(), "toggle-auto-enter") {
        Some(CommandRequest::ToggleAutoEnter)
    } else {
        None
    }
}

/// The answer to a line naming no known command.
pub open spec fn unknown_command_reply() -> Seq<char> {
    "error:unknown-command"@
}

/// The answer once auto-enter has been set to `on`.
pub open spec fn auto_enter_reply(on: bool) -> Seq<char> {
    if on { "auto-enter:on"@ } else { "auto-enter:off"@ }
}

/// What a daemon whose auto-enter setting is `auto_enter` makes of one
/// line of the command protocol: the setting afterwards and the reply line.
pub open spec fn answer(line: Seq<char>, auto_enter: bool) -> (bool, Seq<char>) {
    match request_of(line) {
        Some(CommandRequest::ToggleAutoEnter) => (!auto_enter, auto_enter_reply(!auto_enter)),
        None => (auto_enter, unknown_command_reply()),
    }
}

/// Answers one line of the command protocol: the auto-enter setting
/// afterwards, and the reply line (without its newline).
pub fn answer_command(line: &str, auto_enter: bool) -> (r: (bool, String))
    ensures
        r.0 == answer(line@, auto_enter).0,
        r.1@ == answer(line@, auto_enter).1,
{
    match parse_command_line(line) {
        Some(CommandRequest::ToggleAutoEnter) => {
            let on = !auto_enter;
            let reply = if on { "auto-enter:on".to_string() } else { "auto-enter:off".to_string() };
            (on, reply)
        },
        None => (auto_enter, "error:unknown-command".to_string()),
    }
}

/// Sending the same line twice leaves the auto-enter setting as it was, and
/// the two replies to a toggle differ: each names the setting it left.
pub proof fn law_command_twice_restores(line: Seq<char>, auto_enter: bool)
    ensures
        answer(line, answer(line, auto_enter).0).0 == auto_enter,
        request_of(line) is Some ==> answer(line, auto_enter).1 != answer(
            line,
            answer(line, auto_enter).0,
        ).1,
{
    reveal_strlit("auto-enter:on");
    reveal_strlit("auto-enter:off");
    assert("auto-enter:on"@.len() != "auto-enter:off"@.len());
}

} // verus!
