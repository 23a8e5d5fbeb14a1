//! The actions the web front end can ask of the application window.

use vstd::prelude::*;
use crate::text::{starts_with_seq, str_eq, str_starts_with};

verus! {

/// An action on the application or its window.
#[derive(Debug, Clone, PartialEq, Eq)]
pub enum AppAction {
    Exit,
    OpenTool { tool_id: String },
    OpenDocument { document_id: String },
    CloseWindow,
    MinimizeWindow,
    ToggleMaximizeWindow,
    StartResize { direction: String },
    DragWindow,
}

/// The text left after every leading repetition of a prefix is removed
/// (`str::trim_start_matches`).
pub open spec fn strip_prefixes(s: Seq<char>, p: Seq<char>) -> Seq<char>
    decreases s.len(),
{
    if p.len() > 0 && starts_with_seq(s, p) {
        strip_prefixes(s.skip(p.len() as int), p)
    } else {
        s
    }
}

/// Removes every leading repetition of a prefix.
pub fn trim_start_matches(s: &str, p: &str) -> (r: String)
    ensures
        r@ == strip_prefixes(s@, p@),
{
    let cs = crate::text::chars_of(s);
    let ps = crate::text::chars_of(p);
    let mut start: usize = 0;
    assert(cs@.skip(0) =~= cs@);
    while ps.len() > 0 && start <= cs.len() && crate::text::matches_at(&cs, &ps, start)
        invariant
            start <= cs@.len(),
            cs@ == s@,
            ps@ == p@,
            strip_prefixes(s@, p@) == strip_prefixes(cs@.skip(start as int), p@),
        decreases cs@.len() - start,
    {
        let ghost rest = cs@.skip(start as int);
        assert(rest.subrange(0, ps@.len() as int) =~= cs@.subrange(start as int, start + ps@.len()));
        assert(rest.skip(ps@.len() as int) =~= cs@.skip(start + ps@.len()));
        start = start + ps.len();
    }
    let ghost rest = cs@.skip(start as int);
    proof {
        if ps@.len() > 0 {
            assert(!crate::text::occurs_at(cs@, ps@, start as int));
            if starts_with_seq(rest, ps@) {
                assert(rest.subrange(0, ps@.len() as int) =~= cs@.subrange(start as int, start + ps@.len()));
            }
        }
    }
    let mut out: Vec<char> = Vec::new();
    let mut i = start;
    while i < cs.len()
        invariant
            start <= i <= cs@.len(),
            out@ == cs@.subrange(start as int, i as int),
        decreases cs@.len() - i,
    {
        out.push(cs[i]);
        i += 1;
        assert(out@ =~= cs@.subrange(start as int, i as int));
    }
    assert(out@ =~= rest);
    crate::text::string_from_chars(&out)
}

/// The action a request names, or `None` for an unknown one.
pub open spec fn spec_app_action(a: Seq<char>) -> Option<AppAction> {
    if a == "exit"@ {
        Some(AppAction::Exit)
    } else if starts_with_seq(a, "open_tool:"@) {
        Some(AppAction::OpenTool { tool_id: arbitrary() })
    } else if starts_with_seq(a, "open_document:"@) {
        Some(AppAction::OpenDocument { document_id: arbitrary() })
    } else if a == "close_window"@ {
        Some(AppAction::CloseWindow)
    } else if a == "minimize_window"@ {
        Some(AppAction::MinimizeWindow)
    } else if a == "toggle_maximize_window"@ {
        Some(AppAction::ToggleMaximizeWindow)
    } else if starts_with_seq(a, "start_resize:"@) {
        Some(AppAction::StartResize { direction: arbitrary() })
    } else if a == "drag_window"@ {
        Some(AppAction::DragWindow)
    } else {
        None
    }
}

/// Whether a parsed action is the one a request names, with the argument
/// that follows its prefix.
pub open spec fn action_matches(r: Option<AppAction>, a: Seq<char>) -> bool {
    match spec_app_action(a) {
        None => r is None,
        Some(AppAction::OpenTool { .. }) => r matches Some(AppAction::OpenTool { tool_id })
            && tool_id@ == strip_prefixes(a, "open_tool:"@),
        Some(AppAction::OpenDocument { .. }) => r matches Some(AppAction::OpenDocument { document_id })
            && document_id@ == strip_prefixes(a, "open_document:"@),
        Some(AppAction::StartResize { .. }) => r matches Some(AppAction::StartResize { direction })
            && direction@ == strip_prefixes(a, "start_resize:"@),
        Some(other) => r == Some(other),
    }
}

/// The action an `app_action` request of the front end names.
pub fn parse_app_action(action: &str) -> (r: Option<AppAction>)
    ensures
        action_matches(r, action@),
{
    if str_eq(action, "exit") {
        Some(AppAction::Exit)
    } else if str_starts_with(action, "open_tool:") {
        Some(AppAction::OpenTool { tool_id: trim_start_matches(action, "open_tool:") })
    } else if str_starts_with(action, "open_document:") {
        Some(AppAction::OpenDocument { document_id: trim_start_matches(action, "open_document:") })
    } else if str_eq(action, "close_window") {
        Some(AppAction::CloseWindow)
    } else if str_eq(action, "minimize_window") {
        Some(AppAction::MinimizeWindow)
    } else if str_eq(action, "toggle_maximize_window") {
        Some(AppAction::ToggleMaximizeWindow)
    } else if str_starts_with(action, "start_resize:") {
        Some(AppAction::StartResize { direction: trim_start_matches(action, "start_resize:") })
    } else if str_eq(action, "drag_window") {
        Some(AppAction::DragWindow)
    } else {
        None
    }
}

} // verus!

verus! {

/// What the front end is told of an `app_action` request: acknowledged, or
/// an unknown action.
#[derive(Debug, Clone, PartialEq, Eq)]
pub enum ActionReply {
    Ack,
    Error { message: String },
}

/// The reply to an `app_action` request and the action to carry out.
pub fn app_action_reply(action: &str) -> (r: (ActionReply, Option<AppAction>))
    ensures
        action_matches(r.1, action@),
        r.1 is Some ==> r.0 == ActionReply::Ack,
        r.1 is None ==> (r.0 matches ActionReply::Error { message } && message@ == "Unknown action"@),
{
    let a = parse_app_action(action);
    match a {
        Some(x) => (ActionReply::Ack, Some(x)),
        None => (ActionReply::Error { message: "Unknown action".to_string() }, None),
    }
}

/// The file a request of the bundled front end asks for: the path without
/// its leading slash, `index.html` for the root; `None` for a path that
/// tries to climb out of the bundle.
pub open spec fn spec_asset_path(uri_path: Seq<char>) -> Option<Seq<char>> {
    let p = if uri_path.len() > 0 && uri_path[0] == '/' { uri_path.drop_first() } else { uri_path };
    let p2 = if p.len() == 0 { "index.html"@ } else { p };
    if crate::text::contains_seq(p2, ".."@) { None } else { Some(p2) }
}

/// The file a request of the bundled front end asks for.
pub fn asset_path(uri_path: &str) -> (r: Option<String>)
    ensures
        match r {
            Some(p) => spec_asset_path(uri_path@) == Some(p@),
            None => spec_asset_path(uri_path@) is None,
        },
{
    let cs = crate::text::chars_of(uri_path);
    let body: Vec<char> = if cs.len() > 0 && cs[0] == '/' {
        let v = crate::text::copy_chars(&cs, 1, cs.len());
        assert(v@ =~= uri_path@.drop_first());
        v
    } else {
        cs
    };
    let path: Vec<char> = if body.len() == 0 { crate::text::chars_of("index.html") } else { body };
    if crate::text::contains(&path, &crate::text::chars_of("..")) {
        None
    } else {
        Some(crate::text::string_from_chars(&path))
    }
}

/// The media type a bundled file is served with, by its extension.
pub open spec fn spec_asset_mime(ext: Option<Seq<char>>) -> Seq<char> {
    match ext {
        Some(e) => if e == "html"@ {
            "text/html"@
        } else if e == "js"@ {
            "application/javascript"@
        } else if e == "css"@ {
            "text/css"@
        } else if e == "png"@ {
            "image/png"@
        } else if e == "svg"@ {
            "image/svg+xml"@
        } else if e == "json"@ {
            "application/json"@
        } else {
            "application/octet-stream"@
        },
        None => "application/octet-stream"@,
    }
}

/// The media type a bundled file is served with.
pub fn asset_mime_type(ext: Option<&str>) -> (r: &'static str)
    ensures
        r@ == spec_asset_mime(match ext { Some(e) => Some(e@), None => None }),
{
    match ext {
        Some(e) => if str_eq(e, "html") {
            "text/html"
        } else if str_eq(e, "js") {
            "application/javascript"
        } else if str_eq(e, "css") {
            "text/css"
        } else if str_eq(e, "png") {
            "image/png"
        } else if str_eq(e, "svg") {
            "image/svg+xml"
        } else if str_eq(e, "json") {
            "application/json"
        } else {
            "application/octet-stream"
        },
        None => "application/octet-stream",
    }
}

/// The script that hands a reply to the front end's receiver.
pub open spec fn spec_receive_script(response: Seq<char>) -> Seq<char> {
    "if (window.__IPC_RECEIVE__) { window.__IPC_RECEIVE__("@ + response
        + ") } else { console.error('IPC Receive handler missing') }"@
}

/// The script that hands a reply to the front end's receiver.
pub fn receive_script(response: &str) -> (r: String)
    ensures
        r@ == spec_receive_script(response@),
{
    let mut v: Vec<char> = Vec::new();
    crate::text::push_str(&mut v, "if (window.__IPC_RECEIVE__) { window.__IPC_RECEIVE__(");
    crate::text::push_str(&mut v, response);
    crate::text::push_str(&mut v, ") } else { console.error('IPC Receive handler missing') }");
    crate::text::string_from_chars(&v)
}

/// The address and title of a tool's window: the development server's
/// address while developing, the bundled front end otherwise.
pub fn tool_window(tool_id: &str, development: bool) -> (r: (String, String))
    ensures
        r.0@ == (if development { "http://127.0.0.1:5173/#/tool/"@ } else { "app://localhost/index.html#/tool/"@ }) + tool_id@,
        r.1@ == "Tool: "@ + tool_id@,
{
    let base = if development { "http://127.0.0.1:5173/#/tool/" } else { "app://localhost/index.html#/tool/" };
    (crate::text::str_concat(base, tool_id), crate::text::str_concat("Tool: ", tool_id))
}

} // verus!
