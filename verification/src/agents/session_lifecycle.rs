//! What the endpoints for agent sessions share: the statuses a session goes
//! through, and the checks on what a caller supplies.

use crate::error::AppError;
use crate::ids::{hex_digit, nibble, Uuid};
use crate::text::{chars_of, is_one_of, listed, same, string_of};
use vstd::prelude::*;

verus! {

/// Statuses that the agent runner may set.
pub const VALID_AGENT_STATUSES: [&'static str; 7] = [
    "pending",
    "running",
    "terminating",
    "terminated",
    "cancelled",
    "failed",
    "completed",
];

/// Statuses that a session does not leave again.
pub const TERMINAL_STATUSES: [&'static str; 4] = ["terminated", "cancelled", "failed", "completed"];

/// Statuses in which a session has a live stream.
pub const LIVE_STATUSES: [&'static str; 3] = ["pending", "running", "terminating"];

/// Whether the runner may set `status`.
pub open spec fn valid_status(status: Seq<char>) -> bool {
    listed(VALID_AGENT_STATUSES@, status)
}

/// Whether a session does not leave `status` again.
pub open spec fn terminal_status(status: Seq<char>) -> bool {
    listed(TERMINAL_STATUSES@, status)
}

/// Whether a session in `status` has a live stream.
pub open spec fn live_status(status: Seq<char>) -> bool {
    listed(LIVE_STATUSES@, status)
}

/// Whether the runner may set `status`.
pub fn is_valid_status(status: &str) -> (r: bool)
    ensures
        r == valid_status(status@),
        r <==> status@ == "pending"@ || status@ == "running"@ || status@ == "terminating"@ || status@ == "terminated"@
            || status@ == "cancelled"@ || status@ == "failed"@ || status@ == "completed"@,
{
    proof {
        statuses_by_name(status@);
    }
    is_one_of(status, VALID_AGENT_STATUSES.as_slice())
}

/// Whether a session does not leave `status` again.
pub fn is_terminal_status(status: &str) -> (r: bool)
    ensures
        r == terminal_status(status@),
        r <==> status@ == "terminated"@ || status@ == "cancelled"@ || status@ == "failed"@ || status@ == "completed"@,
{
    proof {
        statuses_by_name(status@);
    }
    is_one_of(status, TERMINAL_STATUSES.as_slice())
}

/// Whether a session in `status` has a live stream.
pub fn is_live_status(status: &str) -> (r: bool)
    ensures
        r == live_status(status@),
        r <==> status@ == "pending"@ || status@ == "running"@ || status@ == "terminating"@,
{
    proof {
        statuses_by_name(status@);
    }
    is_one_of(status, LIVE_STATUSES.as_slice())
}

/// Every status that is final can be set.
pub proof fn terminal_statuses_are_valid(status: Seq<char>)
    requires
        terminal_status(status),
    ensures
        valid_status(status),
{
    let i = choose|i: int| 0 <= i < TERMINAL_STATUSES@.len() && #[trigger] TERMINAL_STATUSES@[i]@ == status;
    assert(VALID_AGENT_STATUSES@[i + 3]@ == status);
}

/// Every status is one of: live and not final, final and not live, or not a
/// status that can be set.
pub proof fn live_and_terminal_are_disjoint(status: Seq<char>)
    ensures
        !(live_status(status) && terminal_status(status)),
        valid_status(status) <==> live_status(status) || terminal_status(status),
{
    reveal_strlit("pending");
    reveal_strlit("running");
    reveal_strlit("terminating");
    reveal_strlit("terminated");
    reveal_strlit("cancelled");
    reveal_strlit("failed");
    reveal_strlit("completed");
    if live_status(status) {
        let i = choose|i: int| 0 <= i < LIVE_STATUSES@.len() && #[trigger] LIVE_STATUSES@[i]@ == status;
        assert(VALID_AGENT_STATUSES@[i]@ == status);
        if terminal_status(status) {
            let j = choose|j: int| 0 <= j < TERMINAL_STATUSES@.len() && #[trigger] TERMINAL_STATUSES@[j]@ == status;
            assert(LIVE_STATUSES@[i]@ == TERMINAL_STATUSES@[j]@);
            assert(LIVE_STATUSES@[i]@[0] == TERMINAL_STATUSES@[j]@[0]);
            assert(LIVE_STATUSES@[i]@.len() == TERMINAL_STATUSES@[j]@.len());
        }
    }
    if terminal_status(status) {
        terminal_statuses_are_valid(status);
    }
    if valid_status(status) {
        let k = choose|k: int| 0 <= k < VALID_AGENT_STATUSES@.len() && #[trigger] VALID_AGENT_STATUSES@[k]@ == status;
        if k < 3 {
            assert(LIVE_STATUSES@[k]@ == status);
        } else {
            assert(TERMINAL_STATUSES@[k - 3]@ == status);
        }
    }
}

/// Most characters of a prompt that the database keeps.
pub const PROMPT_PREVIEW_MAX_CHARS: usize = 256;

/// The first characters of a text, as many as a preview may have.
pub open spec fn preview_of(s: Seq<char>) -> Seq<char> {
    if s.len() > PROMPT_PREVIEW_MAX_CHARS {
        s.take(PROMPT_PREVIEW_MAX_CHARS as int)
    } else {
        s
    }
}

/// The first 256 characters of `s`.
pub fn prompt_preview(s: &str) -> (r: String)
    ensures
        r@ == preview_of(s@),
        r@.len() <= PROMPT_PREVIEW_MAX_CHARS,
        s@.len() <= 256 ==> r@ == s@,
        s@.len() > 256 ==> r@ == s@.subrange(0, 256),
{
    let mut chars = chars_of(s);
    if chars.len() > PROMPT_PREVIEW_MAX_CHARS {
        chars.truncate(PROMPT_PREVIEW_MAX_CHARS);
    }
    string_of(&chars)
}

/// The programs that can run a session.
#[derive(Debug, Clone, Copy, PartialEq, Eq, Structural)]
pub enum AgentRuntime {
    ClaudeCode,
    Opencode,
    Pi,
}

/// The runtime with the name `s`.
pub open spec fn runtime_named(s: Seq<char>) -> Option<AgentRuntime> {
    if s == "claude_code"@ {
        Some(AgentRuntime::ClaudeCode)
    } else if s == "opencode"@ {
        Some(AgentRuntime::Opencode)
    } else if s == "pi"@ {
        Some(AgentRuntime::Pi)
    } else {
        None
    }
}

/// The runtime with the name `s`.
pub fn parse_runtime(s: &str) -> (r: Option<AgentRuntime>)
    ensures
        r == runtime_named(s@),
        r == Some(AgentRuntime::ClaudeCode) <==> s@ == "claude_code"@,
        r == Some(AgentRuntime::Opencode) <==> s@ == "opencode"@,
        r == Some(AgentRuntime::Pi) <==> s@ == "pi"@,
{
    proof {
        reveal_strlit("claude_code");
        reveal_strlit("opencode");
        reveal_strlit("pi");
        assert("claude_code"@.len() == 11 && "opencode"@.len() == 8 && "pi"@.len() == 2);
    }
    if same(s, "claude_code") {
        Some(AgentRuntime::ClaudeCode)
    } else if same(s, "opencode") {
        Some(AgentRuntime::Opencode)
    } else if same(s, "pi") {
        Some(AgentRuntime::Pi)
    } else {
        None
    }
}

/// Whether a whole component `..` starts at `i`.
pub open spec fn parent_at(path: Seq<char>, i: int) -> bool {
    &&& 0 <= i && i + 2 <= path.len()
    &&& path[i] == '.' && path[i + 1] == '.'
    &&& i == 0 || path[i - 1] == '/'
    &&& i + 2 == path.len() || path[i + 2] == '/'
}

/// Whether `path` is relative, has no component `..`, and does not start with the component `.`.
pub open spec fn safe_path(path: Seq<char>) -> bool {
    &&& path.len() == 0 || path[0] != '/'
    &&& !(path.len() > 0 && path[0] == '.' && (path.len() == 1 || path[1] == '/'))
    &&& forall|i: int| !(#[trigger] parent_at(path, i))
}

/// Accepts a workspace path that cannot leave the workspace root.
pub fn validate_workspace_path(path: &str) -> (r: Result<(), AppError>)
    ensures
        r == if safe_path(path@) {
            Ok::<(), AppError>(())
        } else {
            Err(AppError::InvalidInput)
        },
        r is Err <==> {
            ||| path@.len() > 0 && path@[0] == '/'
            ||| path@.len() > 0 && path@[0] == '.' && (path@.len() == 1 || path@[1] == '/')
            ||| exists|i: int|
                0 <= i < path@.len() - 1 && #[trigger] path@[i] == '.' && path@[i + 1] == '.' && (i == 0 || path@[i - 1]
                    == '/') && (i + 2 == path@.len() || path@[i + 2] == '/')
        },
{
    let p = chars_of(path);
    let n: usize = p.len();
    if n > 0 && p[0] == '/' {
        return Err(AppError::InvalidInput);
    }
    if n > 0 && p[0] == '.' && (n == 1 || p[1] == '/') {
        return Err(AppError::InvalidInput);
    }
    let mut i: usize = 0;
    while i < n
        invariant
            n == p@.len(),
            p@ == path@,
            i <= n,
            forall|j: int| j < i ==> !(#[trigger] parent_at(p@, j)),
        decreases n - i,
    {
        if n - i >= 2 && p[i] == '.' && p[i + 1] == '.' && (i == 0 || p[i - 1] == '/') && (n - i == 2 || p[i + 2] == '/') {
            assert(parent_at(path@, i as int));
            return Err(AppError::InvalidInput);
        }
        assert(!parent_at(p@, i as int));
        i += 1;
    }
    assert forall|i: int|
        0 <= i < path@.len() - 1 && #[trigger] path@[i] == '.' && path@[i + 1] == '.' && (i == 0 || path@[i - 1] == '/')
            && (i + 2 == path@.len() || path@[i + 2] == '/') implies false by {
        assert(parent_at(p@, i));
    }
    Ok(())
}

/// The workspace path of a session that was not given one.
pub open spec fn default_workspace(tenant: Uuid, session: Uuid) -> Seq<char> {
    tenant.text() + "/"@ + session.text()
}

/// A session's own workspace path is always accepted.
pub proof fn default_workspace_is_safe(tenant: Uuid, session: Uuid)
    ensures
        safe_path(default_workspace(tenant, session)),
{
    reveal_strlit("/");
    let path = default_workspace(tenant, session);
    assert forall|i: int| 0 <= i < path.len() implies #[trigger] path[i] != '.' && (path[i] == '/' ==> i == 36) by {
        if i < 36 {
            assert(path[i] == tenant.text()[i]);
        } else if i > 36 {
            assert(path[i] == session.text()[i - 37]);
        }
    }
    assert(path[0] != '/');
    assert(path[0] != '.');
    assert forall|i: int| !(#[trigger] parent_at(path, i)) by {
        if 0 <= i < path.len() {
            assert(path[i] != '.');
        }
    }
}

/// The statuses by their names: three in which a session is live, and four that it does
/// not leave again; no others can be set.
pub proof fn statuses_by_name(status: Seq<char>)
    ensures
        live_status(status) <==> status == "pending"@ || status == "running"@ || status == "terminating"@,
        terminal_status(status) <==> status == "terminated"@ || status == "cancelled"@ || status == "failed"@ || status
            == "completed"@,
        valid_status(status) <==> live_status(status) || terminal_status(status),
{
    live_and_terminal_are_disjoint(status);
    assert(LIVE_STATUSES@[0]@ == "pending"@ && LIVE_STATUSES@[1]@ == "running"@ && LIVE_STATUSES@[2]@
        == "terminating"@);
    assert(TERMINAL_STATUSES@[0]@ == "terminated"@ && TERMINAL_STATUSES@[1]@ == "cancelled"@ && TERMINAL_STATUSES@[2]@
        == "failed"@ && TERMINAL_STATUSES@[3]@ == "completed"@);
}

/// A workspace path that is accepted stays inside: it is relative, and no component of
/// it, however it is made up of a start, the component and a rest, is `..`. One that
/// starts with `..`, `./` or a slash, is `.` alone, or leads up anywhere, is refused.
pub proof fn accepted_paths_stay_inside(start: Seq<char>, rest: Seq<char>)
    ensures
        !safe_path("/"@ + rest),
        !safe_path("."@),
        !safe_path("./"@ + rest),
        !safe_path(".."@),
        !safe_path("../"@ + rest),
        !safe_path(start + "/.."@),
        !safe_path(start + "/../"@ + rest),
{
    reveal_strlit("/");
    reveal_strlit(".");
    reveal_strlit("./");
    reveal_strlit("..");
    reveal_strlit("../");
    reveal_strlit("/..");
    reveal_strlit("/../");
    assert(parent_at(".."@, 0));
    assert(parent_at("../"@ + rest, 0));
    assert(parent_at(start + "/.."@, (start.len() + 1) as int));
    assert(parent_at(start + "/../"@ + rest, (start.len() + 1) as int));
}

/// A relative path without a dot is accepted.
pub proof fn plain_paths_are_accepted(path: Seq<char>)
    requires
        path.len() == 0 || path[0] != '/',
        !path.contains('.'),
    ensures
        safe_path(path),
{
    assert forall|i: int| !(#[trigger] parent_at(path, i)) by {
        if 0 <= i < path.len() {
            assert(path.contains(path[i]));
        }
    }
    if path.len() > 0 {
        assert(path.contains(path[0]));
    }
}

} // verus!
