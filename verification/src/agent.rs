//! Driving the coding-agent CLI one user turn at a time: the stream-json message a
//! turn sends, the command line that runs it, and what each line that
//! comes back means.
use vstd::prelude::*;
use vstd::string::*;
use crate::json::{
    Json, JsonNumber, empty_object, get_str, is_object_with, is_str, object1, object2, object3,
    str_of,
};
use crate::paths::{debug_path, debug_path_text};
use crate::text::push_str;

verus! {

/// A file the user attached to a turn.
#[allow(inconsistent_fields)]
#[derive(Debug)]
pub enum UserAttachment {
    Image { media_type: String, data: String, name: Option<String> },
    Pdf { media_type: Option<String>, data: String, name: Option<String> },
    Text { media_type: Option<String>, text: String, name: Option<String> },
}

/// A stream event forwarded to the user interface, tagged with the
/// application's id for the session it belongs to.
#[derive(Debug)]
pub struct AgentEvent {
    pub session_id: String,
    pub raw: Json,
}

/// The member keys of the blocks built here differ from one another.
proof fn lemma_keys_distinct()
    ensures
        "type"@ != "text"@,
        "type"@ != "source"@,
        "type"@ != "media_type"@,
        "type"@ != "data"@,
        "media_type"@ != "data"@,
        "type"@ != "title"@,
        "source"@ != "title"@,
        "role"@ != "content"@,
        "type"@ != "message"@,
        "type"@ != "exit_code"@,
{
    reveal_strlit("type");
    reveal_strlit("text");
    reveal_strlit("source");
    reveal_strlit("media_type");
    reveal_strlit("data");
    reveal_strlit("title");
    reveal_strlit("role");
    reveal_strlit("content");
    reveal_strlit("message");
    reveal_strlit("exit_code");
    assert("type"@[1] != "text"@[1]);
    assert("type"@[0] != "data"@[0]);
    assert("source"@[0] != "title"@[0]);
    assert("role"@[0] != "content"@[0]);
    assert("type"@[0] != "source"@[0]);
    assert("type"@[0] != "media_type"@[0]);
    assert("media_type"@[0] != "data"@[0]);
    assert("type"@[1] != "title"@[1]);
    assert("type"@[0] != "message"@[0]);
    assert("type"@[0] != "exit_code"@[0]);
}

/// `src` is a base64 source block of the given media type and data.
pub open spec fn base64_source(src: Json, media_type: Seq<char>, data: Seq<char>) -> bool {
    &&& is_object_with(src, seq!["type"@, "media_type"@, "data"@])
    &&& str_of(src.spec_get("type"@)) == Some("base64"@)
    &&& str_of(src.spec_get("media_type"@)) == Some(media_type)
    &&& str_of(src.spec_get("data"@)) == Some(data)
}

/// `c` is a text content block carrying `text`.
pub open spec fn text_block(c: Json, text: Seq<char>) -> bool {
    &&& is_object_with(c, seq!["type"@, "text"@])
    &&& str_of(c.spec_get("type"@)) == Some("text"@)
    &&& str_of(c.spec_get("text"@)) == Some(text)
}

/// The text a text attachment is inlined as: a header naming the file
/// (`file` when it has no name), then its contents.
pub open spec fn inlined_text(name: Option<String>, body: Seq<char>) -> Seq<char> {
    let label = match name {
        Some(n) => n@,
        None => "file"@,
    };
    "=== "@ + label + " ===\n"@ + body
}

/// `c` is the content block an attachment becomes: an `image` block, a
/// `document` block (PDF by default, titled with the file name when it has
/// one), or a text block inlining the file.
pub open spec fn attachment_block(c: Json, a: UserAttachment) -> bool {
    match a {
        UserAttachment::Image { media_type, data, .. } => {
            &&& is_object_with(c, seq!["type"@, "source"@])
            &&& str_of(c.spec_get("type"@)) == Some("image"@)
            &&& c.spec_get("source"@) matches Some(src) && base64_source(src, media_type@, data@)
        },
        UserAttachment::Pdf { media_type, data, name } => {
            &&& is_object_with(
                c,
                match name {
                    Some(_) => seq!["type"@, "source"@, "title"@],
                    None => seq!["type"@, "source"@],
                },
            )
            &&& str_of(c.spec_get("type"@)) == Some("document"@)
            &&& c.spec_get("source"@) matches Some(src) && base64_source(
                src,
                match media_type {
                    Some(m) => m@,
                    None => "application/pdf"@,
                },
                data@,
            )
            &&& name matches Some(n) ==> str_of(c.spec_get("title"@)) == Some(n@)
        },
        UserAttachment::Text { text, name, .. } => text_block(c, inlined_text(name, text@)),
    }
}

/// `m` is the stream-json user message of a turn: one content block per
/// attachment, in order, then the typed text when there is any.
pub open spec fn is_user_message(m: Json, text: Seq<char>, attachments: Seq<UserAttachment>) -> bool {
    &&& is_object_with(m, seq!["type"@, "message"@])
    &&& str_of(m.spec_get("type"@)) == Some("user"@)
    &&& m.spec_get("message"@) matches Some(msg) && {
        &&& is_object_with(msg, seq!["role"@, "content"@])
        &&& str_of(msg.spec_get("role"@)) == Some("user"@)
        &&& msg.spec_get("content"@) matches Some(Json::Array(content)) && {
            &&& content@.len() == attachments.len() + if text.len() > 0 {
                1int
            } else {
                0
            }
            &&& forall|i: int|
                0 <= i < attachments.len() ==> attachment_block(
                    #[trigger] content@[i],
                    attachments[i],
                )
            &&& text.len() > 0 ==> text_block(content@[attachments.len() as int], text)
        }
    }
}

fn base64_source_block(media_type: &str, data: &str) -> (r: Json)
    ensures
        base64_source(r, media_type@, data@),
{
    proof {
        lemma_keys_distinct();
    }
    object3(
        "type",
        Json::string("base64"),
        "media_type",
        Json::string(media_type),
        "data",
        Json::string(data),
    )
}

fn text_content_block(text: &str) -> (r: Json)
    ensures
        text_block(r, text@),
{
    proof {
        lemma_keys_distinct();
    }
    object2("type", Json::string("text"), "text", Json::string(text))
}

/// The content block an attachment becomes.
pub fn attachment_content(a: &UserAttachment) -> (r: Json)
    ensures
        attachment_block(r, *a),
{
    proof {
        lemma_keys_distinct();
    }
    match a {
        UserAttachment::Image { media_type, data, .. } => {
            let src = base64_source_block(media_type.as_str(), data.as_str());
            object2("type", Json::string("image"), "source", src)
        },
        UserAttachment::Pdf { media_type, data, name } => {
            let mt = match media_type {
                Some(m) => m.as_str(),
                None => "application/pdf",
            };
            let src = base64_source_block(mt, data.as_str());
            match name {
                Some(n) => object3(
                    "type",
                    Json::string("document"),
                    "source",
                    src,
                    "title",
                    Json::string(n.as_str()),
                ),
                None => object2("type", Json::string("document"), "source", src),
            }
        },
        UserAttachment::Text { text, name, .. } => {
            let mut inlined = String::from_str("=== ");
            match name {
                Some(n) => push_str(&mut inlined, n.as_str()),
                None => push_str(&mut inlined, "file"),
            }
            push_str(&mut inlined, " ===\n");
            push_str(&mut inlined, text.as_str());
            text_content_block(inlined.as_str())
        },
    }
}

/// The user message for a turn, or `None` when the turn has neither text
/// nor attachments and there is nothing to send.
pub fn build_user_message(text: &str, attachments: &Vec<UserAttachment>) -> (r: Option<Json>)
    ensures
        r is None <==> (text@.len() == 0 && attachments@.len() == 0),
        r matches Some(m) ==> is_user_message(m, text@, attachments@),
{
    let mut content: Vec<Json> = Vec::new();
    let mut i: usize = 0;
    while i < attachments.len()
        invariant
            i <= attachments.len(),
            content@.len() == i,
            forall|j: int| 0 <= j < i ==> attachment_block(#[trigger] content@[j], attachments@[j]),
        decreases attachments.len() - i,
    {
        content.push(attachment_content(&attachments[i]));
        i += 1;
    }
    if !text.is_empty() {
        content.push(text_content_block(text));
    }
    if content.len() == 0 {
        return None;
    }
    proof {
        lemma_keys_distinct();
    }
    let ghost c = content@;
    let message = object2("role", Json::string("user"), "content", Json::Array(content));
    Some(object2("type", Json::string("user"), "message", message))
}

/// The arguments the agent CLI runs a turn with: stream-json in and out, only
/// the given MCP configuration, the permission mode, and `--resume` with
/// the session to continue, if any.
pub open spec fn spec_claude_args(
    mcp_config: Seq<char>,
    permission_mode: Seq<char>,
    resume: Option<Seq<char>>,
) -> Seq<Seq<char>> {
    seq![
        "--print"@,
        "--input-format"@,
        "stream-json"@,
        "--output-format"@,
        "stream-json"@,
        "--verbose"@,
        "--strict-mcp-config"@,
        "--mcp-config"@,
        mcp_config,
        "--permission-mode"@,
        permission_mode,
    ] + match resume {
        Some(sid) => seq!["--resume"@, sid],
        None => seq![],
    }
}

pub open spec fn string_views(v: Seq<String>) -> Seq<Seq<char>> {
    v.map_values(|s: String| s@)
}

fn push_arg(args: &mut Vec<String>, a: &str)
    ensures
        string_views(final(args)@) == string_views(old(args)@).push(a@),
{
    let ghost before = args@;
    args.push(String::from_str(a));
    assert(string_views(args@) =~= string_views(before).push(a@));
}

/// The arguments the agent CLI runs a turn with.
pub fn claude_args(mcp_config: &str, permission_mode: &str, resume: Option<&str>) -> (r: Vec<
    String,
>)
    ensures
        string_views(r@) == spec_claude_args(
            mcp_config@,
            permission_mode@,
            match resume {
                Some(s) => Some(s@),
                None => None,
            },
        ),
{
    let mut a: Vec<String> = Vec::new();
    push_arg(&mut a, "--print");
    push_arg(&mut a, "--input-format");
    push_arg(&mut a, "stream-json");
    push_arg(&mut a, "--output-format");
    push_arg(&mut a, "stream-json");
    push_arg(&mut a, "--verbose");
    push_arg(&mut a, "--strict-mcp-config");
    push_arg(&mut a, "--mcp-config");
    push_arg(&mut a, mcp_config);
    push_arg(&mut a, "--permission-mode");
    push_arg(&mut a, permission_mode);
    match resume {
        Some(sid) => {
            push_arg(&mut a, "--resume");
            push_arg(&mut a, sid);
        },
        None => {},
    }
    assert(string_views(a@) =~= spec_claude_args(
        mcp_config@,
        permission_mode@,
        match resume {
            Some(s) => Some(s@),
            None => None,
        },
    ));
    a
}

/// Why a turn could not start.
#[derive(Debug)]
pub enum AgentError {
    /// The workspace folder the turn runs in has gone.
    WorkspaceFolderMissing { path: String },
}

impl AgentError {
    /// The sentence that reports the error, with `shown` standing where the
    /// quoted path goes.
    pub open spec fn spec_message_showing(&self, shown: Seq<char>) -> Seq<char> {
        match self {
            AgentError::WorkspaceFolderMissing { .. } => "workspace folder no longer exists: "@
                + shown,
        }
    }

    /// The sentence that reports the error to the user, the path shown as a
    /// debug listing shows a path.
    pub open spec fn spec_message(&self) -> Seq<char> {
        match self {
            AgentError::WorkspaceFolderMissing { path } => self.spec_message_showing(
                debug_path(path@),
            ),
        }
    }

    pub fn message_showing(&self, shown: &str) -> (r: String)
        ensures
            r@ == self.spec_message_showing(shown@),
    {
        let mut r = String::from_str("workspace folder no longer exists: ");
        push_str(&mut r, shown);
        r
    }

    /// The sentence that reports the error to the user.
    pub fn message(&self) -> (r: String)
        ensures
            r@ == self.spec_message(),
    {
        match self {
            AgentError::WorkspaceFolderMissing { path } => {
                let shown = debug_path_text(path.as_str());
                self.message_showing(shown.as_str())
            },
        }
    }
}

/// What a turn does: the message written to the agent's input and the
/// arguments it is started with.
#[derive(Debug)]
pub struct TurnPlan {
    pub payload: Json,
    pub args: Vec<String>,
}

/// Plans a user turn. There is nothing to do when the turn has neither
/// text nor attachments; a turn in a workspace folder that no longer
/// exists is refused; otherwise the plan resumes `resume` when given.
pub fn plan_turn(
    text: &str,
    attachments: &Vec<UserAttachment>,
    working_dir: &str,
    working_dir_is_dir: bool,
    mcp_config: &str,
    permission_mode: &str,
    resume: Option<&str>,
) -> (r: Result<Option<TurnPlan>, AgentError>)
    ensures
        (text@.len() == 0 && attachments@.len() == 0) ==> r matches Ok(None),
        !(text@.len() == 0 && attachments@.len() == 0) && !working_dir_is_dir ==> (r matches Err(
            AgentError::WorkspaceFolderMissing { path },
        ) && path@ == working_dir@),
        !(text@.len() == 0 && attachments@.len() == 0) && working_dir_is_dir ==> (r matches Ok(
            Some(plan),
        ) && is_user_message(plan.payload, text@, attachments@) && string_views(plan.args@)
            == spec_claude_args(
            mcp_config@,
            permission_mode@,
            match resume {
                Some(s) => Some(s@),
                None => None,
            },
        )),
{
    let payload = match build_user_message(text, attachments) {
        Some(p) => p,
        None => {
            return Ok(None);
        },
    };
    if !working_dir_is_dir {
        return Err(AgentError::WorkspaceFolderMissing { path: String::from_str(working_dir) });
    }
    let args = claude_args(mcp_config, permission_mode, resume);
    Ok(Some(TurnPlan { payload, args }))
}

// ── reading what the agent writes back ─ ───────────────────────────────────

/// What one line of the agent's output means.
#[derive(Debug)]
pub struct LineOutcome {
    /// The event the line stands for.
    pub raw: Json,
    /// The line is the `system`/`init` event that starts a session.
    pub is_init: bool,
    /// The session id an init event carries.
    pub session_id: Option<String>,
    /// The event belongs in the conversation's replayable history.
    pub persist: bool,
    /// The event is the `result` that ends the turn.
    pub turn_complete: bool,
}

/// `j` is the wrapper event `{type, text}` for a line that is not JSON.
pub open spec fn is_wrapped_line(j: Json, kind: Seq<char>, line: Seq<char>) -> bool {
    &&& is_object_with(j, seq!["type"@, "text"@])
    &&& str_of(j.spec_get("type"@)) == Some(kind)
    &&& str_of(j.spec_get("text"@)) == Some(line)
}

fn wrap_line(kind: &str, line: &str) -> (r: Json)
    ensures
        is_wrapped_line(r, kind@, line@),
{
    proof {
        lemma_keys_distinct();
    }
    object2("type", Json::string(kind), "text", Json::string(line))
}

/// What one non-empty line of the agent's output means. A standard-error
/// line becomes a `stderr` event; a standard-output line is the JSON it
/// parsed to (`parsed`), or an `unparsed` event when it is not JSON. Empty
/// lines are skipped (`None`).
pub fn classify_line(line: &str, parsed: Option<Json>, is_stderr: bool) -> (r: Option<LineOutcome>)
    ensures
        line@.len() == 0 <==> r is None,
        r matches Some(o) ==> {
            &&& is_stderr ==> is_wrapped_line(o.raw, "stderr"@, line@)
            &&& !is_stderr ==> match parsed {
                Some(p) => o.raw == p,
                None => is_wrapped_line(o.raw, "unparsed"@, line@),
            }
            &&& o.is_init == (!is_stderr && str_of(o.raw.spec_get("type"@)) == Some("system"@)
                && str_of(o.raw.spec_get("subtype"@)) == Some("init"@))
            &&& o.is_init ==> match o.session_id {
                Some(s) => str_of(o.raw.spec_get("session_id"@)) == Some(s@),
                None => str_of(o.raw.spec_get("session_id"@)) is None,
            }
            &&& !o.is_init ==> o.session_id is None
            &&& o.persist == !is_stderr
            &&& o.turn_complete == (!is_stderr && str_of(o.raw.spec_get("type"@)) == Some(
                "result"@,
            ))
        },
{
    if line.is_empty() {
        return None;
    }
    let raw = if is_stderr {
        wrap_line("stderr", line)
    } else {
        match parsed {
            Some(p) => p,
            None => wrap_line("unparsed", line),
        }
    };
    let is_init = !is_stderr && is_str(raw.get("type"), "system") && is_str(
        raw.get("subtype"),
        "init",
    );
    let session_id = if is_init {
        get_str(raw.get("session_id"))
    } else {
        None
    };
    let turn_complete = !is_stderr && is_str(raw.get("type"), "result");
    Some(LineOutcome { raw, is_init, session_id, persist: !is_stderr, turn_complete })
}

/// Latches the session id: the first one captured is kept for good.
pub fn latch_session_id(current: &mut Option<String>, captured: Option<String>)
    ensures
        match *old(current) {
            Some(s) => *final(current) == Some(s),
            None => *final(current) == captured,
        },
{
    if current.is_none() {
        *current = captured;
    }
}

/// Whether the end of the agent's output reports a failed resume: the turn
/// asked to resume a session and standard output ended before any
/// `system`/`init` event.
pub fn reports_resume_failure(is_stderr: bool, used_resume: bool, saw_init: bool) -> (r: bool)
    ensures
        r == (!is_stderr && used_resume && !saw_init),
{
    !is_stderr && used_resume && !saw_init
}

/// The `resume_failure` event, with the agent's exit code when it had one.
pub fn resume_failure_event(exit_code: Option<i32>) -> (r: Json)
    ensures
        is_object_with(r, seq!["type"@, "exit_code"@]),
        str_of(r.spec_get("type"@)) == Some("resume_failure"@),
        match exit_code {
            Some(c) => r.spec_get("exit_code"@) == Some(
                if c >= 0 {
                    Json::Number(JsonNumber::PosInt(c as u64))
                } else {
                    Json::Number(JsonNumber::NegInt(c as i64))
                },
            ),
            None => r.spec_get("exit_code"@) == Some(Json::Null),
        },
{
    proof {
        lemma_keys_distinct();
    }
    let code = match exit_code {
        Some(c) => Json::integer(c as i64),
        None => Json::Null,
    };
    object2("type", Json::string("resume_failure"), "exit_code", code)
}

/// The folder a new session runs in: the requested one, else the user's
/// home folder, else the current folder.
pub fn session_working_dir(requested: Option<String>, home: Option<String>) -> (r: String)
    ensures
        r@ == match requested {
            Some(d) => d@,
            None => match home {
                Some(h) => h@,
                None => "."@,
            },
        },
{
    match requested {
        Some(d) => d,
        None => match home {
            Some(h) => h,
            None => String::from_str("."),
        },
    }
}

/// The permission mode a new session runs with: the requested one, else
/// `bypassPermissions`.
pub fn session_permission_mode(requested: Option<&str>) -> (r: String)
    ensures
        r@ == match requested {
            Some(m) => m@,
            None => "bypassPermissions"@,
        },
{
    match requested {
        Some(m) => String::from_str(m),
        None => String::from_str("bypassPermissions"),
    }
}

} // verus!
