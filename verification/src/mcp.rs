//! The desktop-control MCP server: splitting a command line into words, the
//! JSON-RPC requests it answers, the tools it offers, and the command
//! lines and replies of each tool.
use vstd::prelude::*;
use vstd::string::*;
use crate::json::{
    Json, JsonNumber, empty_object, get_bool, get_i64, get_str, i64_of, bool_of, is_object_with,
    object1, object2, object3, str_of,
};
use crate::text::{chars_of, decimal, is_whitespace, is_ws, push_decimal, push_signed_decimal, push_str, signed_decimal};

verus! {

// ── command-line words ──────────────────────────────────────────────────

/// Where the splitter stands: inside a quote or not, the word being read,
/// and the words read so far.
pub struct SplitState {
    pub quote: Option<char>,
    pub cur: Seq<char>,
    pub out: Seq<Seq<char>>,
}

/// One character of input: a quote character opens or closes a quoted
/// part, whitespace outside quotes ends a word, anything else joins the word.
pub open spec fn split_step(st: SplitState, c: char) -> SplitState {
    match st.quote {
        Some(q) => if c == q {
            SplitState { quote: None, ..st }
        } else {
            SplitState { cur: st.cur.push(c), ..st }
        },
        None => if c == '\'' || c == '"' {
            SplitState { quote: Some(c), ..st }
        } else if is_ws(c) {
            if st.cur.len() > 0 {
                SplitState { out: st.out.push(st.cur), cur: seq![], ..st }
            } else {
                st
            }
        } else {
            SplitState { cur: st.cur.push(c), ..st }
        },
    }
}

pub open spec fn split_run(s: Seq<char>) -> SplitState
    decreases s.len(),
{
    if s.len() == 0 {
        SplitState { quote: None, cur: seq![], out: seq![] }
    } else {
        split_step(split_run(s.drop_last()), s.last())
    }
}

/// The words of a command line, quotes removed; `None` when a quote is
/// left open.
pub open spec fn spec_shell_words(s: Seq<char>) -> Option<Seq<Seq<char>>> {
    let st = split_run(s);
    if st.quote is Some {
        None
    } else if st.cur.len() > 0 {
        Some(st.out.push(st.cur))
    } else {
        Some(st.out)
    }
}

pub open spec fn string_views(v: Seq<String>) -> Seq<Seq<char>> {
    v.map_values(|s: String| s@)
}

/// A command line with a quote left open.
#[derive(Debug)]
pub struct UnbalancedQuote {
    pub input: String,
}

impl UnbalancedQuote {
    pub fn message(&self) -> (r: String)
        ensures
            r@ == "unbalanced quote in: "@ + self.input@,
    {
        let mut r = String::from_str("unbalanced quote in: ");
        push_str(&mut r, self.input.as_str());
        r
    }
}

/// The words of a command line (see `spec_shell_words`).
pub fn shell_words(s: &str) -> (r: Result<Vec<String>, UnbalancedQuote>)
    ensures
        match r {
            Ok(words) => spec_shell_words(s@) == Some(string_views(words@)),
            Err(e) => spec_shell_words(s@) is None && e.input@ == s@,
        },
{
    let v = chars_of(s);
    let mut out: Vec<String> = Vec::new();
    let mut cur = String::new();
    let mut quote: Option<char> = None;
    let mut i: usize = 0;
    assert(v@.take(0) =~= Seq::<char>::empty());
    assert(string_views(out@) =~= Seq::<Seq<char>>::empty());
    while i < v.len()
        invariant
            i <= v.len(),
            v@ == s@,
            split_run(v@.take(i as int)) == (SplitState {
                quote,
                cur: cur@,
                out: string_views(out@),
            }),
        decreases v.len() - i,
    {
        let c = v[i];
        assert(v@.take(i + 1).drop_last() =~= v@.take(i as int));
        assert(v@.take(i + 1).last() == c);
        let ghost before_out = out@;
        match quote {
            Some(q) => {
                if c == q {
                    quote = None;
                } else {
                    cur.push(c);
                }
            },
            None => {
                if c == '\'' || c == '"' {
                    quote = Some(c);
                } else if is_whitespace(c) {
                    if !cur.as_str().is_empty() {
                        out.push(cur);
                        cur = String::new();
                        assert(string_views(out@) =~= string_views(before_out).push(
                            out@.last()@,
                        ));
                    }
                } else {
                    cur.push(c);
                }
            },
        }
        i += 1;
    }
    assert(v@.take(v.len() as int) =~= v@);
    if quote.is_some() {
        return Err(UnbalancedQuote { input: String::from_str(s) });
    }
    if !cur.as_str().is_empty() {
        let ghost before_out = out@;
        out.push(cur);
        assert(string_views(out@) =~= string_views(before_out).push(out@.last()@));
    }
    Ok(out)
}

// ── tools ───────────────────────────────────────────────────────────────

/// The tools the server offers.
#[derive(PartialEq, Eq, Structural, Clone, Copy, Debug)]
pub enum ToolKind {
    Screenshot,
    XdoClick,
    XdoMove,
    XdoHover,
    XdoType,
    XdoKey,
    LaunchApp,
    ListWindows,
    FocusWindow,
}

impl ToolKind {
    /// The name a tool is called by.
    pub open spec fn spec_name(self) -> Seq<char> {
        match self {
            ToolKind::Screenshot => "screenshot"@,
            ToolKind::XdoClick => "xdo_click"@,
            ToolKind::XdoMove => "xdo_move"@,
            ToolKind::XdoHover => "xdo_hover"@,
            ToolKind::XdoType => "xdo_type"@,
            ToolKind::XdoKey => "xdo_key"@,
            ToolKind::LaunchApp => "launch_app"@,
            ToolKind::ListWindows => "list_windows"@,
            ToolKind::FocusWindow => "focus_window"@,
        }
    }

    /// The tool called `name`, if there is one.
    pub open spec fn spec_from_name(name: Seq<char>) -> Option<ToolKind> {
        if name == "screenshot"@ {
            Some(ToolKind::Screenshot)
        } else if name == "xdo_click"@ {
            Some(ToolKind::XdoClick)
        } else if name == "xdo_move"@ {
            Some(ToolKind::XdoMove)
        } else if name == "xdo_type"@ {
            Some(ToolKind::XdoType)
        } else if name == "xdo_key"@ {
            Some(ToolKind::XdoKey)
        } else if name == "launch_app"@ {
            Some(ToolKind::LaunchApp)
        } else if name == "list_windows"@ {
            Some(ToolKind::ListWindows)
        } else if name == "focus_window"@ {
            Some(ToolKind::FocusWindow)
        } else if name == "xdo_hover"@ {
            Some(ToolKind::XdoHover)
        } else {
            None
        }
    }

    pub fn name(&self) -> (r: String)
        ensures
            r@ == self.spec_name(),
    {
        match self {
            ToolKind::Screenshot => String::from_str("screenshot"),
            ToolKind::XdoClick => String::from_str("xdo_click"),
            ToolKind::XdoMove => String::from_str("xdo_move"),
            ToolKind::XdoHover => String::from_str("xdo_hover"),
            ToolKind::XdoType => String::from_str("xdo_type"),
            ToolKind::XdoKey => String::from_str("xdo_key"),
            ToolKind::LaunchApp => String::from_str("launch_app"),
            ToolKind::ListWindows => String::from_str("list_windows"),
            ToolKind::FocusWindow => String::from_str("focus_window"),
        }
    }

    pub fn from_name(name: &str) -> (r: Option<ToolKind>)
        ensures
            r == Self::spec_from_name(name@),
    {
        let n = String::from_str(name);
        if n == String::from_str("screenshot") {
            Some(ToolKind::Screenshot)
        } else if n == String::from_str("xdo_click") {
            Some(ToolKind::XdoClick)
        } else if n == String::from_str("xdo_move") {
            Some(ToolKind::XdoMove)
        } else if n == String::from_str("xdo_type") {
            Some(ToolKind::XdoType)
        } else if n == String::from_str("xdo_key") {
            Some(ToolKind::XdoKey)
        } else if n == String::from_str("launch_app") {
            Some(ToolKind::LaunchApp)
        } else if n == String::from_str("list_windows") {
            Some(ToolKind::ListWindows)
        } else if n == String::from_str("focus_window") {
            Some(ToolKind::FocusWindow)
        } else if n == String::from_str("xdo_hover") {
            Some(ToolKind::XdoHover)
        } else {
            None
        }
    }

    /// The program that must be on `PATH` before the tool runs, when the
    /// tool needs one fixed program.
    pub open spec fn spec_required_program(self) -> Option<Seq<char>> {
        match self {
            ToolKind::XdoClick | ToolKind::XdoMove | ToolKind::XdoHover | ToolKind::XdoType
            | ToolKind::XdoKey => Some("xdotool"@),
            ToolKind::ListWindows | ToolKind::FocusWindow => Some("wmctrl"@),
            ToolKind::Screenshot | ToolKind::LaunchApp => None,
        }
    }

    pub fn required_program(&self) -> (r: Option<String>)
        ensures
            match r {
                Some(p) => self.spec_required_program() == Some(p@),
                None => self.spec_required_program() is None,
            },
    {
        match self {
            ToolKind::XdoClick | ToolKind::XdoMove | ToolKind::XdoHover | ToolKind::XdoType
            | ToolKind::XdoKey => Some(String::from_str("xdotool")),
            ToolKind::ListWindows | ToolKind::FocusWindow => Some(String::from_str("wmctrl")),
            ToolKind::Screenshot | ToolKind::LaunchApp => None,
        }
    }
}

/// The tools in the order the server lists them.
pub open spec fn all_tools() -> Seq<ToolKind> {
    seq![
        ToolKind::Screenshot,
        ToolKind::XdoClick,
        ToolKind::XdoMove,
        ToolKind::XdoHover,
        ToolKind::XdoType,
        ToolKind::XdoKey,
        ToolKind::LaunchApp,
        ToolKind::ListWindows,
        ToolKind::FocusWindow,
    ]
}

// ── JSON-RPC ────────────────────────────────────────────────────────────

/// A JSON-RPC request line, as read.
#[derive(Debug)]
pub struct RpcRequest {
    pub jsonrpc: String,
    /// Absent for a notification, which gets no response.
    pub id: Option<Json>,
    pub method: String,
    pub params: Json,
}

/// Whether a line holds nothing but whitespace.
pub fn is_blank(line: &str) -> (r: bool)
    ensures
        r == (crate::text::trimmed(line@).len() == 0),
{
    let t = crate::text::trim(line);
    t.as_str().is_empty()
}

/// Whether the server answers a request at all: only JSON-RPC 2.0 is spoken.
pub fn accepts(req: &RpcRequest) -> (r: bool)
    ensures
        r == (req.jsonrpc@ == "2.0"@),
{
    req.jsonrpc == String::from_str("2.0")
}

/// A JSON-RPC response, when the request was not a notification: the
/// result, or an error with code -32000 and the failure's message.
pub fn response_for(id: Option<Json>, outcome: Result<Json, String>) -> (r: Option<Json>)
    ensures
        id is None <==> r is None,
        r matches Some(resp) ==> {
            &&& str_of(resp.spec_get("jsonrpc"@)) == Some("2.0"@)
            &&& resp.spec_get("id"@) == id
            &&& match outcome {
                Ok(v) => is_object_with(resp, seq!["jsonrpc"@, "id"@, "result"@]) && resp.spec_get(
                    "result"@,
                ) == Some(v),
                Err(m) => is_object_with(resp, seq!["jsonrpc"@, "id"@, "error"@]) && (resp.spec_get(
                    "error"@,
                ) matches Some(e) && is_object_with(e, seq!["code"@, "message"@]) && i64_of(
                    e.spec_get("code"@),
                ) == Some(-32000i64) && str_of(e.spec_get("message"@)) == Some(m@)),
            }
        },
{
    proof {
        lemma_rpc_keys_distinct();
    }
    let id = match id {
        Some(i) => i,
        None => {
            return None;
        },
    };
    match outcome {
        Ok(v) => Some(object3("jsonrpc", Json::string("2.0"), "id", id, "result", v)),
        Err(m) => {
            let err = object2("code", Json::integer(-32000), "message", Json::Str(m));
            Some(object3("jsonrpc", Json::string("2.0"), "id", id, "error", err))
        },
    }
}

proof fn lemma_rpc_keys_distinct()
    ensures
        "jsonrpc"@ != "id"@,
        "jsonrpc"@ != "result"@,
        "jsonrpc"@ != "error"@,
        "id"@ != "result"@,
        "id"@ != "error"@,
        "code"@ != "message"@,
        "type"@ != "text"@,
        "type"@ != "data"@,
        "type"@ != "mimeType"@,
        "data"@ != "mimeType"@,
        "content"@ != "isError"@,
        "protocolVersion"@ != "capabilities"@,
        "protocolVersion"@ != "serverInfo"@,
        "capabilities"@ != "serverInfo"@,
        "name"@ != "version"@,
        "initialize"@ != "notifications/initialized"@,
        "initialize"@ != "initialized"@,
        "initialize"@ != "tools/list"@,
        "initialize"@ != "tools/call"@,
        "initialize"@ != "ping"@,
        "notifications/initialized"@ != "initialized"@,
        "notifications/initialized"@ != "tools/list"@,
        "notifications/initialized"@ != "tools/call"@,
        "notifications/initialized"@ != "ping"@,
        "initialized"@ != "tools/list"@,
        "initialized"@ != "tools/call"@,
        "initialized"@ != "ping"@,
        "tools/list"@ != "tools/call"@,
        "tools/list"@ != "ping"@,
        "tools/call"@ != "ping"@,
{
    reveal_strlit("initialize");
    reveal_strlit("notifications/initialized");
    reveal_strlit("initialized");
    reveal_strlit("tools/list");
    reveal_strlit("tools/call");
    reveal_strlit("ping");
    assert("initialize"@[0] != "notifications/initialized"@[0]);
    assert("initialize"@.len() != "initialized"@.len());
    assert("initialize"@[0] != "tools/list"@[0]);
    assert("initialize"@[0] != "tools/call"@[0]);
    assert("initialize"@[0] != "ping"@[0]);
    assert("notifications/initialized"@[0] != "initialized"@[0]);
    assert("notifications/initialized"@[0] != "tools/list"@[0]);
    assert("notifications/initialized"@[0] != "tools/call"@[0]);
    assert("notifications/initialized"@[0] != "ping"@[0]);
    assert("initialized"@[0] != "tools/list"@[0]);
    assert("initialized"@[0] != "tools/call"@[0]);
    assert("initialized"@[0] != "ping"@[0]);
    assert("tools/list"@[6] != "tools/call"@[6]);
    assert("tools/list"@[0] != "ping"@[0]);
    assert("tools/call"@[0] != "ping"@[0]);
    reveal_strlit("jsonrpc");
    reveal_strlit("id");
    reveal_strlit("result");
    reveal_strlit("error");
    reveal_strlit("code");
    reveal_strlit("message");
    reveal_strlit("type");
    reveal_strlit("text");
    reveal_strlit("data");
    reveal_strlit("mimeType");
    reveal_strlit("content");
    reveal_strlit("isError");
    reveal_strlit("protocolVersion");
    reveal_strlit("capabilities");
    reveal_strlit("serverInfo");
    reveal_strlit("name");
    reveal_strlit("version");
    assert("jsonrpc"@[0] != "id"@[0]);
    assert("jsonrpc"@[0] != "result"@[0]);
    assert("jsonrpc"@[0] != "error"@[0]);
    assert("id"@[0] != "result"@[0]);
    assert("id"@[0] != "error"@[0]);
    assert("code"@[0] != "message"@[0]);
    assert("type"@[1] != "text"@[1]);
    assert("type"@[0] != "data"@[0]);
    assert("type"@[0] != "mimeType"@[0]);
    assert("data"@[0] != "mimeType"@[0]);
    assert("content"@[0] != "isError"@[0]);
    assert("protocolVersion"@[0] != "capabilities"@[0]);
    assert("protocolVersion"@[0] != "serverInfo"@[0]);
    assert("capabilities"@[0] != "serverInfo"@[0]);
    assert("name"@[0] != "version"@[0]);
}

/// The version of the protocol the server speaks.
pub open spec fn protocol_version() -> Seq<char> {
    "2024-11-05"@
}

/// What a request asks of the server.
#[derive(Debug)]
pub enum Dispatch {
    /// Answer with this result.
    Reply(Json),
    /// Run this tool with these arguments.
    Call(ToolKind, Json),
    /// Fail with this message.
    Fail(String),
}

/// The result of `initialize`: the protocol version, tool support, and who
/// the server is.
pub open spec fn is_initialize_result(r: Json, server_name: Seq<char>, version: Seq<char>) -> bool {
    &&& is_object_with(r, seq!["protocolVersion"@, "capabilities"@, "serverInfo"@])
    &&& str_of(r.spec_get("protocolVersion"@)) == Some(protocol_version())
    &&& r.spec_get("capabilities"@) matches Some(c) && is_object_with(c, seq!["tools"@]) && (
    c.spec_get("tools"@) matches Some(t) && is_object_with(t, seq![]))
    &&& r.spec_get("serverInfo"@) matches Some(i) && is_object_with(i, seq!["name"@, "version"@])
        && str_of(i.spec_get("name"@)) == Some(server_name) && str_of(i.spec_get("version"@))
        == Some(version)
}

/// What the server does with the request `method` with `params`:
/// `initialize` is answered with the server's description, the
/// `initialized` notifications with null, `tools/list` with the tool
/// definitions, `ping` with an empty object; `tools/call` runs the named
/// tool with the given arguments (an empty object when none); any other
/// method, a call without a name, or a call of an unknown tool fails.
pub fn dispatch(method: &str, params: Json, server_version: &str) -> (r: Dispatch)
    ensures
        method@ == "initialize"@ ==> (r matches Dispatch::Reply(v) && is_initialize_result(
            v,
            "mcp-linux-control"@,
            server_version@,
        )),
        (method@ == "notifications/initialized"@ || method@ == "initialized"@) ==> r matches Dispatch::Reply(Json::Null),
        method@ == "ping"@ ==> (r matches Dispatch::Reply(v) && is_object_with(v, seq![])),
        method@ == "tools/list"@ ==> (r matches Dispatch::Reply(v) && is_object_with(v, seq!["tools"@])
            && (v.spec_get("tools"@) matches Some(t) && crate::mcp_tools::lists_all_tools(t))),
        method@ == "tools/call"@ ==> match str_of(params.spec_get("name"@)) {
            None => r matches Dispatch::Fail(m) && m@ == "tools/call missing name"@,
            Some(n) => match ToolKind::spec_from_name(n) {
                Some(k) => r matches Dispatch::Call(k2, args) && k2 == k && (match params.spec_get(
                    "arguments"@,
                ) {
                    Some(a) => args == a,
                    None => is_object_with(args, seq![]),
                }),
                None => r matches Dispatch::Fail(m) && m@ == "unknown tool: "@ + n,
            },
        },
        !(method@ == "initialize"@ || method@ == "notifications/initialized"@ || method@
            == "initialized"@ || method@ == "ping"@ || method@ == "tools/list"@ || method@
            == "tools/call"@) ==> (r matches Dispatch::Fail(m) && m@ == "unknown method: "@
            + method@),
{
    proof {
        lemma_rpc_keys_distinct();
    }
    let m = String::from_str(method);
    if m == String::from_str("initialize") {
        let info = object2(
            "name",
            Json::string("mcp-linux-control"),
            "version",
            Json::string(server_version),
        );
        Dispatch::Reply(
            object3(
                "protocolVersion",
                Json::string("2024-11-05"),
                "capabilities",
                object1("tools", empty_object()),
                "serverInfo",
                info,
            ),
        )
    } else if m == String::from_str("notifications/initialized") || m == String::from_str(
        "initialized",
    ) {
        Dispatch::Reply(Json::Null)
    } else if m == String::from_str("tools/list") {
        Dispatch::Reply(object1("tools", crate::mcp_tools::tool_definitions()))
    } else if m == String::from_str("tools/call") {
        let name = match get_str(params.get("name")) {
            Some(n) => n,
            None => {
                return Dispatch::Fail(String::from_str("tools/call missing name"));
            },
        };
        let args = match params.take_member("arguments") {
            Some(a) => a,
            None => empty_object(),
        };
        match ToolKind::from_name(name.as_str()) {
            Some(k) => Dispatch::Call(k, args),
            None => {
                let mut msg = String::from_str("unknown tool: ");
                push_str(&mut msg, name.as_str());
                Dispatch::Fail(msg)
            },
        }
    } else if m == String::from_str("ping") {
        Dispatch::Reply(empty_object())
    } else {
        let mut msg = String::from_str("unknown method: ");
        push_str(&mut msg, method);
        Dispatch::Fail(msg)
    }
}

} // verus!
