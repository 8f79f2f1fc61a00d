//! Running a tool: reading its arguments, the command lines it runs, and
//! the reply it gives.
use vstd::prelude::*;
use vstd::string::*;
use crate::json::{Json, get_bool, get_i64, get_str, i64_of, bool_of, is_object_with, object1, object2, object3, str_of};
use crate::mcp::{ToolKind, shell_words, spec_shell_words, string_views};
use crate::text::{chars_of, decimal, push_decimal, push_signed_decimal, push_str, signed_decimal};

verus! {

/// A tool call with its arguments read.
#[derive(Debug)]
pub enum ToolCall {
    /// Capture the screen, or the region `WxH+X+Y` when given.
    Screenshot { region: Option<String> },
    /// Click `button`, twice when `double`, after moving to `at` when given.
    Click { button: i64, double: bool, at: Option<(i64, i64)> },
    Move { x: i64, y: i64 },
    Hover { x: i64, y: i64, dwell_ms: u64 },
    Type { text: String, delay_ms: i64 },
    Key { key: String },
    Launch { program: String, args: Vec<String> },
    ListWindows,
    FocusWindow { title: String },
}

/// The dwell of a hover: the requested milliseconds clamped to 0..=5000,
/// 300 when none was requested.
pub open spec fn spec_dwell(requested: Option<i64>) -> u64 {
    match requested {
        Some(d) => if d < 0 {
            0
        } else if d > 5000 {
            5000
        } else {
            d as u64
        },
        None => 300,
    }
}

fn required_i64(args: &Json, key: &str, missing: &str) -> (r: Result<i64, String>)
    ensures
        match i64_of(args.spec_get(key@)) {
            Some(v) => r == Ok::<i64, String>(v),
            None => r matches Err(m) && m@ == missing@,
        },
{
    match get_i64(args.get(key)) {
        Some(v) => Ok(v),
        None => Err(String::from_str(missing)),
    }
}

fn required_str(args: &Json, key: &str, missing: &str) -> (r: Result<String, String>)
    ensures
        match str_of(args.spec_get(key@)) {
            Some(v) => r matches Ok(s) && s@ == v,
            None => r matches Err(m) && m@ == missing@,
        },
{
    match get_str(args.get(key)) {
        Some(v) => Ok(v),
        None => Err(String::from_str(missing)),
    }
}

/// Whether the arguments of a call of tool `kind` can be read: every
/// required argument is present with its type, and a launch's command line
/// splits into at least one word.
pub open spec fn accepts_arguments(kind: ToolKind, args: Json) -> bool {
    match kind {
        ToolKind::XdoMove | ToolKind::XdoHover => i64_of(args.spec_get("x"@)) is Some && i64_of(
            args.spec_get("y"@),
        ) is Some,
        ToolKind::XdoType => str_of(args.spec_get("text"@)) is Some,
        ToolKind::XdoKey => str_of(args.spec_get("key"@)) is Some,
        ToolKind::LaunchApp => str_of(args.spec_get("command"@)) matches Some(c) && (spec_shell_words(
            c,
        ) matches Some(w) && w.len() > 0),
        ToolKind::FocusWindow => str_of(args.spec_get("title"@)) is Some,
        ToolKind::Screenshot | ToolKind::XdoClick | ToolKind::ListWindows => true,
    }
}

/// Reads the arguments of a call of tool `kind`. A missing required
/// argument is reported by name; defaults fill the optional ones.
pub fn parse_tool_call(kind: ToolKind, args: &Json) -> (r: Result<ToolCall, String>)
    ensures
        r is Ok <==> accepts_arguments(kind, *args),
        match kind {
            ToolKind::Screenshot => r matches Ok(ToolCall::Screenshot { region }) && match region {
                Some(s) => str_of(args.spec_get("region"@)) == Some(s@),
                None => str_of(args.spec_get("region"@)) is None,
            },
            ToolKind::XdoClick => r matches Ok(ToolCall::Click { button, double, at }) && button
                == (match i64_of(args.spec_get("button"@)) {
                Some(b) => b,
                None => 1,
            }) && double == (match bool_of(args.spec_get("double"@)) {
                Some(d) => d,
                None => false,
            }) && at == (match (i64_of(args.spec_get("x"@)), i64_of(args.spec_get("y"@))) {
                (Some(x), Some(y)) => Some((x, y)),
                _ => None,
            }),
            ToolKind::XdoMove => match (i64_of(args.spec_get("x"@)), i64_of(args.spec_get("y"@))) {
                (None, _) => r matches Err(m) && m@ == "missing x"@,
                (Some(_), None) => r matches Err(m) && m@ == "missing y"@,
                (Some(x), Some(y)) => r matches Ok(ToolCall::Move { x: x2, y: y2 }) && x2 == x && y2
                    == y,
            },
            ToolKind::XdoHover => match (i64_of(args.spec_get("x"@)), i64_of(args.spec_get("y"@))) {
                (None, _) => r matches Err(m) && m@ == "missing x"@,
                (Some(_), None) => r matches Err(m) && m@ == "missing y"@,
                (Some(x), Some(y)) => r matches Ok(ToolCall::Hover { x: x2, y: y2, dwell_ms }) && x2
                    == x && y2 == y && dwell_ms == spec_dwell(i64_of(args.spec_get("dwell_ms"@))),
            },
            ToolKind::XdoType => match str_of(args.spec_get("text"@)) {
                None => r matches Err(m) && m@ == "missing text"@,
                Some(t) => r matches Ok(ToolCall::Type { text, delay_ms }) && text@ == t && delay_ms
                    == (match i64_of(args.spec_get("delay_ms"@)) {
                    Some(d) => d,
                    None => 12,
                }),
            },
            ToolKind::XdoKey => match str_of(args.spec_get("key"@)) {
                None => r matches Err(m) && m@ == "missing key"@,
                Some(k) => r matches Ok(ToolCall::Key { key }) && key@ == k,
            },
            ToolKind::LaunchApp => match str_of(args.spec_get("command"@)) {
                None => r matches Err(m) && m@ == "missing command"@,
                Some(c) => match spec_shell_words(c) {
                    None => r matches Err(m) && m@ == "unbalanced quote in: "@ + c,
                    Some(words) => if words.len() == 0 {
                        r matches Err(m) && m@ == "empty command"@
                    } else {
                        r matches Ok(ToolCall::Launch { program, args: rest }) && program@ == words[0]
                            && string_views(rest@) == words.drop_first()
                    },
                },
            },
            ToolKind::ListWindows => r matches Ok(ToolCall::ListWindows),
            ToolKind::FocusWindow => match str_of(args.spec_get("title"@)) {
                None => r matches Err(m) && m@ == "missing title"@,
                Some(t) => r matches Ok(ToolCall::FocusWindow { title }) && title@ == t,
            },
        },
{
    match kind {
        ToolKind::Screenshot => Ok(ToolCall::Screenshot { region: get_str(args.get("region")) }),
        ToolKind::XdoClick => {
            let button = match get_i64(args.get("button")) {
                Some(b) => b,
                None => 1,
            };
            let double = match get_bool(args.get("double")) {
                Some(d) => d,
                None => false,
            };
            let at = match (get_i64(args.get("x")), get_i64(args.get("y"))) {
                (Some(x), Some(y)) => Some((x, y)),
                _ => None,
            };
            Ok(ToolCall::Click { button, double, at })
        },
        ToolKind::XdoMove => {
            let x = required_i64(args, "x", "missing x")?;
            let y = required_i64(args, "y", "missing y")?;
            Ok(ToolCall::Move { x, y })
        },
        ToolKind::XdoHover => {
            let x = required_i64(args, "x", "missing x")?;
            let y = required_i64(args, "y", "missing y")?;
            let dwell_ms = match get_i64(args.get("dwell_ms")) {
                Some(d) => if d < 0 {
                    0
                } else if d > 5000 {
                    5000
                } else {
                    d as u64
                },
                None => 300,
            };
            Ok(ToolCall::Hover { x, y, dwell_ms })
        },
        ToolKind::XdoType => {
            let text = required_str(args, "text", "missing text")?;
            let delay_ms = match get_i64(args.get("delay_ms")) {
                Some(d) => d,
                None => 12,
            };
            Ok(ToolCall::Type { text, delay_ms })
        },
        ToolKind::XdoKey => {
            let key = required_str(args, "key", "missing key")?;
            Ok(ToolCall::Key { key })
        },
        ToolKind::LaunchApp => {
            let cmdline = required_str(args, "command", "missing command")?;
            let mut parts = match shell_words(cmdline.as_str()) {
                Ok(p) => p,
                Err(e) => {
                    return Err(e.message());
                },
            };
            if parts.len() == 0 {
                return Err(String::from_str("empty command"));
            }
            let ghost words = string_views(parts@);
            let program = parts.remove(0);
            assert(string_views(parts@) =~= words.drop_first());
            Ok(ToolCall::Launch { program, args: parts })
        },
        ToolKind::ListWindows => Ok(ToolCall::ListWindows),
        ToolKind::FocusWindow => {
            let title = required_str(args, "title", "missing title")?;
            Ok(ToolCall::FocusWindow { title })
        },
    }
}

/// A program to run, with its arguments.
#[derive(Debug)]
pub struct Command {
    pub program: String,
    pub args: Vec<String>,
}

pub open spec fn command_is(c: Command, program: Seq<char>, args: Seq<Seq<char>>) -> bool {
    c.program@ == program && string_views(c.args@) == args
}

fn command(program: &str, args: Vec<String>) -> (r: Command)
    ensures
        r.program@ == program@,
        r.args == args,
{
    Command { program: String::from_str(program), args }
}

fn decimal_string(n: i64) -> (r: String)
    ensures
        r@ == signed_decimal(n as int),
{
    let mut s = String::new();
    push_signed_decimal(&mut s, n);
    s
}

fn push_arg(args: &mut Vec<String>, a: String)
    ensures
        string_views(final(args)@) == string_views(old(args)@).push(a@),
{
    let ghost before = args@;
    args.push(a);
    assert(string_views(args@) =~= string_views(before).push(a@));
}

/// `xdotool mousemove --sync <x> <y>`: move the pointer and wait until it got there.
pub open spec fn spec_mousemove(x: i64, y: i64) -> Seq<Seq<char>> {
    seq!["mousemove"@, "--sync"@, signed_decimal(x as int), signed_decimal(y as int)]
}

fn mousemove(x: i64, y: i64) -> (r: Command)
    ensures
        command_is(r, "xdotool"@, spec_mousemove(x, y)),
{
    let mut a: Vec<String> = Vec::new();
    push_arg(&mut a, String::from_str("mousemove"));
    push_arg(&mut a, String::from_str("--sync"));
    push_arg(&mut a, decimal_string(x));
    push_arg(&mut a, decimal_string(y));
    assert(string_views(a@) =~= spec_mousemove(x, y));
    command("xdotool", a)
}

/// The commands a tool call runs, in order. Launching an application and
/// taking a screenshot are run otherwise (see `screenshot_command`).
pub fn commands_for(call: &ToolCall) -> (r: Vec<Command>)
    ensures
        match *call {
            ToolCall::Click { button, double, at } => {
                let click = seq!["click"@] + (if double {
                    seq!["--repeat"@, "2"@]
                } else {
                    seq![]
                }) + seq![signed_decimal(button as int)];
                match at {
                    Some((x, y)) => r@.len() == 2 && command_is(r@[0], "xdotool"@, spec_mousemove(x, y))
                        && command_is(r@[1], "xdotool"@, click),
                    None => r@.len() == 1 && command_is(r@[0], "xdotool"@, click),
                }
            },
            ToolCall::Move { x, y } => r@.len() == 1 && command_is(r@[0], "xdotool"@, spec_mousemove(x, y)),
            ToolCall::Hover { x, y, .. } => r@.len() == 1 && command_is(
                r@[0],
                "xdotool"@,
                spec_mousemove(x, y),
            ),
            ToolCall::Type { text, delay_ms } => r@.len() == 1 && command_is(
                r@[0],
                "xdotool"@,
                seq!["type"@, "--delay"@, signed_decimal(delay_ms as int), "--"@, text@],
            ),
            ToolCall::Key { key } => r@.len() == 1 && command_is(r@[0], "xdotool"@, seq!["key"@, "--"@, key@]),
            ToolCall::ListWindows => r@.len() == 1 && command_is(r@[0], "wmctrl"@, seq!["-l"@]),
            ToolCall::FocusWindow { title } => r@.len() == 1 && command_is(r@[0], "wmctrl"@, seq!["-a"@, title@]),
            ToolCall::Screenshot { .. } | ToolCall::Launch { .. } => r@.len() == 0,
        },
{
    let mut out: Vec<Command> = Vec::new();
    match call {
        ToolCall::Click { button, double, at } => {
            match at {
                Some((x, y)) => out.push(mousemove(*x, *y)),
                None => {},
            }
            let mut a: Vec<String> = Vec::new();
            push_arg(&mut a, String::from_str("click"));
            if *double {
                push_arg(&mut a, String::from_str("--repeat"));
                push_arg(&mut a, String::from_str("2"));
            }
            push_arg(&mut a, decimal_string(*button));
            let ghost want = seq!["click"@] + (if *double {
                seq!["--repeat"@, "2"@]
            } else {
                seq![]
            }) + seq![signed_decimal(*button as int)];
            assert(string_views(a@) =~= want);
            out.push(command("xdotool", a));
        },
        ToolCall::Move { x, y } | ToolCall::Hover { x, y, .. } => out.push(mousemove(*x, *y)),
        ToolCall::Type { text, delay_ms } => {
            let mut a: Vec<String> = Vec::new();
            push_arg(&mut a, String::from_str("type"));
            push_arg(&mut a, String::from_str("--delay"));
            push_arg(&mut a, decimal_string(*delay_ms));
            push_arg(&mut a, String::from_str("--"));
            push_arg(&mut a, text.clone());
            assert(string_views(a@) =~= seq!["type"@, "--delay"@, signed_decimal(*delay_ms as int), "--"@, text@]);
            out.push(command("xdotool", a));
        },
        ToolCall::Key { key } => {
            let mut a: Vec<String> = Vec::new();
            push_arg(&mut a, String::from_str("key"));
            push_arg(&mut a, String::from_str("--"));
            push_arg(&mut a, key.clone());
            assert(string_views(a@) =~= seq!["key"@, "--"@, key@]);
            out.push(command("xdotool", a));
        },
        ToolCall::ListWindows => {
            let mut a: Vec<String> = Vec::new();
            push_arg(&mut a, String::from_str("-l"));
            assert(string_views(a@) =~= seq!["-l"@]);
            out.push(command("wmctrl", a));
        },
        ToolCall::FocusWindow { title } => {
            let mut a: Vec<String> = Vec::new();
            push_arg(&mut a, String::from_str("-a"));
            push_arg(&mut a, title.clone());
            assert(string_views(a@) =~= seq!["-a"@, title@]);
            out.push(command("wmctrl", a));
        },
        ToolCall::Screenshot { .. } | ToolCall::Launch { .. } => {},
    }
    out
}

/// The words of `parts` with `sep` between each two of them.
pub open spec fn joined(parts: Seq<Seq<char>>, sep: Seq<char>) -> Seq<char>
    decreases parts.len(),
{
    if parts.len() == 0 {
        seq![]
    } else if parts.len() == 1 {
        parts[0]
    } else {
        joined(parts.drop_last(), sep) + sep + parts.last()
    }
}

/// The failure of a command that exited unsuccessfully: its program, its
/// arguments separated by spaces, and what it wrote to standard error.
pub fn command_failure_message(c: &Command, stderr: &str) -> (r: String)
    ensures
        r@ == c.program@ + " "@ + joined(string_views(c.args@), " "@) + " failed: "@ + stderr@,
{
    let ghost parts = string_views(c.args@);
    let mut args = String::new();
    let mut i: usize = 0;
    while i < c.args.len()
        invariant
            i <= c.args.len(),
            parts == string_views(c.args@),
            args@ == joined(parts.take(i as int), " "@),
        decreases c.args.len() - i,
    {
        assert(parts.take(i + 1).drop_last() =~= parts.take(i as int));
        assert(parts.take(i + 1).last() == c.args@[i as int]@);
        if i > 0 {
            push_str(&mut args, " ");
        }
        push_str(&mut args, c.args[i].as_str());
        i += 1;
    }
    assert(parts.take(i as int) =~= parts);
    let mut r = String::new();
    push_str(&mut r, c.program.as_str());
    push_str(&mut r, " ");
    push_str(&mut r, args.as_str());
    push_str(&mut r, " failed: ");
    push_str(&mut r, stderr);
    r
}

/// The failure of a tool whose program is not installed.
pub fn missing_program_message(name: &str) -> (r: String)
    ensures
        r@ == "`"@ + name@ + "` not found on PATH. Install it (e.g. `sudo apt install "@ + name@
            + "`)."@,
{
    let mut r = String::from_str("`");
    push_str(&mut r, name);
    push_str(&mut r, "` not found on PATH. Install it (e.g. `sudo apt install ");
    push_str(&mut r, name);
    push_str(&mut r, "`).");
    r
}

/// The screenshot programs the server knows, in the order it prefers them.
#[derive(Debug)]
pub enum ScreenshotProgram {
    Maim,
    Scrot,
}

/// The screenshot program to use, given which of them are installed:
/// `maim` when it is, else `scrot`, else none, with the advice to install one.
pub fn choose_screenshot_program(has_maim: bool, has_scrot: bool) -> (r: Result<
    ScreenshotProgram,
    String,
>)
    ensures
        has_maim ==> r matches Ok(ScreenshotProgram::Maim),
        !has_maim && has_scrot ==> r matches Ok(ScreenshotProgram::Scrot),
        !has_maim && !has_scrot ==> (r matches Err(m) && m@
            == "install `maim` or `scrot` for screenshots (`sudo apt install maim`)"@),
{
    if has_maim {
        Ok(ScreenshotProgram::Maim)
    } else if has_scrot {
        Ok(ScreenshotProgram::Scrot)
    } else {
        Err(String::from_str("install `maim` or `scrot` for screenshots (`sudo apt install maim`)"))
    }
}

/// The command that captures the screen (or `region`) into the file `target`:
/// `maim [-g <region>] <target>` or `scrot [-a <region>] <target>`.
pub fn screenshot_command(program: ScreenshotProgram, region: Option<&str>, target: &str) -> (r:
    Command)
    ensures
        ({
            let (name, flag) = match program {
                ScreenshotProgram::Maim => ("maim"@, "-g"@),
                ScreenshotProgram::Scrot => ("scrot"@, "-a"@),
            };
            command_is(
                r,
                name,
                match region {
                    Some(g) => seq![flag, g@, target@],
                    None => seq![target@],
                },
            )
        }),
{
    let (name, flag) = match program {
        ScreenshotProgram::Maim => ("maim", "-g"),
        ScreenshotProgram::Scrot => ("scrot", "-a"),
    };
    let mut a: Vec<String> = Vec::new();
    match region {
        Some(g) => {
            push_arg(&mut a, String::from_str(flag));
            push_arg(&mut a, String::from_str(g));
        },
        None => {},
    }
    push_arg(&mut a, String::from_str(target));
    proof {
        match region {
            Some(g) => assert(string_views(a@) =~= seq![flag@, g@, target@]),
            None => assert(string_views(a@) =~= seq![target@]),
        }
    }
    command(name, a)
}

/// The text a tool call replies with, once its commands succeeded.
/// `output` is what `wmctrl -l` printed; `pid` is the process id of a
/// launched application, when the system reported one.
pub open spec fn spec_reply_text(call: ToolCall, output: Seq<char>, pid: Option<u32>) -> Seq<char> {
    match call {
        ToolCall::Click { button, .. } => "clicked button "@ + signed_decimal(button as int),
        ToolCall::Move { x, y } => "moved to "@ + signed_decimal(x as int) + ","@ + signed_decimal(
            y as int,
        ),
        ToolCall::Hover { x, y, dwell_ms } => "hovered at ("@ + signed_decimal(x as int) + ","@
            + signed_decimal(y as int) + ") for "@ + decimal(dwell_ms as nat)
            + "ms \u{2014} take a screenshot to see the hover state, then xdo_click."@,
        ToolCall::Type { text, .. } => "typed "@ + decimal(text@.len()) + " chars"@,
        ToolCall::Key { key } => "sent key "@ + key@,
        ToolCall::Launch { program, .. } => "launched "@ + program@ + " (pid "@ + match pid {
            Some(p) => "Some("@ + decimal(p as nat) + ")"@,
            None => "None"@,
        } + ")"@,
        ToolCall::ListWindows => output,
        ToolCall::FocusWindow { title } => "focused window matching '"@ + title@ + "'"@,
        ToolCall::Screenshot { .. } => seq![],
    }
}

pub fn reply_text(call: &ToolCall, output: &str, pid: Option<u32>) -> (r: String)
    ensures
        r@ == spec_reply_text(*call, output@, pid),
{
    let mut r = String::new();
    match call {
        ToolCall::Click { button, .. } => {
            push_str(&mut r, "clicked button ");
            push_signed_decimal(&mut r, *button);
        },
        ToolCall::Move { x, y } => {
            push_str(&mut r, "moved to ");
            push_signed_decimal(&mut r, *x);
            push_str(&mut r, ",");
            push_signed_decimal(&mut r, *y);
        },
        ToolCall::Hover { x, y, dwell_ms } => {
            push_str(&mut r, "hovered at (");
            push_signed_decimal(&mut r, *x);
            push_str(&mut r, ",");
            push_signed_decimal(&mut r, *y);
            push_str(&mut r, ") for ");
            push_decimal(&mut r, *dwell_ms as u128);
            push_str(&mut r, "ms \u{2014} take a screenshot to see the hover state, then xdo_click.");
        },
        ToolCall::Type { text, .. } => {
            let n = chars_of(text.as_str()).len();
            push_str(&mut r, "typed ");
            push_decimal(&mut r, n as u128);
            push_str(&mut r, " chars");
        },
        ToolCall::Key { key } => {
            push_str(&mut r, "sent key ");
            push_str(&mut r, key.as_str());
        },
        ToolCall::Launch { program, .. } => {
            push_str(&mut r, "launched ");
            push_str(&mut r, program.as_str());
            push_str(&mut r, " (pid ");
            match pid {
                Some(p) => {
                    push_str(&mut r, "Some(");
                    push_decimal(&mut r, p as u128);
                    push_str(&mut r, ")");
                },
                None => push_str(&mut r, "None"),
            }
            push_str(&mut r, ")");
        },
        ToolCall::ListWindows => push_str(&mut r, output),
        ToolCall::FocusWindow { title } => {
            push_str(&mut r, "focused window matching '");
            push_str(&mut r, title.as_str());
            push_str(&mut r, "'");
        },
        ToolCall::Screenshot { .. } => {},
    }
    r
}

proof fn lemma_content_keys_distinct()
    ensures
        "type"@ != "text"@,
        "type"@ != "data"@,
        "type"@ != "mimeType"@,
        "data"@ != "mimeType"@,
        "content"@ != "isError"@,
{
    reveal_strlit("type");
    reveal_strlit("text");
    reveal_strlit("data");
    reveal_strlit("mimeType");
    reveal_strlit("content");
    reveal_strlit("isError");
    assert("type"@[1] != "text"@[1]);
    assert("type"@[0] != "data"@[0]);
    assert("type"@[0] != "mimeType"@[0]);
    assert("data"@[0] != "mimeType"@[0]);
    assert("content"@[0] != "isError"@[0]);
}

/// Tool content made of one text block.
pub fn text_content(s: String) -> (r: Json)
    ensures
        r matches Json::Array(items) && items@.len() == 1 && is_object_with(
            items@[0],
            seq!["type"@, "text"@],
        ) && str_of(items@[0].spec_get("type"@)) == Some("text"@) && str_of(
            items@[0].spec_get("text"@),
        ) == Some(s@),
{
    proof {
        lemma_content_keys_distinct();
    }
    let mut v: Vec<Json> = Vec::new();
    v.push(object2("type", Json::string("text"), "text", Json::Str(s)));
    Json::Array(v)
}

/// The character of the standard base64 alphabet (RFC 4648) for `n` < 64:
/// `A`–`Z`, `a`–`z`, `0`–`9`, `+`, `/`.
pub open spec fn base64_char(n: int) -> char {
    if n < 26 {
        (n + 65) as char
    } else if n < 52 {
        (n - 26 + 97) as char
    } else if n < 62 {
        (n - 52 + 48) as char
    } else if n == 62 {
        '+'
    } else {
        '/'
    }
}

/// The standard base64 encoding (RFC 4648, with `=` padding) of `bytes`:
/// each group of three bytes becomes four characters of six bits each; a
/// last group of one or two bytes is padded to four characters with `=`.
pub open spec fn base64_standard(bytes: Seq<u8>) -> Seq<char>
    decreases bytes.len(),
{
    if bytes.len() == 0 {
        seq![]
    } else if bytes.len() == 1 {
        let a = bytes[0] as int;
        seq![base64_char(a / 4), base64_char((a % 4) * 16), '=', '=']
    } else if bytes.len() == 2 {
        let (a, b) = (bytes[0] as int, bytes[1] as int);
        seq![base64_char(a / 4), base64_char((a % 4) * 16 + b / 16), base64_char((b % 16) * 4), '=']
    } else {
        let (a, b, c) = (bytes[0] as int, bytes[1] as int, bytes[2] as int);
        seq![
            base64_char(a / 4),
            base64_char((a % 4) * 16 + b / 16),
            base64_char((b % 16) * 4 + c / 64),
            base64_char(c % 64),
        ] + base64_standard(bytes.skip(3))
    }
}

/// `base64::engine::general_purpose::STANDARD.encode`: the standard
/// base64 encoding of `bytes`, 4 characters for every 3 bytes or part of them.
/// It panics when that length does not fit a `usize`, so such input is left out.
#[verifier::external_body]
fn encode_base64(bytes: &[u8]) -> (r: String)
    requires
        4 * ((bytes@.len() + 2) / 3) <= usize::MAX,
    ensures
        r@ == base64_standard(bytes@),
        r@.len() == 4 * ((bytes@.len() + 2) / 3),
{
    base64::Engine::encode(&base64::engine::general_purpose::STANDARD, bytes)
}

/// Tool content made of one PNG image whose base64 text is `data`.
pub fn image_block(data: String) -> (r: Json)
    ensures
        r matches Json::Array(items) && items@.len() == 1 && is_object_with(
            items@[0],
            seq!["type"@, "data"@, "mimeType"@],
        ) && str_of(items@[0].spec_get("type"@)) == Some("image"@) && str_of(
            items@[0].spec_get("data"@),
        ) == Some(data@) && str_of(items@[0].spec_get("mimeType"@)) == Some("image/png"@),
{
    proof {
        lemma_content_keys_distinct();
    }
    let mut v: Vec<Json> = Vec::new();
    v.push(
        object3("type", Json::string("image"), "data", Json::Str(data), "mimeType", Json::string("image/png")),
    );
    Json::Array(v)
}

/// Tool content made of one PNG image, base64-encoded. The encoding's
/// length must fit a `usize`.
pub fn image_content(png: &[u8]) -> (r: Json)
    requires
        4 * ((png@.len() + 2) / 3) <= usize::MAX,
    ensures
        r matches Json::Array(items) && items@.len() == 1 && is_object_with(
            items@[0],
            seq!["type"@, "data"@, "mimeType"@],
        ) && str_of(items@[0].spec_get("type"@)) == Some("image"@) && str_of(
            items@[0].spec_get("data"@),
        ) == Some(base64_standard(png@)) && str_of(items@[0].spec_get("mimeType"@)) == Some(
            "image/png"@,
        ),
{
    image_block(encode_base64(png))
}

/// The result of a tool call that succeeded: its content, not flagged as
/// an error.
pub fn tool_result(content: Json) -> (r: Json)
    ensures
        is_object_with(r, seq!["content"@, "isError"@]),
        r.spec_get("content"@) == Some(content),
        r.spec_get("isError"@) == Some(Json::Bool(false)),
{
    proof {
        lemma_content_keys_distinct();
    }
    object2("content", content, "isError", Json::Bool(false))
}

} // verus!
