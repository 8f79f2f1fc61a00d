use linux_coworker_ui::json::{Json, JsonNumber};
use linux_coworker_ui::mcp::{accepts, dispatch, is_blank, response_for, shell_words, Dispatch, RpcRequest, ToolKind};
use linux_coworker_ui::mcp_calls::{
    choose_screenshot_program, command_failure_message, commands_for, image_block, image_content,
    missing_program_message, parse_tool_call, reply_text, screenshot_command, text_content,
    tool_result, ScreenshotProgram, ToolCall,
};
use linux_coworker_ui::mcp_tools::tool_definitions;
use linux_coworker_ui::mcp_config::{config_dir, config_path, default_mcp_config, server_binary_candidates, temp_file_path};

fn obj(members: Vec<(&str, Json)>) -> Json {
    Json::Object(members.into_iter().map(|(k, v)| (k.to_string(), v)).collect())
}

fn s(t: &str) -> Json {
    Json::Str(t.to_string())
}

fn n(v: u64) -> Json {
    Json::Number(JsonNumber::PosInt(v))
}

fn text_of(j: &Json) -> &str {
    match j {
        Json::Str(s) => s.as_str(),
        _ => panic!("not a string"),
    }
}

#[test]
fn write_default_config_emits_parseable_json_with_binary_path() {
    let binary = "/usr/local/bin/mcp-linux-control";
    let cfg = default_mcp_config(binary);
    let command = cfg.get("mcpServers").and_then(|m| m.get("linux_control")).and_then(|c| c.get("command"));
    assert_eq!(command.map(text_of), Some(binary));
}

#[test]
fn shell_words_split_and_quote() {
    assert_eq!(shell_words("firefox --new-window https://example.com").ok().unwrap(), vec![
        "firefox",
        "--new-window",
        "https://example.com",
    ]);
    assert_eq!(shell_words("  a 'b c' \"d 'e'\"  ").ok().unwrap(), vec!["a", "b c", "d 'e'"]);
    assert_eq!(shell_words("x''y").ok().unwrap(), vec!["xy"]);
    assert!(shell_words("   ").ok().unwrap().is_empty());
    let err = shell_words("open 'unterminated").err().unwrap();
    assert_eq!(err.message(), "unbalanced quote in: open 'unterminated");
}

#[test]
fn every_listed_tool_dispatches() {
    let list = match dispatch("tools/list", Json::Null, "0.4.0") {
        Dispatch::Reply(v) => v,
        _ => panic!("tools/list must reply"),
    };
    let tools = match list.get("tools") {
        Some(Json::Array(t)) => t,
        _ => panic!("no tools"),
    };
    assert_eq!(tools.len(), 9);
    for t in tools {
        let name = text_of(t.get("name").unwrap());
        assert!(ToolKind::from_name(name).is_some(), "{name}");
        assert!(t.get("inputSchema").is_some());
    }
}

#[test]
fn dispatch_answers_each_method() {
    match dispatch("initialize", Json::Null, "1.2.3") {
        Dispatch::Reply(v) => {
            assert_eq!(text_of(v.get("protocolVersion").unwrap()), "2024-11-05");
            assert_eq!(text_of(v.get("serverInfo").unwrap().get("version").unwrap()), "1.2.3");
        },
        _ => panic!(),
    }
    assert!(matches!(dispatch("initialized", Json::Null, "v"), Dispatch::Reply(Json::Null)));
    assert!(matches!(dispatch("ping", Json::Null, "v"), Dispatch::Reply(Json::Object(ref f)) if f.is_empty()));
    match dispatch("bogus", Json::Null, "v") {
        Dispatch::Fail(m) => assert_eq!(m, "unknown method: bogus"),
        _ => panic!(),
    }
    match dispatch("tools/call", obj(vec![]), "v") {
        Dispatch::Fail(m) => assert_eq!(m, "tools/call missing name"),
        _ => panic!(),
    }
    match dispatch("tools/call", obj(vec![("name", s("nope"))]), "v") {
        Dispatch::Fail(m) => assert_eq!(m, "unknown tool: nope"),
        _ => panic!(),
    }
    match dispatch("tools/call", obj(vec![("name", s("xdo_key")), ("arguments", obj(vec![("key", s("Return"))]))]), "v") {
        Dispatch::Call(k, args) => {
            assert!(k == ToolKind::XdoKey);
            assert_eq!(text_of(args.get("key").unwrap()), "Return");
        },
        _ => panic!(),
    }
}

#[test]
fn responses_and_notifications() {
    assert!(response_for(None, Ok(Json::Null)).is_none());
    let ok = response_for(Some(n(7)), Ok(s("done"))).unwrap();
    assert_eq!(text_of(ok.get("jsonrpc").unwrap()), "2.0");
    assert_eq!(text_of(ok.get("result").unwrap()), "done");
    assert!(ok.get("error").is_none());
    let err = response_for(Some(n(8)), Err("bad".to_string())).unwrap();
    let e = err.get("error").unwrap();
    assert!(matches!(e.get("code"), Some(Json::Number(JsonNumber::NegInt(-32000)))));
    assert_eq!(text_of(e.get("message").unwrap()), "bad");
    assert!(is_blank(" \t"));
    assert!(!is_blank(" x"));
    let req = RpcRequest { jsonrpc: "1.0".to_string(), id: None, method: "ping".to_string(), params: Json::Null };
    assert!(!accepts(&req));
}

#[test]
fn tool_arguments_are_read_with_defaults() {
    let click = parse_tool_call(ToolKind::XdoClick, &obj(vec![("x", n(3)), ("y", n(4)), ("double", Json::Bool(true))])).ok().unwrap();
    let cmds = commands_for(&click);
    assert_eq!(cmds.len(), 2);
    assert_eq!(cmds[0].program, "xdotool");
    assert_eq!(cmds[0].args, vec!["mousemove", "--sync", "3", "4"]);
    assert_eq!(cmds[1].args, vec!["click", "--repeat", "2", "1"]);
    assert_eq!(reply_text(&click, "", None), "clicked button 1");
    match parse_tool_call(ToolKind::XdoMove, &obj(vec![("y", n(1))])) {
        Err(m) => assert_eq!(m, "missing x"),
        Ok(_) => panic!(),
    }
    let hover = parse_tool_call(ToolKind::XdoHover, &obj(vec![("x", n(1)), ("y", n(2)), ("dwell_ms", n(99999))])).ok().unwrap();
    assert!(matches!(hover, ToolCall::Hover { dwell_ms: 5000, .. }));
    assert_eq!(
        reply_text(&hover, "", None),
        "hovered at (1,2) for 5000ms \u{2014} take a screenshot to see the hover state, then xdo_click."
    );
    let typed = parse_tool_call(ToolKind::XdoType, &obj(vec![("text", s("héllo"))])).ok().unwrap();
    assert_eq!(commands_for(&typed)[0].args, vec!["type", "--delay", "12", "--", "héllo"]);
    assert_eq!(reply_text(&typed, "", None), "typed 5 chars");
    let launch = parse_tool_call(ToolKind::LaunchApp, &obj(vec![("command", s("gedit 'my file.txt'"))])).ok().unwrap();
    assert_eq!(reply_text(&launch, "", Some(42)), "launched gedit (pid Some(42))");
    assert_eq!(reply_text(&launch, "", None), "launched gedit (pid None)");
    match parse_tool_call(ToolKind::LaunchApp, &obj(vec![("command", s("  "))])) {
        Err(m) => assert_eq!(m, "empty command"),
        Ok(_) => panic!(),
    }
    let focus = parse_tool_call(ToolKind::FocusWindow, &obj(vec![("title", s("Firefox"))])).ok().unwrap();
    assert_eq!(commands_for(&focus)[0].args, vec!["-a", "Firefox"]);
    assert_eq!(reply_text(&focus, "", None), "focused window matching 'Firefox'");
    let moved = parse_tool_call(ToolKind::XdoMove, &obj(vec![("x", Json::Number(JsonNumber::NegInt(-5))), ("y", n(0))])).ok().unwrap();
    assert_eq!(reply_text(&moved, "", None), "moved to -5,0");
}

#[test]
fn screenshot_commands_and_image_content() {
    let c = screenshot_command(ScreenshotProgram::Maim, Some("10x10+0+0"), "/tmp/x.png");
    assert_eq!(c.program, "maim");
    assert_eq!(c.args, vec!["-g", "10x10+0+0", "/tmp/x.png"]);
    let c = screenshot_command(ScreenshotProgram::Scrot, None, "/tmp/x.png");
    assert_eq!(c.args, vec!["/tmp/x.png"]);
    let img = image_content(b"hello");
    let block = match &img {
        Json::Array(v) => &v[0],
        _ => panic!(),
    };
    assert_eq!(text_of(block.get("data").unwrap()), "aGVsbG8=");
    assert_eq!(text_of(block.get("mimeType").unwrap()), "image/png");
    let block = image_block("AAAA".to_string());
    match &block {
        Json::Array(v) => {
            assert_eq!(v.len(), 1);
            assert_eq!(text_of(v[0].get("type").unwrap()), "image");
            assert_eq!(text_of(v[0].get("data").unwrap()), "AAAA");
        }
        _ => panic!("image content is an array"),
    }
    let t = tool_result(text_content("ok".to_string()));
    assert!(matches!(t.get("isError"), Some(Json::Bool(false))));
}

#[test]
fn config_and_candidate_paths() {
    assert_eq!(config_path("/tmp", 12), "/tmp/linux-coworker-ui-12/mcp.json");
    assert_eq!(temp_file_path("/tmp", 3, 45, "png"), "/tmp/mcp-linux-control-3-45.png");
    let c = server_binary_candidates("/opt/app/target/debug/app");
    assert_eq!(c[0], "/opt/app/target/debug/mcp-linux-control");
    assert_eq!(c[1], "/opt/app/target/debug/mcp-linux-control-x86_64-unknown-linux-gnu");
    assert_eq!(c[2], "/opt/app/target/debug/app/target/debug/mcp-linux-control");
    assert_eq!(c[3], "/opt/app/target/debug/app/target/release/mcp-linux-control");
    // the workspace folder above the build tree holds target/<profile>/mcp-linux-control
    assert!(c.contains(&"/opt/app/target/debug/mcp-linux-control".to_string()));
    assert!(c.contains(&"/opt/app/target/release/mcp-linux-control".to_string()));
    assert_eq!(c.last().unwrap(), "/target/release/mcp-linux-control");
}

#[test]
fn failure_messages_name_the_command() {
    let c = screenshot_command(ScreenshotProgram::Maim, Some("5x5+1+1"), "/tmp/s.png");
    assert_eq!(
        command_failure_message(&c, "no display"),
        "maim -g 5x5+1+1 /tmp/s.png failed: no display"
    );
    assert_eq!(
        missing_program_message("xdotool"),
        "`xdotool` not found on PATH. Install it (e.g. `sudo apt install xdotool`)."
    );
}

#[test]
fn screenshot_program_prefers_maim() {
    assert!(matches!(choose_screenshot_program(true, true), Ok(ScreenshotProgram::Maim)));
    assert!(matches!(choose_screenshot_program(false, true), Ok(ScreenshotProgram::Scrot)));
    assert_eq!(
        choose_screenshot_program(false, false).unwrap_err(),
        "install `maim` or `scrot` for screenshots (`sudo apt install maim`)"
    );
}

#[test]
fn required_arguments_match_the_listed_schema() {
    let defs = tool_definitions();
    let tools = match &defs {
        Json::Array(t) => t,
        _ => panic!("definitions are an array"),
    };
    let hover = &tools[3];
    assert_eq!(text_of(hover.get("name").unwrap()), "xdo_hover");
    let schema = hover.get("inputSchema").unwrap();
    let required: Vec<&str> = match schema.get("required") {
        Some(Json::Array(r)) => r.iter().map(text_of).collect(),
        _ => panic!("hover requires arguments"),
    };
    assert_eq!(required, vec!["x", "y"]);
    let dwell = schema.get("properties").and_then(|p| p.get("dwell_ms")).unwrap();
    assert!(matches!(dwell.get("default"), Some(Json::Number(JsonNumber::PosInt(300)))));
    assert!(matches!(dwell.get("maximum"), Some(Json::Number(JsonNumber::PosInt(5000)))));
    // both required arguments present: accepted, with the advertised default
    let ok = parse_tool_call(ToolKind::XdoHover, &obj(vec![("x", n(1)), ("y", n(2))]));
    assert!(matches!(ok, Ok(ToolCall::Hover { x: 1, y: 2, dwell_ms: 300 })));
    // one missing: refused
    let missing = parse_tool_call(ToolKind::XdoHover, &obj(vec![("x", n(1))]));
    assert_eq!(missing.err().unwrap(), "missing y");
    // a tool with nothing required accepts an empty call
    let screenshot = &tools[0];
    assert!(screenshot.get("inputSchema").unwrap().get("required").is_none());
    assert!(parse_tool_call(ToolKind::Screenshot, &obj(vec![])).is_ok());
}

#[test]
fn tools_name_the_program_they_need() {
    assert_eq!(ToolKind::XdoClick.required_program().as_deref(), Some("xdotool"));
    assert_eq!(ToolKind::XdoHover.required_program().as_deref(), Some("xdotool"));
    assert_eq!(ToolKind::FocusWindow.required_program().as_deref(), Some("wmctrl"));
    assert_eq!(ToolKind::Screenshot.required_program(), None);
    assert_eq!(ToolKind::LaunchApp.required_program(), None);
    assert_eq!(config_dir("/tmp/", 7), "/tmp/linux-coworker-ui-7");
}

#[test]
fn missing_arguments_are_named() {
    let none = obj(vec![]);
    let cases = [
        (ToolKind::XdoMove, "missing x"),
        (ToolKind::XdoHover, "missing x"),
        (ToolKind::XdoType, "missing text"),
        (ToolKind::XdoKey, "missing key"),
        (ToolKind::LaunchApp, "missing command"),
        (ToolKind::FocusWindow, "missing title"),
    ];
    for (kind, message) in cases {
        assert_eq!(parse_tool_call(kind, &none).err().unwrap(), message);
    }
    let only_x = obj(vec![("x", n(1))]);
    assert_eq!(parse_tool_call(ToolKind::XdoMove, &only_x).err().unwrap(), "missing y");
    let text_not_string = obj(vec![("text", n(1))]);
    assert_eq!(parse_tool_call(ToolKind::XdoType, &text_not_string).err().unwrap(), "missing text");
    let open_quote = obj(vec![("command", s("gedit 'x"))]);
    assert_eq!(
        parse_tool_call(ToolKind::LaunchApp, &open_quote).err().unwrap(),
        "unbalanced quote in: gedit 'x"
    );
}
