use linux_coworker_ui::agent::{
    build_user_message, claude_args, classify_line, latch_session_id, plan_turn,
    reports_resume_failure, resume_failure_event, session_permission_mode, session_working_dir,
    AgentError, UserAttachment,
};
use linux_coworker_ui::json::{Json, JsonNumber};

fn get<'a>(j: &'a Json, key: &str) -> &'a Json {
    j.get(key).unwrap_or_else(|| panic!("missing {key}"))
}

fn text_of(j: &Json) -> &str {
    match j {
        Json::Str(s) => s.as_str(),
        _ => panic!("not a string"),
    }
}

fn items(j: &Json) -> &Vec<Json> {
    match j {
        Json::Array(v) => v,
        _ => panic!("not an array"),
    }
}

#[test]
fn nothing_to_send_without_text_or_attachments() {
    assert!(build_user_message("", &vec![]).is_none());
}

#[test]
fn text_only_message() {
    let m = build_user_message("hi", &vec![]).unwrap();
    assert_eq!(text_of(get(&m, "type")), "user");
    let msg = get(&m, "message");
    assert_eq!(text_of(get(msg, "role")), "user");
    let content = items(get(msg, "content"));
    assert_eq!(content.len(), 1);
    assert_eq!(text_of(get(&content[0], "type")), "text");
    assert_eq!(text_of(get(&content[0], "text")), "hi");
}

#[test]
fn attachments_come_before_the_text() {
    let atts = vec![
        UserAttachment::Image {
            media_type: "image/png".to_string(),
            data: "AAAA".to_string(),
            name: None,
        },
        UserAttachment::Pdf { media_type: None, data: "BBBB".to_string(), name: Some("doc.pdf".to_string()) },
        UserAttachment::Text { media_type: None, text: "body".to_string(), name: None },
        UserAttachment::Text { media_type: None, text: "x".to_string(), name: Some("a.rs".to_string()) },
    ];
    let m = build_user_message("question", &atts).unwrap();
    let content = items(get(get(&m, "message"), "content"));
    assert_eq!(content.len(), 5);
    assert_eq!(text_of(get(&content[0], "type")), "image");
    let src = get(&content[0], "source");
    assert_eq!(text_of(get(src, "type")), "base64");
    assert_eq!(text_of(get(src, "media_type")), "image/png");
    assert_eq!(text_of(get(src, "data")), "AAAA");
    assert_eq!(text_of(get(&content[1], "type")), "document");
    assert_eq!(text_of(get(get(&content[1], "source"), "media_type")), "application/pdf");
    assert_eq!(text_of(get(&content[1], "title")), "doc.pdf");
    assert_eq!(text_of(get(&content[2], "text")), "=== file ===\nbody");
    assert_eq!(text_of(get(&content[3], "text")), "=== a.rs ===\nx");
    assert_eq!(text_of(get(&content[4], "text")), "question");
}

#[test]
fn pdf_without_name_has_no_title() {
    let atts = vec![UserAttachment::Pdf {
        media_type: Some("application/x-pdf".to_string()),
        data: "D".to_string(),
        name: None,
    }];
    let m = build_user_message("", &atts).unwrap();
    let content = items(get(get(&m, "message"), "content"));
    assert_eq!(content.len(), 1);
    assert!(content[0].get("title").is_none());
    assert_eq!(text_of(get(get(&content[0], "source"), "media_type")), "application/x-pdf");
}

#[test]
fn claude_args_resume_only_with_a_session() {
    let fresh = claude_args("/tmp/mcp.json", "bypassPermissions", None);
    assert_eq!(
        fresh,
        vec![
            "--print",
            "--input-format",
            "stream-json",
            "--output-format",
            "stream-json",
            "--verbose",
            "--strict-mcp-config",
            "--mcp-config",
            "/tmp/mcp.json",
            "--permission-mode",
            "bypassPermissions",
        ]
    );
    let resumed = claude_args("/tmp/mcp.json", "default", Some("sid-1"));
    assert_eq!(resumed.len(), 13);
    assert_eq!(resumed[11], "--resume");
    assert_eq!(resumed[12], "sid-1");
}

#[test]
fn plan_turn_refuses_a_vanished_folder() {
    let err = plan_turn("hi", &vec![], "/gone", false, "/tmp/m.json", "default", None);
    match err {
        Err(e) => {
            assert!(matches!(&e, AgentError::WorkspaceFolderMissing { path } if path == "/gone"));
            assert_eq!(e.message(), "workspace folder no longer exists: \"/gone\"");
        }
        Ok(_) => panic!("expected an error"),
    }
    // nothing to send wins over the folder check
    assert!(matches!(plan_turn("", &vec![], "/gone", false, "/tmp/m.json", "default", None), Ok(None)));
    let plan = plan_turn("hi", &vec![], "/tmp", true, "/tmp/m.json", "default", Some("s")).unwrap().unwrap();
    assert_eq!(plan.args.last().map(|s| s.as_str()), Some("s"));
}

#[test]
fn stream_lines_are_classified() {
    assert!(classify_line("", None, false).is_none());
    let err = classify_line("boom", None, true).unwrap();
    assert_eq!(text_of(get(&err.raw, "type")), "stderr");
    assert_eq!(text_of(get(&err.raw, "text")), "boom");
    assert!(!err.persist);
    let junk = classify_line("not json", None, false).unwrap();
    assert_eq!(text_of(get(&junk.raw, "type")), "unparsed");
    assert!(junk.persist);
    let init = Json::Object(vec![
        ("type".to_string(), Json::Str("system".to_string())),
        ("subtype".to_string(), Json::Str("init".to_string())),
        ("session_id".to_string(), Json::Str("sid".to_string())),
    ]);
    let o = classify_line("{...}", Some(init), false).unwrap();
    assert!(o.is_init);
    assert_eq!(o.session_id, Some("sid".to_string()));
    assert!(!o.turn_complete);
    let result = Json::Object(vec![("type".to_string(), Json::Str("result".to_string()))]);
    let r = classify_line("{...}", Some(result), false).unwrap();
    assert!(r.turn_complete);
    assert!(!r.is_init);
}

#[test]
fn session_id_latches_once() {
    let mut sid = None;
    latch_session_id(&mut sid, Some("first".to_string()));
    latch_session_id(&mut sid, Some("second".to_string()));
    assert_eq!(sid, Some("first".to_string()));
}

#[test]
fn resume_failure_is_reported_only_for_a_silent_resume() {
    assert!(reports_resume_failure(false, true, false));
    assert!(!reports_resume_failure(true, true, false));
    assert!(!reports_resume_failure(false, false, false));
    assert!(!reports_resume_failure(false, true, true));
    let ev = resume_failure_event(Some(-2));
    assert_eq!(text_of(get(&ev, "type")), "resume_failure");
    assert!(matches!(get(&ev, "exit_code"), Json::Number(JsonNumber::NegInt(-2))));
    let ev = resume_failure_event(None);
    assert!(matches!(get(&ev, "exit_code"), Json::Null));
}

#[test]
fn session_settings_fall_back_in_order() {
    assert_eq!(session_working_dir(Some("/w".to_string()), Some("/home/u".to_string())), "/w");
    assert_eq!(session_working_dir(None, Some("/home/u".to_string())), "/home/u");
    assert_eq!(session_working_dir(None, None), ".");
    assert_eq!(session_permission_mode(Some("plan")), "plan");
    assert_eq!(session_permission_mode(None), "bypassPermissions");
}

#[test]
fn agent_error_shows_the_path_given_for_it() {
    let e = AgentError::WorkspaceFolderMissing { path: "/gone".to_string() };
    assert_eq!(e.message_showing("<p>"), "workspace folder no longer exists: <p>");
    assert_eq!(e.message(), format!("workspace folder no longer exists: {:?}", std::path::Path::new("/gone")));
    // a path's debug listing escapes single quotes
    let e = AgentError::WorkspaceFolderMissing { path: "/home/u/it's".to_string() };
    assert_eq!(e.message(), format!("workspace folder no longer exists: {:?}", std::path::Path::new("/home/u/it's")));
}
