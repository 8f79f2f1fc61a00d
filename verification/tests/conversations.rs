use linux_coworker_ui::conversation::{
    conversation_id_of_log, derive_title_from_event, extract_init_session_id,
    reconstruct_index_at, resolve_conversation_index, ConversationSummary, LogFileEntry,
};
use linux_coworker_ui::json::{Json, JsonNumber};
use linux_coworker_ui::platform::now_millis;
use linux_coworker_ui::storage::Storage;

fn s(t: &str) -> Json {
    Json::Str(t.to_string())
}

fn obj(members: Vec<(&str, Json)>) -> Json {
    Json::Object(members.into_iter().map(|(k, v)| (k.to_string(), v)).collect())
}

fn user_text_event(text: &str) -> Json {
    obj(vec![
        ("type", s("user")),
        (
            "message",
            obj(vec![
                ("role", s("user")),
                ("content", Json::Array(vec![obj(vec![("type", s("text")), ("text", s(text))])])),
            ]),
        ),
    ])
}

fn store_with_workspace() -> (Storage, String) {
    let mut storage = Storage::open("/tmp/linux-coworker-ui-store");
    let ws = storage.create_workspace("ws", "/tmp", true).unwrap();
    (storage, ws.id)
}

#[test]
fn conversation_log_lives_under_workspace_conversations_folder() {
    let (storage, ws) = store_with_workspace();
    let log = storage.open_conversation(&ws, "conv-1");
    let expected = format!("/tmp/linux-coworker-ui-store/workspaces/{ws}/conversations/conv-1.jsonl");
    assert_eq!(log.path(), expected);
    assert_eq!(log.workspace_id(), ws);
    assert_eq!(log.conversation_id(), "conv-1");
}

#[test]
fn index_creates_entry_on_first_event() {
    let (storage, ws) = store_with_workspace();
    let mut index: Vec<ConversationSummary> = Vec::new();
    storage.update_conversation_for_event(&mut index, &ws, "c1", &user_text_event("first message"));
    assert_eq!(index.len(), 1);
    assert_eq!(index[0].id, "c1");
    assert_eq!(index[0].title, "first message");
    assert!(!index[0].title_pinned);
    assert!(index[0].started_at > 0);
    assert!(index[0].last_active_at >= index[0].started_at);
}

#[test]
fn index_bumps_last_active_on_each_event() {
    let (storage, ws) = store_with_workspace();
    let mut index: Vec<ConversationSummary> = Vec::new();
    storage.update_conversation_for_event(&mut index, &ws, "c1", &user_text_event("hi"));
    let first = index[0].last_active_at;
    // Wait until the clock has moved on.
    while now_millis() <= first {}
    storage.update_conversation_for_event(&mut index, &ws, "c1", &obj(vec![("type", s("assistant"))]));
    let second = index[0].last_active_at;
    assert!(second > first, "{} > {}", second, first);
}

#[test]
fn index_does_not_overwrite_pinned_title() {
    let (storage, ws) = store_with_workspace();
    let mut index: Vec<ConversationSummary> = Vec::new();
    storage.update_conversation_for_event(&mut index, &ws, "c1", &user_text_event("first"));
    // User renames the conversation.
    storage.pin_conversation_title(&mut index, "c1", "My custom title").unwrap();
    // A later user-text event must not clobber the pinned title.
    storage.update_conversation_for_event(&mut index, &ws, "c1", &user_text_event("second message"));
    let entry = &index[0];
    assert_eq!(entry.title, "My custom title");
    assert!(entry.title_pinned);
}

#[test]
fn index_uses_placeholder_when_first_event_has_no_text() {
    let (storage, ws) = store_with_workspace();
    let mut index: Vec<ConversationSummary> = Vec::new();
    // Empty content array (e.g. attachments only that we then strip).
    let event = obj(vec![
        ("type", s("user")),
        ("message", obj(vec![("role", s("user")), ("content", Json::Array(vec![]))])),
    ]);
    storage.update_conversation_for_event(&mut index, &ws, "c1", &event);
    let entry = &index[0];
    assert!(!entry.title.trim().is_empty(), "got empty title");
    assert!(!entry.title_pinned);
}

#[test]
fn placeholder_title_names_the_workspace_and_time() {
    let (storage, ws) = store_with_workspace();
    let mut index: Vec<ConversationSummary> = Vec::new();
    storage.update_conversation_for_event_at(&mut index, &ws, "c1", &obj(vec![("type", s("assistant"))]), 1234);
    assert_eq!(index[0].title, "ws \u{b7} 1234");
    assert_eq!(index[0].started_at, 1234);
    let mut other: Vec<ConversationSummary> = Vec::new();
    storage.update_conversation_for_event_at(&mut other, "missing", "c2", &Json::Null, 7);
    assert_eq!(other[0].title, "workspace \u{b7} 7");
}

#[test]
fn index_captures_claude_session_id_from_init_event() {
    let (storage, ws) = store_with_workspace();
    let mut index: Vec<ConversationSummary> = Vec::new();
    let event = obj(vec![
        ("type", s("system")),
        ("subtype", s("init")),
        ("session_id", s("sk-agent-abc123")),
    ]);
    storage.update_conversation_for_event(&mut index, &ws, "c1", &event);
    let entry = &index[0];
    assert_eq!(entry.claude_session_id.as_deref(), Some("sk-agent-abc123"));
}

#[test]
fn index_reconstructs_from_disk_when_missing() {
    let (storage, ws) = store_with_workspace();
    let mut index: Vec<ConversationSummary> = Vec::new();
    storage.update_conversation_for_event(&mut index, &ws, "c1", &user_text_event("hi"));
    // The index file is gone; only the log file is listed.
    let files = vec![
        LogFileEntry { file_name: "c1.jsonl".to_string(), modified_ms: Some(1000) },
    ];
    let (list, write) = resolve_conversation_index(None, &files);
    assert_eq!(list.len(), 1);
    assert_eq!(list[0].id, "c1");
    // Reconstruction uses a placeholder title.
    assert!(list[0].title.starts_with("Conversation "));
    assert!(write);
}

#[test]
fn stored_index_is_used_as_is() {
    let stored = vec![ConversationSummary {
        id: "x".to_string(),
        title: "t".to_string(),
        started_at: 1,
        last_active_at: 2,
        claude_session_id: None,
        title_pinned: true,
    }];
    let (list, write) = resolve_conversation_index(Some(stored), &vec![]);
    assert_eq!(list.len(), 1);
    assert_eq!(list[0].title, "t");
    assert!(!write);
    let (empty, write) = resolve_conversation_index(None, &vec![]);
    assert!(empty.is_empty());
    assert!(!write);
}

#[test]
fn reconstruction_keeps_only_jsonl_logs() {
    let files = vec![
        LogFileEntry { file_name: "index.json".to_string(), modified_ms: Some(1) },
        LogFileEntry { file_name: "a.b.jsonl".to_string(), modified_ms: Some(5) },
        LogFileEntry { file_name: ".jsonl".to_string(), modified_ms: Some(6) },
        LogFileEntry { file_name: "c.jsonl".to_string(), modified_ms: None },
        LogFileEntry { file_name: "notes.jsonl.bak".to_string(), modified_ms: Some(7) },
    ];
    let list = reconstruct_index_at(&files, 99);
    assert_eq!(list.len(), 2);
    assert_eq!(list[0].id, "a.b");
    assert_eq!(list[0].title, "Conversation a.b");
    assert_eq!(list[0].started_at, 5);
    assert_eq!(list[1].id, "c");
    assert_eq!(list[1].last_active_at, 99);
    assert!(!list[1].title_pinned);
    assert_eq!(conversation_id_of_log(".."), None);
    assert_eq!(conversation_id_of_log("x.jsonl"), Some("x".to_string()));
}

#[test]
fn pin_conversation_title_rejects_empty() {
    let (storage, ws) = store_with_workspace();
    let mut index: Vec<ConversationSummary> = Vec::new();
    storage.update_conversation_for_event(&mut index, &ws, "c1", &user_text_event("hi"));
    let err = storage.pin_conversation_title(&mut index, "c1", "  ").unwrap_err().message();
    assert!(err.contains("empty"), "got: {err}");
}

#[test]
fn pin_conversation_title_unknown_id_errors() {
    let (storage, _ws) = store_with_workspace();
    let mut index: Vec<ConversationSummary> = Vec::new();
    let err = storage.pin_conversation_title(&mut index, "nope", "x").unwrap_err().message();
    assert!(err.contains("not found"), "got: {err}");
    assert_eq!(err, "conversation nope not found");
}

#[test]
fn pin_trims_and_pins() {
    let (storage, ws) = store_with_workspace();
    let mut index: Vec<ConversationSummary> = Vec::new();
    storage.update_conversation_for_event(&mut index, &ws, "c1", &user_text_event("hi"));
    let e = storage.pin_conversation_title(&mut index, "c1", "  Named  ").unwrap();
    assert_eq!(e.title, "Named");
    assert!(e.title_pinned);
    assert_eq!(index[0].title, "Named");
}

#[test]
fn titles_come_only_from_user_text_events() {
    assert_eq!(derive_title_from_event(&user_text_event("hello")), Some("hello".to_string()));
    let assistant = obj(vec![("type", s("assistant")), ("text", s("x"))]);
    assert_eq!(derive_title_from_event(&assistant), None);
    // the first block with text is used
    let mixed = obj(vec![
        ("type", s("user")),
        (
            "message",
            obj(vec![(
                "content",
                Json::Array(vec![
                    obj(vec![("type", s("image")), ("text", Json::Number(JsonNumber::PosInt(3)))]),
                    obj(vec![("type", s("text")), ("text", s("  second  "))]),
                ]),
            )]),
        ),
    ]);
    assert_eq!(derive_title_from_event(&mixed), Some("second".to_string()));
}

#[test]
fn session_id_only_from_system_init() {
    let init = obj(vec![("type", s("system")), ("subtype", s("init")), ("session_id", s("abc"))]);
    assert_eq!(extract_init_session_id(&init), Some("abc".to_string()));
    let other = obj(vec![("type", s("system")), ("subtype", s("other")), ("session_id", s("abc"))]);
    assert_eq!(extract_init_session_id(&other), None);
}

#[test]
fn rebuilt_placeholder_titles_give_way_to_user_text() {
    let (storage, ws) = store_with_workspace();
    let files = vec![LogFileEntry { file_name: "c9.jsonl".to_string(), modified_ms: Some(500) }];
    let mut index = reconstruct_index_at(&files, 1000);
    assert_eq!(index[0].title, "Conversation c9");
    assert!(!index[0].title_pinned);
    storage.update_conversation_for_event_at(&mut index, &ws, "c9", &user_text_event("real title"), 2000);
    assert_eq!(index.len(), 1);
    assert_eq!(index[0].title, "real title");
    assert_eq!(index[0].started_at, 500);
    assert_eq!(index[0].last_active_at, 2000);
}
