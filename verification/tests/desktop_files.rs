use linux_coworker_ui::desktop::file_text;

#[test]
fn utf8_files_are_shown_as_text() {
    assert_eq!(file_text(b"hello\n".to_vec()), Ok("hello\n".to_string()));
    assert_eq!(file_text("h\u{e9}".as_bytes().to_vec()), Ok("h\u{e9}".to_string()));
}

#[test]
fn other_files_are_refused_with_their_size() {
    assert_eq!(file_text(vec![0xff, 0xfe, 0x00]), Err("not a UTF-8 text file (3 bytes)".to_string()));
}
