use binvid::args::DownloadParams;
use binvid::download::{
    download_arguments, info_arguments, or_fallback, requested_url, video_file_name, video_id,
    video_title,
};
use binvid::youtube_dl::{
    after_local_check, after_system_check, is_executable, make_executable, tool_file_name,
    tool_source, ToolStep,
};

#[test]
fn identifier_and_title_are_read_from_the_description() {
    let info = r#"{"id": "dQw4w9WgXcQ", "title": "Some Title", "duration": 212}"#;
    assert_eq!(video_id(info), "dQw4w9WgXcQ");
    assert_eq!(video_title(info), "Some Title");
    let tight = r#"{"title":"T","id":"abc"}"#;
    assert_eq!(video_id(tight), "abc");
    assert_eq!(video_title(tight), "T");
}

#[test]
fn first_match_is_taken() {
    let info = r#"{"id":   "first", "entries": [{"id": "second"}]}"#;
    assert_eq!(video_id(info), "first");
    // a key that only ends in `id` is not the identifier
    assert_eq!(video_id(r#"{"display_id": "shown", "id": "real"}"#), "real");
}

#[test]
fn missing_fields_get_their_fallbacks() {
    assert_eq!(video_id("{}"), "unknown");
    assert_eq!(video_title("{}"), "Unknown Title");
    assert_eq!(video_id(r#"{"id": ""}"#), "unknown");
    assert_eq!(video_id(r#"{"id": 5}"#), "unknown");
    assert_eq!(video_title(r#"{"id": "x"}"#), "Unknown Title");
    assert_eq!(video_id(""), "unknown");
}

#[test]
fn fallback_replaces_nothing_only() {
    assert_eq!(or_fallback(Some("found".to_string()), "fallback"), "found");
    assert_eq!(or_fallback(Some(String::new()), "fallback"), "");
    assert_eq!(or_fallback(None, "fallback"), "fallback");
}

#[test]
fn file_name_of_a_video() {
    assert_eq!(video_file_name("abc"), "abc.mp4");
    assert_eq!(video_file_name("unknown"), "unknown.mp4");
}

#[test]
fn url_is_given_or_typed() {
    let given = DownloadParams { url: Some(" https://a ".to_string()) };
    assert_eq!(requested_url(&given, "https://b\n"), " https://a ");
    let typed = DownloadParams { url: None };
    assert_eq!(requested_url(&typed, "  https://b \n"), "https://b");
    assert_eq!(requested_url(&typed, "\n"), "");
}

#[test]
fn tool_arguments() {
    assert_eq!(info_arguments("https://v"), vec!["--dump-json", "--no-playlist", "https://v"]);
    assert_eq!(
        download_arguments("./temp/abc.mp4", "https://v"),
        vec!["--format", "mp4", "--output", "./temp/abc.mp4", "--no-playlist", "https://v"]
    );
}

#[test]
fn tool_in_the_directory_is_preferred() {
    assert!(matches!(after_local_check(true, true), ToolStep::UseLocal));
    assert!(matches!(after_local_check(true, false), ToolStep::MakeLocalExecutable));
    assert!(matches!(after_local_check(false, false), ToolStep::AskSystem));
    assert!(matches!(after_local_check(false, true), ToolStep::AskSystem));
}

#[test]
fn system_tool_is_used_where_it_is_found() {
    match after_system_check(true, "/usr/bin/yt-dlp\n") {
        ToolStep::UseSystem(path) => assert_eq!(path, "/usr/bin/yt-dlp"),
        _ => panic!("the system's tool must be used"),
    }
    assert!(matches!(after_system_check(true, "\n"), ToolStep::Fetch));
    assert!(matches!(after_system_check(true, ""), ToolStep::Fetch));
    assert!(matches!(after_system_check(false, "/usr/bin/yt-dlp\n"), ToolStep::Fetch));
}

#[test]
fn execute_bits() {
    assert!(!is_executable(0o644));
    assert!(is_executable(0o744));
    assert!(is_executable(0o654));
    assert!(is_executable(0o100645));
    assert!(!is_executable(0o100666));
    assert_eq!(make_executable(0o644), 0o755);
    assert_eq!(make_executable(0o100600), 0o100711);
    assert_eq!(make_executable(0o755), 0o755);
    assert_eq!(make_executable(0), 0o111);
}

#[test]
fn tool_names() {
    assert_eq!(tool_file_name(), "yt-dlp");
    assert_eq!(
        tool_source(),
        "https://github.com/yt-dlp/yt-dlp/releases/latest/download/yt-dlp"
    );
}
