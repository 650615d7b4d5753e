use synmem::macro_tools::{
    delete_macro_output, play_message, record_macro_output, stop_recording_output,
};
use synmem::memory_tools::{self, recent_snippet, GetRecentInput};
use synmem::ports::{
    AutomationError, BrowserControlError, BrowserDriverError, LaunchOptions, NavigateOptions,
    RecordOptions, ScreenshotOptions, SessionPersistenceError, Viewport, WaitOptions,
};
use synmem::search_tool::{
    self, default_mode, search_mode, source_label, tool_description, tool_name, SearchMode,
};
use synmem::tags::{string_to_tags, tags_to_string};

#[test]
fn macro_tool_messages() {
    let out = record_macro_output("test_macro", "session-1".to_string());
    assert_eq!(out.session_id, "session-1");
    assert!(out.message.contains("test_macro"));
    assert_eq!(out.message, "Started recording macro 'test_macro'");

    let out = stop_recording_output("id-1".to_string(), "test_macro".to_string(), 2, false);
    assert_eq!(out.name, "test_macro");
    assert_eq!(out.action_count, 2);
    assert_eq!(out.message, "Saved macro 'test_macro' with 2 action(s)");
    let out = stop_recording_output("id-1".to_string(), "m".to_string(), 13, true);
    assert_eq!(out.message, "Saved optimized macro 'm' with 13 action(s)");

    assert_eq!(play_message(1), "Playing 1 action(s)");
    let out = delete_macro_output("id-9", true);
    assert!(out.deleted);
    assert_eq!(out.message, "Deleted macro 'id-9'");
    let out = delete_macro_output("id-9", false);
    assert!(!out.deleted);
    assert_eq!(out.message, "Macro 'id-9' not found");
}

#[test]
fn memory_tool_defaults() {
    assert_eq!(memory_tools::default_limit(), 10);
    assert_eq!(GetRecentInput::default().limit, 10);
}

#[test]
fn search_tool_modes() {
    assert_eq!(search_tool::default_limit(), 10);
    assert_eq!(default_mode(), "hybrid");
    assert_eq!(search_mode("fts"), SearchMode::FullText);
    assert_eq!(search_mode("vector"), SearchMode::Vector);
    assert_eq!(search_mode("hybrid"), SearchMode::Hybrid);
    assert_eq!(search_mode("anything"), SearchMode::Hybrid);
    assert_eq!(source_label(SearchMode::FullText), "fts");
    assert_eq!(source_label(SearchMode::Vector), "vector");
    assert_eq!(source_label(SearchMode::Hybrid), "hybrid");
    for mode in [SearchMode::FullText, SearchMode::Vector, SearchMode::Hybrid] {
        assert_eq!(search_mode(&source_label(mode)), mode);
    }
}

#[test]
fn test_tool_metadata() {
    assert_eq!(tool_name(), "search_memory");
    assert!(!tool_description().is_empty());
    assert_eq!(
        tool_description(),
        "Search stored memories using semantic search. Supports hybrid (FTS + vector), full-text only, or vector-only search modes."
    );
}

#[test]
fn stored_tags_round_trip() {
    let tags = vec!["rust".to_string(), "web".to_string(), "".to_string(), "ai".to_string()];
    let stored = tags_to_string(&tags);
    assert_eq!(stored, "rust,web,,ai");
    assert_eq!(string_to_tags(&stored), tags);
    assert_eq!(tags_to_string(&vec![]), "");
    assert!(string_to_tags("").is_empty());
    assert_eq!(string_to_tags("one"), vec!["one".to_string()]);
    // The one list that does not come back: a single empty tag.
    assert!(string_to_tags(&tags_to_string(&vec!["".to_string()])).is_empty());
}

#[test]
fn port_options_defaults() {
    let launch = LaunchOptions::default();
    assert!(launch.headless);
    assert!(launch.executable_path.is_none());
    assert!(launch.user_data_dir.is_none());
    assert_eq!(launch.viewport, Some(Viewport { width: 1280, height: 720 }));
    assert_eq!(WaitOptions::default(), WaitOptions { timeout_ms: None, poll_interval_ms: None });
    assert_eq!(
        NavigateOptions::default(),
        NavigateOptions { wait_for_network_idle: false, timeout_ms: None }
    );
    let s = ScreenshotOptions::default();
    assert!(!s.full_page);
    assert!(s.selector.is_none());
    let r = RecordOptions::default();
    assert!(r.name.is_empty());
    assert!(r.description.is_none());
}

#[test]
fn port_error_messages() {
    assert_eq!(AutomationError::AlreadyRecording.to_string(), "already recording");
    assert_eq!(AutomationError::NotRecording.to_string(), "not recording");
    assert_eq!(AutomationError::MacroNotFound("m".to_string()).to_string(), "macro not found: m");
    assert_eq!(BrowserControlError::NotConnected.to_string(), "browser not connected");
    assert_eq!(BrowserControlError::Timeout("5s".to_string()).to_string(), "timeout: 5s");
    assert_eq!(BrowserDriverError::BrowserClosed.to_string(), "browser closed");
    assert_eq!(
        BrowserDriverError::ExecutionFailed("js".to_string()).to_string(),
        "execution failed: js"
    );
    assert_eq!(
        SessionPersistenceError::DecryptionFailed("key".to_string()).to_string(),
        "decryption failed: key"
    );
}

#[test]
fn recent_item_snippets() {
    assert_eq!(recent_snippet("short"), "short");
    assert_eq!(recent_snippet(&"a".repeat(200)), "a".repeat(200));
    assert_eq!(recent_snippet(&"a".repeat(201)), format!("{}...", "a".repeat(200)));
    assert_eq!(recent_snippet(&"é".repeat(150)), format!("{}...", "é".repeat(100)));
}
