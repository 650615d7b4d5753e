use synmem::memory_tools::{
    chat_context_answer, recent_items, role_name, saved_context_answer, search_items,
    session_items, tool_failure, MemoryTool, SavedContextRecord,
};
use synmem::storage::{
    chat_from_row, memory_from_row, memory_row_of, read_memory_row, search_hit_from_row,
    search_params, search_statement, session_from_row, session_row_of, ChatMessageRecord, ChatRow,
    MemoryRow, MessageRole, SearchRow, SessionRow,
};

const HEAD: &str = "SELECT m.id, m.title, m.content, m.source, m.source_url, m.content_type,\n                    bm25(memories_fts) as rank\n             FROM memories_fts\n             JOIN memories m ON memories_fts.rowid = m.rowid\n             WHERE memories_fts MATCH ?1";
const ID_TEXT: &str = "550e8400-e29b-41d4-a716-446655440000";
const ID: u128 = 0x550e8400e29b41d4a716446655440000;
const NOW: &str = "2030-05-05T05:05:05+00:00";

fn strings(v: &[&str]) -> Vec<String> {
    v.iter().map(|s| s.to_string()).collect()
}

#[test]
fn search_statement_numbers_its_filters() {
    assert_eq!(search_statement(None, &None, &None), format!("{} ORDER BY rank LIMIT 10", HEAD));
    assert_eq!(
        search_statement(Some(5), &Some(strings(&["page", "chat"])), &Some(strings(&["web"]))),
        format!(
            "{} AND m.content_type IN (?2,?3) AND m.source IN (?4) ORDER BY rank LIMIT 5",
            HEAD
        )
    );
    assert_eq!(
        search_statement(Some(3), &Some(vec![]), &Some(strings(&["a", "b"]))),
        format!("{} AND m.source IN (?2,?3) ORDER BY rank LIMIT 3", HEAD)
    );
    assert_eq!(
        search_params("rust", &Some(strings(&["page", "chat"])), &Some(strings(&["web"]))),
        strings(&["rust", "page", "chat", "web"])
    );
    assert_eq!(search_params("q", &None, &None), strings(&["q"]));
}

fn memory_row() -> MemoryRow {
    MemoryRow {
        id: ID_TEXT.to_string(),
        content_type: "page".to_string(),
        title: "Rust".to_string(),
        content: "Rust programming language".to_string(),
        source_url: Some("https://rust-lang.org".to_string()),
        source: "web".to_string(),
        tags: "rust,lang".to_string(),
        session_id: Some("not-a-uuid".to_string()),
        created_at: "2024-01-01T10:00:00Z".to_string(),
        updated_at: "yesterday".to_string(),
        metadata: Some("{\"k\":1}".to_string()),
    }
}

#[test]
fn memory_rows_read_back_with_fallbacks() {
    let m = memory_from_row(memory_row(), NOW);
    assert_eq!(m.id, ID);
    assert_eq!(m.content_type, "page");
    assert_eq!(m.tags, strings(&["rust", "lang"]));
    assert_eq!(m.session_id, None);
    assert_eq!(m.created_at, "2024-01-01T10:00:00+00:00");
    assert_eq!(m.updated_at, NOW);
    assert_eq!(m.metadata, Some("{\"k\":1}".to_string()));

    let mut row = memory_row();
    row.id = "garbage".to_string();
    row.tags = String::new();
    row.metadata = Some("not json".to_string());
    row.session_id = Some(ID_TEXT.to_string());
    row.created_at = "2024-01-01T12:00:00+02:00".to_string();
    let m = memory_from_row(row, NOW);
    assert_eq!(m.id, 0);
    assert!(m.tags.is_empty());
    assert_eq!(m.metadata, None);
    assert_eq!(m.session_id, Some(ID));
    assert_eq!(m.created_at, "2024-01-01T10:00:00+00:00");

    let m = read_memory_row(memory_row());
    assert_eq!(m.created_at, "2024-01-01T10:00:00+00:00");
    assert!(!m.updated_at.is_empty());
}

#[test]
fn memory_rows_written_and_read_back() {
    let m = memory_from_row(memory_row(), NOW);
    let row = memory_row_of(&m);
    assert_eq!(row.id, ID_TEXT);
    assert_eq!(row.tags, "rust,lang");
    assert_eq!(row.session_id, None);
    let back = memory_from_row(row, NOW);
    assert_eq!(back.id, m.id);
    assert_eq!(back.tags, m.tags);
    assert_eq!(back.created_at, m.created_at);
}

#[test]
fn session_rows_read_back() {
    let row = SessionRow {
        id: ID_TEXT.to_string(),
        name: "work".to_string(),
        created_at: "2024-02-02T00:00:00Z".to_string(),
        last_active_at: "bad".to_string(),
        is_active: true,
        item_count: 7,
        metadata: None,
    };
    let s = session_from_row(row, NOW);
    assert_eq!(s.id, ID);
    assert_eq!(s.created_at, "2024-02-02T00:00:00+00:00");
    assert_eq!(s.last_active_at, NOW);
    assert_eq!(s.item_count, 7);
    let row = session_row_of(&s);
    assert_eq!(row.id, ID_TEXT);
    let items = session_items(&vec![s]);
    assert_eq!(items.len(), 1);
    assert_eq!(items[0].id, ID_TEXT);
    assert_eq!(items[0].name, "work");
    assert!(items[0].is_active);
}

#[test]
fn search_rows_read_back() {
    let long = "a".repeat(250);
    let hit = search_hit_from_row(SearchRow {
        id: "bad".to_string(),
        title: "t".to_string(),
        content: long,
        source: "web".to_string(),
        source_url: None,
        content_type: "page".to_string(),
    });
    assert_eq!(hit.id, 0);
    assert_eq!(hit.snippet, format!("{}...", "a".repeat(200)));
    assert_eq!(hit.url, "");
    let items = search_items(&vec![hit]);
    assert_eq!(items[0].id, "00000000-0000-0000-0000-000000000000");
    assert_eq!(items[0].content_type, "page");
}

fn message(role: MessageRole, content: &str) -> ChatMessageRecord {
    ChatMessageRecord { role, content: content.to_string(), timestamp: NOW.to_string() }
}

#[test]
fn chat_context_answers() {
    let answer = chat_context_answer(None);
    assert!(!answer.found);
    assert_eq!(answer.message, Some("Chat context not found".to_string()));
    assert!(answer.chat.is_none());

    let chat = chat_from_row(
        ChatRow {
            id: ID_TEXT.to_string(),
            title: "Chat".to_string(),
            source: "web".to_string(),
            messages: vec![
                message(MessageRole::System, "be brief"),
                message(MessageRole::User, "hi"),
                message(MessageRole::Assistant, "hello"),
            ],
            created_at: "2024-03-03T03:03:03Z".to_string(),
            updated_at: "2024-03-03T03:03:04Z".to_string(),
            url: None,
            session_id: None,
        },
        NOW,
    );
    let answer = chat_context_answer(Some(chat));
    assert!(answer.found);
    assert!(answer.message.is_none());
    let item = answer.chat.unwrap();
    assert_eq!(item.id, ID_TEXT);
    assert_eq!(item.created_at, "2024-03-03T03:03:03+00:00");
    let roles: Vec<&str> = item.messages.iter().map(|m| m.role.as_str()).collect();
    assert_eq!(roles, vec!["system", "user", "assistant"]);
    assert_eq!(item.messages[1].content, "hi");
    assert_eq!(role_name(MessageRole::User), "user");
}

#[test]
fn recent_and_saved_answers() {
    let m = memory_from_row(memory_row(), NOW);
    let items = recent_items(&vec![m]);
    assert_eq!(items.len(), 1);
    assert_eq!(items[0].id, ID_TEXT);
    assert_eq!(items[0].snippet, "Rust programming language");
    assert_eq!(items[0].tags, strings(&["rust", "lang"]));

    let saved = saved_context_answer(&SavedContextRecord {
        id: ID,
        name: "Test Context".to_string(),
        content: "Important information".to_string(),
        tags: strings(&["test"]),
        created_at: NOW.to_string(),
        session_id: None,
        metadata: None,
    });
    assert!(saved.success);
    assert_eq!(saved.name, "Test Context");
    assert_eq!(saved.id, ID_TEXT);
}

#[test]
fn memory_tool_failures() {
    assert_eq!(tool_failure(MemoryTool::SearchMemory, "x"), "Search failed: x");
    assert_eq!(tool_failure(MemoryTool::GetRecent, "x"), "Failed to get recent items: x");
    assert_eq!(tool_failure(MemoryTool::SaveContext, "x"), "Failed to save context: x");
    assert_eq!(tool_failure(MemoryTool::ListSessions, "x"), "Failed to list sessions: x");
    assert_eq!(tool_failure(MemoryTool::GetChatContext, "x"), "Failed to get chat context: x");
}
