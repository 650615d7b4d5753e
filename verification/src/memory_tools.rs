//! The memory tools: searching stored memories, reading the most recent
//! items, saving a context, listing sessions and reading a chat back; their
//! inputs, and the answers they build from what storage returns.
use crate::clock::{uuid_text, uuid_text_of};
use crate::storage::{
    ChatMessageRecord, ChatRecord, MemoryRecord, MessageRole, SearchHit, SessionRecord,
};
use crate::tags::texts;
use vstd::prelude::*;
use vstd::string::*;
use vstd::utf8::{decode_utf8, encode_utf8, encode_utf8_decode_utf8, is_char_boundary};

verus! {

/// Tool input for search_memory.
#[derive(Debug, Clone)]
pub struct SearchMemoryInput {
    /// The search query
    pub query: String,
    /// Maximum number of results (default: 10)
    pub limit: Option<usize>,
    /// Filter by content types (page, chat, context, tweet)
    pub content_types: Option<Vec<String>>,
    /// Filter by sources (AI chat services, the web, etc.)
    pub sources: Option<Vec<String>>,
}

/// Tool input for get_recent.
#[derive(Debug, Clone, Copy, PartialEq, Eq, Structural)]
pub struct GetRecentInput {
    /// Number of recent items to retrieve (default: 10)
    pub limit: usize,
}

/// The number of recent items read when none is given.
pub fn default_limit() -> (r: usize)
    ensures
        r == 10,
{
    10
}

impl Default for GetRecentInput {
    fn default() -> (r: Self)
        ensures
            r.limit == 10,
    {
        GetRecentInput { limit: default_limit() }
    }
}

/// Tool input for save_context.
#[derive(Debug, Clone)]
pub struct SaveContextInput {
    /// Name/title for the context
    pub name: String,
    /// The context content to save
    pub content: String,
    /// Tags for categorization and retrieval
    pub tags: Vec<String>,
}

/// Tool input for get_chat_context.
#[derive(Debug, Clone)]
pub struct GetChatContextInput {
    /// The chat ID to retrieve
    pub chat_id: String,
}

/// The snippet that a recent item is listed with: its content when that
/// takes at most 200 bytes, otherwise the text of its first 200 bytes
/// followed by `...`.
pub open spec fn snippet_of(content: Seq<char>) -> Seq<char> {
    let bytes = encode_utf8(content);
    if bytes.len() > 200 {
        decode_utf8(bytes.subrange(0, 200)) + "..."@
    } else {
        content
    }
}

/// Writes the snippet of a recent item's content. A content longer than 200
/// bytes must have a character boundary at byte 200, where it is cut.
pub fn recent_snippet(content: &str) -> (r: String)
    requires
        encode_utf8(content@).len() > 200 ==> is_char_boundary(encode_utf8(content@), 200),
    ensures
        r@ == snippet_of(content@),
{
    if content.as_bytes().len() > 200 {
        let (head, _rest) = content.split_at(200);
        proof {
            encode_utf8_decode_utf8(head@);
        }
        String::from_str(head).concat("...")
    } else {
        String::from_str(content)
    }
}

/// The memory tools, each named in the message of its failure.
#[derive(Debug, Clone, Copy, PartialEq, Eq, Structural)]
pub enum MemoryTool {
    SearchMemory,
    GetRecent,
    SaveContext,
    ListSessions,
    GetChatContext,
}

/// The prefix of a tool's failure message.
pub open spec fn failure_prefix(tool: MemoryTool) -> Seq<char> {
    match tool {
        MemoryTool::SearchMemory => "Search failed: "@,
        MemoryTool::GetRecent => "Failed to get recent items: "@,
        MemoryTool::SaveContext => "Failed to save context: "@,
        MemoryTool::ListSessions => "Failed to list sessions: "@,
        MemoryTool::GetChatContext => "Failed to get chat context: "@,
    }
}

/// The message a tool answers with when the memory service fails with `error`.
pub fn tool_failure(tool: MemoryTool, error: &str) -> (r: String)
    ensures
        r@ == failure_prefix(tool) + error@,
{
    let prefix = match tool {
        MemoryTool::SearchMemory => "Search failed: ",
        MemoryTool::GetRecent => "Failed to get recent items: ",
        MemoryTool::SaveContext => "Failed to save context: ",
        MemoryTool::ListSessions => "Failed to list sessions: ",
        MemoryTool::GetChatContext => "Failed to get chat context: ",
    };
    String::from_str(prefix).concat(error)
}

/// The name a message's role is written with.
pub open spec fn role_text(role: MessageRole) -> Seq<char> {
    match role {
        MessageRole::User => "user"@,
        MessageRole::Assistant => "assistant"@,
        MessageRole::System => "system"@,
    }
}

/// The name a message's role is written with.
pub fn role_name(role: MessageRole) -> (r: &'static str)
    ensures
        r@ == role_text(role),
{
    match role {
        MessageRole::User => "user",
        MessageRole::Assistant => "assistant",
        MessageRole::System => "system",
    }
}

/// One message of a chat as the get_chat_context tool answers it.
#[derive(Debug, Clone)]
pub struct ChatMessageAnswer {
    pub role: String,
    pub content: String,
    pub timestamp: String,
}

/// A chat as the get_chat_context tool answers it.
#[derive(Debug, Clone)]
pub struct ChatContextItem {
    pub id: String,
    pub title: String,
    pub source: String,
    pub messages: Vec<ChatMessageAnswer>,
    pub url: Option<String>,
    pub created_at: String,
    pub updated_at: String,
}

/// The get_chat_context tool's answer: the chat when it was found, otherwise
/// a message saying so.
#[derive(Debug, Clone)]
pub struct ChatContextAnswer {
    pub found: bool,
    pub message: Option<String>,
    pub chat: Option<ChatContextItem>,
}

/// `a` answers message `m`: its role's name, its content and its time.
pub open spec fn answers_message(a: ChatMessageAnswer, m: ChatMessageRecord) -> bool {
    a.role@ == role_text(m.role) && a.content == m.content && a.timestamp == m.timestamp
}

/// `item` answers chat `c`: its id written as a UUID, its title, source,
/// URL and times, and each of its messages in order.
pub open spec fn answers_chat(item: ChatContextItem, c: ChatRecord) -> bool {
    &&& item.id@ == uuid_text_of(c.id)
    &&& item.title == c.title
    &&& item.source == c.source
    &&& item.url == c.url
    &&& item.created_at == c.created_at
    &&& item.updated_at == c.updated_at
    &&& item.messages@.len() == c.messages@.len()
    &&& forall|i: int|
        0 <= i < c.messages@.len() ==> #[trigger] answers_message(item.messages@[i], c.messages@[i])
}

/// Builds the get_chat_context tool's answer from what the lookup found.
pub fn chat_context_answer(found: Option<ChatRecord>) -> (a: ChatContextAnswer)
    ensures
        a.found == found is Some,
        match found {
            Some(c) => a.message is None && (a.chat matches Some(item) && answers_chat(item, c)),
            None => a.chat is None && (a.message matches Some(m) && m@
                == "Chat context not found"@),
        },
{
    match found {
        None => ChatContextAnswer {
            found: false,
            message: Some(String::from_str("Chat context not found")),
            chat: None,
        },
        Some(c) => {
            let mut messages: Vec<ChatMessageAnswer> = Vec::new();
            let mut i: usize = 0;
            while i < c.messages.len()
                invariant
                    i <= c.messages.len(),
                    messages@.len() == i,
                    forall|j: int|
                        0 <= j < i ==> #[trigger] answers_message(messages@[j], c.messages@[j]),
                decreases c.messages.len() - i,
            {
                let m = &c.messages[i];
                messages.push(
                    ChatMessageAnswer {
                        role: String::from_str(role_name(m.role)),
                        content: m.content.clone(),
                        timestamp: m.timestamp.clone(),
                    },
                );
                i = i + 1;
            }
            ChatContextAnswer {
                found: true,
                message: None,
                chat: Some(
                    ChatContextItem {
                        id: uuid_text(c.id),
                        title: c.title,
                        source: c.source,
                        messages,
                        url: c.url,
                        created_at: c.created_at,
                        updated_at: c.updated_at,
                    },
                ),
            }
        },
    }
}

/// A recent item as the get_recent tool answers it.
#[derive(Debug, Clone)]
pub struct RecentItem {
    pub id: String,
    pub content_type: String,
    pub title: String,
    pub source: String,
    pub source_url: Option<String>,
    pub tags: Vec<String>,
    pub created_at: String,
    pub snippet: String,
}

/// `item` answers memory `m`: its id written as a UUID, its fields, and the
/// snippet of its content.
pub open spec fn answers_memory(item: RecentItem, m: MemoryRecord) -> bool {
    &&& item.id@ == uuid_text_of(m.id)
    &&& item.content_type == m.content_type
    &&& item.title == m.title
    &&& item.source == m.source
    &&& item.source_url == m.source_url
    &&& texts(item.tags@) == texts(m.tags@)
    &&& item.created_at == m.created_at
    &&& item.snippet@ == snippet_of(m.content@)
}

/// Whether every memory's content can be cut into a snippet.
pub open spec fn all_cuttable(memories: Seq<MemoryRecord>) -> bool {
    forall|i: int|
        0 <= i < memories.len() ==> crate::storage::snippet_cuttable(#[trigger] memories[i].content@)
}

fn copy_texts(v: &Vec<String>) -> (r: Vec<String>)
    ensures
        texts(r@) == texts(v@),
{
    let mut r: Vec<String> = Vec::new();
    let mut i: usize = 0;
    while i < v.len()
        invariant
            i <= v.len(),
            texts(r@) == texts(v@).take(i as int),
        decreases v.len() - i,
    {
        let ghost before = r@;
        r.push(v[i].clone());
        proof {
            assert(texts(r@) =~= texts(before).push(v@[i as int]@));
        }
        i = i + 1;
        assert(texts(r@) =~= texts(v@).take(i as int));
    }
    assert(texts(v@).take(v.len() as int) =~= texts(v@));
    r
}

/// Builds the get_recent tool's items, one per memory, in order; the
/// answer's count is their number.
pub fn recent_items(memories: &Vec<MemoryRecord>) -> (r: Vec<RecentItem>)
    requires
        all_cuttable(memories@),
    ensures
        r@.len() == memories@.len(),
        forall|i: int|
            0 <= i < memories@.len() ==> #[trigger] answers_memory(r@[i], memories@[i]),
{
    let mut items: Vec<RecentItem> = Vec::new();
    let mut i: usize = 0;
    while i < memories.len()
        invariant
            i <= memories.len(),
            all_cuttable(memories@),
            items@.len() == i,
            forall|j: int| 0 <= j < i ==> #[trigger] answers_memory(items@[j], memories@[j]),
        decreases memories.len() - i,
    {
        let m = &memories[i];
        assert(crate::storage::snippet_cuttable(memories@[i as int].content@));
        items.push(
            RecentItem {
                id: uuid_text(m.id),
                content_type: m.content_type.clone(),
                title: m.title.clone(),
                source: m.source.clone(),
                source_url: m.source_url.clone(),
                tags: copy_texts(&m.tags),
                created_at: m.created_at.clone(),
                snippet: recent_snippet(m.content.as_str()),
            },
        );
        i = i + 1;
    }
    items
}

/// A session as the list_sessions tool answers it.
#[derive(Debug, Clone)]
pub struct SessionItem {
    pub id: String,
    pub name: String,
    pub created_at: String,
    pub last_active_at: String,
    pub is_active: bool,
    pub item_count: u32,
}

/// `item` answers session `s`: its id written as a UUID, and its fields.
pub open spec fn answers_session(item: SessionItem, s: SessionRecord) -> bool {
    &&& item.id@ == uuid_text_of(s.id)
    &&& item.name == s.name
    &&& item.created_at == s.created_at
    &&& item.last_active_at == s.last_active_at
    &&& item.is_active == s.is_active
    &&& item.item_count == s.item_count
}

/// Builds the list_sessions tool's items, one per session, in order; the
/// answer's count is their number.
pub fn session_items(sessions: &Vec<SessionRecord>) -> (r: Vec<SessionItem>)
    ensures
        r@.len() == sessions@.len(),
        forall|i: int|
            0 <= i < sessions@.len() ==> #[trigger] answers_session(r@[i], sessions@[i]),
{
    let mut items: Vec<SessionItem> = Vec::new();
    let mut i: usize = 0;
    while i < sessions.len()
        invariant
            i <= sessions.len(),
            items@.len() == i,
            forall|j: int| 0 <= j < i ==> #[trigger] answers_session(items@[j], sessions@[j]),
        decreases sessions.len() - i,
    {
        let s = &sessions[i];
        items.push(
            SessionItem {
                id: uuid_text(s.id),
                name: s.name.clone(),
                created_at: s.created_at.clone(),
                last_active_at: s.last_active_at.clone(),
                is_active: s.is_active,
                item_count: s.item_count,
            },
        );
        i = i + 1;
    }
    items
}

/// A saved context as the memory service returns it; its time is RFC 3339
/// text in UTC.
#[derive(Debug, Clone)]
pub struct SavedContextRecord {
    pub id: u128,
    pub name: String,
    pub content: String,
    pub tags: Vec<String>,
    pub created_at: String,
    pub session_id: Option<u128>,
    pub metadata: Option<String>,
}

/// The save_context tool's answer.
#[derive(Debug, Clone)]
pub struct SavedContextAnswer {
    pub success: bool,
    pub id: String,
    pub name: String,
    pub tags: Vec<String>,
    pub created_at: String,
}

/// Builds the save_context tool's answer for a saved context: a success,
/// with its id written as a UUID, its name, tags and time.
pub fn saved_context_answer(c: &SavedContextRecord) -> (a: SavedContextAnswer)
    ensures
        a.success,
        a.id@ == uuid_text_of(c.id),
        a.name == c.name,
        texts(a.tags@) == texts(c.tags@),
        a.created_at == c.created_at,
{
    SavedContextAnswer {
        success: true,
        id: uuid_text(c.id),
        name: c.name.clone(),
        tags: copy_texts(&c.tags),
        created_at: c.created_at.clone(),
    }
}

/// A search hit as the search_memory tool answers it (its relevance is added
/// by the caller).
#[derive(Debug, Clone)]
pub struct SearchItem {
    pub id: String,
    pub title: String,
    pub snippet: String,
    pub source: String,
    pub url: String,
    pub content_type: String,
}

/// `item` answers hit `h`: its id written as a UUID, and its fields.
pub open spec fn answers_hit(item: SearchItem, h: SearchHit) -> bool {
    &&& item.id@ == uuid_text_of(h.id)
    &&& item.title == h.title
    &&& item.snippet == h.snippet
    &&& item.source == h.source
    &&& item.url == h.url
    &&& item.content_type == h.content_type
}

/// Builds the search_memory tool's items, one per hit, in order.
pub fn search_items(hits: &Vec<SearchHit>) -> (r: Vec<SearchItem>)
    ensures
        r@.len() == hits@.len(),
        forall|i: int| 0 <= i < hits@.len() ==> #[trigger] answers_hit(r@[i], hits@[i]),
{
    let mut items: Vec<SearchItem> = Vec::new();
    let mut i: usize = 0;
    while i < hits.len()
        invariant
            i <= hits.len(),
            items@.len() == i,
            forall|j: int| 0 <= j < i ==> #[trigger] answers_hit(items@[j], hits@[j]),
        decreases hits.len() - i,
    {
        let h = &hits[i];
        items.push(
            SearchItem {
                id: uuid_text(h.id),
                title: h.title.clone(),
                snippet: h.snippet.clone(),
                source: h.source.clone(),
                url: h.url.clone(),
                content_type: h.content_type.clone(),
            },
        );
        i = i + 1;
    }
    items
}

} // verus!
