//! The storage's own logic around the database: the full-text search
//! statement and its parameters, and how stored rows are read back into
//! memories, sessions, chats and search hits, with the fallbacks for values
//! that do not read.
use crate::clock::{now_rfc3339, parse_uuid, utc_rfc3339, uuid_text, uuid_text_of};
use crate::memory_tools::{recent_snippet, snippet_of};
use crate::tags::{string_to_tags, tags_of_text, tags_to_string, texts};
use crate::text::{decimal, join_with, push_char, push_decimal};
use vstd::prelude::*;
use vstd::string::*;
use vstd::utf8::{encode_utf8, is_char_boundary};

verus! {

// ----- the search statement -----

/// The start of the search statement: a full-text match on the query, which
/// is parameter `?1`.
pub open spec fn search_head() -> Seq<char> {
    "SELECT m.id, m.title, m.content, m.source, m.source_url, m.content_type,\n                    bm25(memories_fts) as rank\n             FROM memories_fts\n             JOIN memories m ON memories_fts.rowid = m.rowid\n             WHERE memories_fts MATCH ?1"@
}

/// The placeholders `?start,?start+1,...` for `n` parameters.
pub open spec fn placeholders(start: nat, n: nat) -> Seq<char>
    decreases n,
{
    if n == 0 {
        seq![]
    } else if n == 1 {
        "?"@ + decimal(start)
    } else {
        placeholders(start, (n - 1) as nat) + ",?"@ + decimal((start + n - 1) as nat)
    }
}

/// The filter on `column` for `n` values numbered from `start`; none for no values.
pub open spec fn filter_clause(column: Seq<char>, start: nat, n: nat) -> Seq<char> {
    if n == 0 {
        seq![]
    } else {
        " AND m."@ + column + " IN ("@ + placeholders(start, n) + ")"@
    }
}

/// The search statement: the match on the query, the content-type filter on
/// parameters `?2` on, the source filter on the parameters after those,
/// ranked best first and limited to `limit` rows.
pub open spec fn search_sql(limit: nat, types: nat, sources: nat) -> Seq<char> {
    search_head() + filter_clause("content_type"@, 2, types) + filter_clause(
        "source"@,
        2 + types,
        sources,
    ) + " ORDER BY rank LIMIT "@ + decimal(limit)
}

/// The number of values of an optional filter list.
pub open spec fn filter_count(list: Option<Vec<String>>) -> nat {
    match list {
        Some(v) => v.len() as nat,
        None => 0,
    }
}

/// The number of results asked for: 10 when none is given.
pub open spec fn limit_or_default(limit: Option<usize>) -> nat {
    match limit {
        Some(n) => n as nat,
        None => 10,
    }
}

fn push_placeholders(s: &mut String, start: u64, n: u64)
    requires
        start + n <= u64::MAX,
    ensures
        final(s)@ == old(s)@ + placeholders(start as nat, n as nat),
{
    let ghost s0 = s@;
    let mut i: u64 = 0;
    while i < n
        invariant
            i <= n,
            start + n <= u64::MAX,
            s@ == s0 + placeholders(start as nat, i as nat),
        decreases n - i,
    {
        let ghost before = s@;
        if i > 0 {
            push_char(s, ',');
        }
        push_char(s, '?');
        push_decimal(s, start + i);
        proof {
            reveal_strlit("?");
            reveal_strlit(",?");
            if i == 0 {
                assert(s@ =~= s0 + placeholders(start as nat, 1));
            } else {
                assert(s@ =~= before + ",?"@ + decimal((start + i) as nat));
                assert(s@ =~= s0 + placeholders(start as nat, (i + 1) as nat));
            }
        }
        i = i + 1;
    }
}

fn push_filter(s: &mut String, column: &str, start: u64, n: u64)
    requires
        start + n <= u64::MAX,
    ensures
        final(s)@ == old(s)@ + filter_clause(column@, start as nat, n as nat),
{
    if n == 0 {
        assert(old(s)@ + filter_clause(column@, start as nat, n as nat) =~= old(s)@);
        return;
    }
    let ghost s0 = s@;
    s.append(" AND m.");
    s.append(column);
    s.append(" IN (");
    push_placeholders(s, start, n);
    s.append(")");
    assert(s@ =~= s0 + filter_clause(column@, start as nat, n as nat));
}

/// Builds the search statement for the given limit and filters.
pub fn search_statement(
    limit: Option<usize>,
    content_types: &Option<Vec<String>>,
    sources: &Option<Vec<String>>,
) -> (r: String)
    requires
        filter_count(*content_types) + filter_count(*sources) + 2 <= u64::MAX,
    ensures
        r@ == search_sql(
            limit_or_default(limit),
            filter_count(*content_types),
            filter_count(*sources),
        ),
{
    let types: u64 = match content_types {
        Some(v) => v.len() as u64,
        None => 0,
    };
    let source_count: u64 = match sources {
        Some(v) => v.len() as u64,
        None => 0,
    };
    let limit: usize = match limit {
        Some(n) => n,
        None => 10,
    };
    let mut s = String::from_str(
        "SELECT m.id, m.title, m.content, m.source, m.source_url, m.content_type,\n                    bm25(memories_fts) as rank\n             FROM memories_fts\n             JOIN memories m ON memories_fts.rowid = m.rowid\n             WHERE memories_fts MATCH ?1",
    );
    push_filter(&mut s, "content_type", 2, types);
    push_filter(&mut s, "source", 2 + types, source_count);
    s.append(" ORDER BY rank LIMIT ");
    push_decimal(&mut s, limit as u64);
    s
}

/// The parameters of the search statement, in the order it numbers them:
/// the query, then the content types, then the sources.
pub open spec fn search_params_of(
    query: Seq<char>,
    content_types: Option<Vec<String>>,
    sources: Option<Vec<String>>,
) -> Seq<Seq<char>> {
    seq![query] + match content_types {
        Some(v) => texts(v@),
        None => seq![],
    } + match sources {
        Some(v) => texts(v@),
        None => seq![],
    }
}

fn push_all(out: &mut Vec<String>, values: &Vec<String>)
    ensures
        texts(final(out)@) == texts(old(out)@) + texts(values@),
{
    let ghost o = texts(out@);
    let mut i: usize = 0;
    while i < values.len()
        invariant
            i <= values.len(),
            texts(out@) == o + texts(values@).take(i as int),
        decreases values.len() - i,
    {
        let ghost before = out@;
        out.push(values[i].clone());
        proof {
            assert(texts(out@) =~= texts(before).push(values@[i as int]@));
        }
        i = i + 1;
        assert(texts(out@) =~= o + texts(values@).take(i as int));
    }
    assert(texts(values@).take(values.len() as int) =~= texts(values@));
}

/// The parameters of the search statement.
pub fn search_params(
    query: &str,
    content_types: &Option<Vec<String>>,
    sources: &Option<Vec<String>>,
) -> (r: Vec<String>)
    ensures
        texts(r@) == search_params_of(query@, *content_types, *sources),
{
    let mut out: Vec<String> = Vec::new();
    out.push(String::from_str(query));
    assert(texts(out@) =~= seq![query@]);
    match content_types {
        Some(v) => push_all(&mut out, v),
        None => {},
    }
    match sources {
        Some(v) => push_all(&mut out, v),
        None => {},
    }
    assert(texts(out@) =~= search_params_of(query@, *content_types, *sources));
    out
}

// ----- reading rows back -----

/// An identifier as stored, read back; the nil identifier when it does not read.
pub open spec fn id_or_nil(text: Seq<char>) -> u128 {
    match crate::clock::uuid_parse(text) {
        Some(v) => v,
        None => 0,
    }
}

/// A time as stored, read back as RFC 3339 text in UTC; `now` when it does
/// not read.
pub open spec fn time_or(text: Seq<char>, now: Seq<char>) -> Seq<char> {
    match crate::clock::rfc3339_utc(text) {
        Some(t) => t,
        None => now,
    }
}

/// An optional identifier as stored, read back; none when it does not read.
pub open spec fn opt_id(text: Option<String>) -> Option<u128> {
    match text {
        Some(t) => crate::clock::uuid_parse(t@),
        None => None,
    }
}

/// Whether `serde_json::from_str::<serde_json::Value>` reads a text.
pub uninterp spec fn json_text_ok(text: Seq<char>) -> bool;

/// Whether a text is JSON: `serde_json::from_str::<serde_json::Value>`
/// succeeds on it. The answer is named `json_text_ok`; the grammar is not
/// restated.
#[verifier::external_body]
fn is_json(text: &str) -> (r: bool)
    ensures
        r == json_text_ok(text@),
{
    serde_json::from_str::<serde_json::Value>(text).is_ok()
}

/// Stored metadata, kept when it is JSON and dropped otherwise.
pub open spec fn json_or_none(text: Option<String>) -> Option<String> {
    match text {
        Some(t) => if json_text_ok(t@) {
            Some(t)
        } else {
            None
        },
        None => None,
    }
}

fn id_or_nil_of(text: &str) -> (r: u128)
    ensures
        r == id_or_nil(text@),
{
    match parse_uuid(text) {
        Some(v) => v,
        None => 0,
    }
}

fn time_or_of(text: &str, now: &str) -> (r: String)
    ensures
        r@ == time_or(text@, now@),
{
    match utc_rfc3339(text) {
        Some(t) => t,
        None => String::from_str(now),
    }
}

fn opt_id_of(text: &Option<String>) -> (r: Option<u128>)
    ensures
        r == opt_id(*text),
{
    match text {
        Some(t) => parse_uuid(t.as_str()),
        None => None,
    }
}

fn json_or_none_of(text: Option<String>) -> (r: Option<String>)
    ensures
        r == json_or_none(text),
{
    match text {
        Some(t) => if is_json(t.as_str()) {
            Some(t)
        } else {
            None
        },
        None => None,
    }
}

/// A stored memory as the database row holds it.
#[derive(Debug, Clone)]
pub struct MemoryRow {
    pub id: String,
    pub content_type: String,
    pub title: String,
    pub content: String,
    pub source_url: Option<String>,
    pub source: String,
    pub tags: String,
    pub session_id: Option<String>,
    pub created_at: String,
    pub updated_at: String,
    pub metadata: Option<String>,
}

/// A memory read back from storage. Times are RFC 3339 text in UTC; the
/// content type is its stored name.
#[derive(Debug, Clone)]
pub struct MemoryRecord {
    pub id: u128,
    pub content_type: String,
    pub title: String,
    pub content: String,
    pub source_url: Option<String>,
    pub source: String,
    pub tags: Vec<String>,
    pub session_id: Option<u128>,
    pub created_at: String,
    pub updated_at: String,
    pub metadata: Option<String>,
}

/// Reads a memory row back, given the present time as RFC 3339 text: an
/// unreadable id becomes the nil id, an unreadable session id none, an
/// unreadable time the present, metadata that is not JSON none, and the tags
/// are split at their commas.
pub fn memory_from_row(row: MemoryRow, now: &str) -> (m: MemoryRecord)
    ensures
        m.id == id_or_nil(row.id@),
        m.content_type == row.content_type,
        m.title == row.title,
        m.content == row.content,
        m.source_url == row.source_url,
        m.source == row.source,
        texts(m.tags@) == tags_of_text(row.tags@),
        m.session_id == opt_id(row.session_id),
        m.created_at@ == time_or(row.created_at@, now@),
        m.updated_at@ == time_or(row.updated_at@, now@),
        m.metadata == json_or_none(row.metadata),
{
    MemoryRecord {
        id: id_or_nil_of(row.id.as_str()),
        content_type: row.content_type,
        title: row.title,
        content: row.content,
        source_url: row.source_url,
        source: row.source,
        tags: string_to_tags(row.tags.as_str()),
        session_id: opt_id_of(&row.session_id),
        created_at: time_or_of(row.created_at.as_str(), now),
        updated_at: time_or_of(row.updated_at.as_str(), now),
        metadata: json_or_none_of(row.metadata),
    }
}

/// A stored session as the database row holds it.
#[derive(Debug, Clone)]
pub struct SessionRow {
    pub id: String,
    pub name: String,
    pub created_at: String,
    pub last_active_at: String,
    pub is_active: bool,
    pub item_count: u32,
    pub metadata: Option<String>,
}

/// A browsing session read back from storage; times are RFC 3339 text in UTC.
#[derive(Debug, Clone)]
pub struct SessionRecord {
    pub id: u128,
    pub name: String,
    pub created_at: String,
    pub last_active_at: String,
    pub is_active: bool,
    pub item_count: u32,
    pub metadata: Option<String>,
}

/// Reads a session row back, given the present time, with the same fallbacks
/// as a memory row.
pub fn session_from_row(row: SessionRow, now: &str) -> (r: SessionRecord)
    ensures
        r.id == id_or_nil(row.id@),
        r.name == row.name,
        r.created_at@ == time_or(row.created_at@, now@),
        r.last_active_at@ == time_or(row.last_active_at@, now@),
        r.is_active == row.is_active,
        r.item_count == row.item_count,
        r.metadata == json_or_none(row.metadata),
{
    SessionRecord {
        id: id_or_nil_of(row.id.as_str()),
        name: row.name,
        created_at: time_or_of(row.created_at.as_str(), now),
        last_active_at: time_or_of(row.last_active_at.as_str(), now),
        is_active: row.is_active,
        item_count: row.item_count,
        metadata: json_or_none_of(row.metadata),
    }
}

/// Who wrote a message of a chat.
#[derive(Debug, Clone, Copy, PartialEq, Eq, Structural)]
pub enum MessageRole {
    User,
    Assistant,
    System,
}

/// One message of a chat; its time is RFC 3339 text in UTC.
#[derive(Debug, Clone)]
pub struct ChatMessageRecord {
    pub role: MessageRole,
    pub content: String,
    pub timestamp: String,
}

/// A stored chat as the database row holds it, with its messages already
/// read from their JSON column.
#[derive(Debug, Clone)]
pub struct ChatRow {
    pub id: String,
    pub title: String,
    pub source: String,
    pub messages: Vec<ChatMessageRecord>,
    pub created_at: String,
    pub updated_at: String,
    pub url: Option<String>,
    pub session_id: Option<String>,
}

/// A chat read back from storage; the source is its stored name and times
/// are RFC 3339 text in UTC.
#[derive(Debug, Clone)]
pub struct ChatRecord {
    pub id: u128,
    pub title: String,
    pub source: String,
    pub messages: Vec<ChatMessageRecord>,
    pub created_at: String,
    pub updated_at: String,
    pub url: Option<String>,
    pub session_id: Option<u128>,
}

/// Reads a chat row back, given the present time, with the same fallbacks
/// as a memory row; the messages are kept in order.
pub fn chat_from_row(row: ChatRow, now: &str) -> (r: ChatRecord)
    ensures
        r.id == id_or_nil(row.id@),
        r.title == row.title,
        r.source == row.source,
        r.messages == row.messages,
        r.created_at@ == time_or(row.created_at@, now@),
        r.updated_at@ == time_or(row.updated_at@, now@),
        r.url == row.url,
        r.session_id == opt_id(row.session_id),
{
    ChatRecord {
        id: id_or_nil_of(row.id.as_str()),
        title: row.title,
        source: row.source,
        messages: row.messages,
        created_at: time_or_of(row.created_at.as_str(), now),
        updated_at: time_or_of(row.updated_at.as_str(), now),
        url: row.url,
        session_id: opt_id_of(&row.session_id),
    }
}

/// A search result as the database row holds it (its rank is left to the
/// caller).
#[derive(Debug, Clone)]
pub struct SearchRow {
    pub id: String,
    pub title: String,
    pub content: String,
    pub source: String,
    pub source_url: Option<String>,
    pub content_type: String,
}

/// A search hit read back from storage.
#[derive(Debug, Clone)]
pub struct SearchHit {
    pub id: u128,
    pub title: String,
    pub snippet: String,
    pub source: String,
    pub url: String,
    pub content_type: String,
}

/// Whether a content can be cut into a snippet: it takes at most 200 bytes,
/// or a character ends at byte 200.
pub open spec fn snippet_cuttable(content: Seq<char>) -> bool {
    encode_utf8(content).len() > 200 ==> is_char_boundary(encode_utf8(content), 200)
}

/// Reads a search row back: an unreadable id becomes the nil id, the content
/// is cut to its snippet, and a missing URL becomes the empty text.
pub fn search_hit_from_row(row: SearchRow) -> (h: SearchHit)
    requires
        snippet_cuttable(row.content@),
    ensures
        h.id == id_or_nil(row.id@),
        h.title == row.title,
        h.snippet@ == snippet_of(row.content@),
        h.source == row.source,
        h.url@ == (match row.source_url {
            Some(u) => u@,
            None => Seq::<char>::empty(),
        }),
        h.content_type == row.content_type,
{
    let snippet = recent_snippet(row.content.as_str());
    let url = match row.source_url {
        Some(u) => u,
        None => String::new(),
    };
    SearchHit {
        id: id_or_nil_of(row.id.as_str()),
        title: row.title,
        snippet,
        source: row.source,
        url,
        content_type: row.content_type,
    }
}

/// A read time: the stored time when it reads; otherwise the present, of
/// which nothing is known.
pub open spec fn time_read(stored: Seq<char>, read: Seq<char>) -> bool {
    crate::clock::rfc3339_utc(stored) matches Some(t) ==> read == t
}

/// Reads a memory row back at the present time (see [`memory_from_row`]).
pub fn read_memory_row(row: MemoryRow) -> (m: MemoryRecord)
    ensures
        m.id == id_or_nil(row.id@),
        m.content_type == row.content_type,
        m.title == row.title,
        m.content == row.content,
        m.source_url == row.source_url,
        m.source == row.source,
        texts(m.tags@) == tags_of_text(row.tags@),
        m.session_id == opt_id(row.session_id),
        time_read(row.created_at@, m.created_at@),
        time_read(row.updated_at@, m.updated_at@),
        m.metadata == json_or_none(row.metadata),
{
    let now = now_rfc3339();
    memory_from_row(row, now.as_str())
}

/// Reads a session row back at the present time (see [`session_from_row`]).
pub fn read_session_row(row: SessionRow) -> (r: SessionRecord)
    ensures
        r.id == id_or_nil(row.id@),
        r.name == row.name,
        time_read(row.created_at@, r.created_at@),
        time_read(row.last_active_at@, r.last_active_at@),
        r.is_active == row.is_active,
        r.item_count == row.item_count,
        r.metadata == json_or_none(row.metadata),
{
    let now = now_rfc3339();
    session_from_row(row, now.as_str())
}

/// Reads a chat row back at the present time (see [`chat_from_row`]).
pub fn read_chat_row(row: ChatRow) -> (r: ChatRecord)
    ensures
        r.id == id_or_nil(row.id@),
        r.title == row.title,
        r.source == row.source,
        r.messages == row.messages,
        time_read(row.created_at@, r.created_at@),
        time_read(row.updated_at@, r.updated_at@),
        r.url == row.url,
        r.session_id == opt_id(row.session_id),
{
    let now = now_rfc3339();
    chat_from_row(row, now.as_str())
}

// ----- writing rows -----

/// An optional identifier as it is stored: written as a UUID.
pub open spec fn opt_id_text(id: Option<u128>) -> Option<Seq<char>> {
    match id {
        Some(v) => Some(uuid_text_of(v)),
        None => None,
    }
}

/// The text view of an optional text.
pub open spec fn opt_text(t: Option<String>) -> Option<Seq<char>> {
    match t {
        Some(s) => Some(s@),
        None => None,
    }
}

fn opt_id_text_of(id: Option<u128>) -> (r: Option<String>)
    ensures
        opt_text(r) == opt_id_text(id),
{
    match id {
        Some(v) => Some(uuid_text(v)),
        None => None,
    }
}

/// The row that stores a memory: its ids written as UUIDs and its tags
/// joined with commas, the rest as it is.
pub fn memory_row_of(m: &MemoryRecord) -> (row: MemoryRow)
    ensures
        row.id@ == uuid_text_of(m.id),
        row.content_type == m.content_type,
        row.title == m.title,
        row.content == m.content,
        row.source_url == m.source_url,
        row.source == m.source,
        row.tags@ == join_with(texts(m.tags@), ','),
        opt_text(row.session_id) == opt_id_text(m.session_id),
        row.created_at == m.created_at,
        row.updated_at == m.updated_at,
        row.metadata == m.metadata,
{
    MemoryRow {
        id: uuid_text(m.id),
        content_type: m.content_type.clone(),
        title: m.title.clone(),
        content: m.content.clone(),
        source_url: m.source_url.clone(),
        source: m.source.clone(),
        tags: tags_to_string(&m.tags),
        session_id: opt_id_text_of(m.session_id),
        created_at: m.created_at.clone(),
        updated_at: m.updated_at.clone(),
        metadata: m.metadata.clone(),
    }
}

/// The row that stores a session: its id written as a UUID, the rest as it is.
pub fn session_row_of(s: &SessionRecord) -> (row: SessionRow)
    ensures
        row.id@ == uuid_text_of(s.id),
        row.name == s.name,
        row.created_at == s.created_at,
        row.last_active_at == s.last_active_at,
        row.is_active == s.is_active,
        row.item_count == s.item_count,
        row.metadata == s.metadata,
{
    SessionRow {
        id: uuid_text(s.id),
        name: s.name.clone(),
        created_at: s.created_at.clone(),
        last_active_at: s.last_active_at.clone(),
        is_active: s.is_active,
        item_count: s.item_count,
        metadata: s.metadata.clone(),
    }
}

/// A memory written to storage and read back keeps its content type, title,
/// content, source, source URL and tags, provided no tag holds a comma (and
/// the tags are not the single empty tag, which reads back as none).
pub proof fn law_memory_read_after_write(m: MemoryRecord, row: MemoryRow, now: Seq<char>, back: MemoryRecord)
    requires
        row.content_type == m.content_type,
        row.title == m.title,
        row.content == m.content,
        row.source_url == m.source_url,
        row.source == m.source,
        row.tags@ == join_with(texts(m.tags@), ','),
        back.content_type == row.content_type,
        back.title == row.title,
        back.content == row.content,
        back.source_url == row.source_url,
        back.source == row.source,
        texts(back.tags@) == tags_of_text(row.tags@),
        forall|i: int, j: int|
            0 <= i < m.tags@.len() && 0 <= j < m.tags@[i]@.len() ==> m.tags@[i]@[j] != ',',
        !(m.tags@.len() == 1 && m.tags@[0]@.len() == 0),
    ensures
        back.content_type == m.content_type,
        back.title == m.title,
        back.content == m.content,
        back.source_url == m.source_url,
        back.source == m.source,
        texts(back.tags@) == texts(m.tags@),
{
    let t = texts(m.tags@);
    assert forall|i: int, j: int| 0 <= i < t.len() && 0 <= j < t[i].len() implies t[i][j]
        != ',' by {
        assert(t[i] == m.tags@[i]@);
    }
    crate::tags::law_tags_round_trip(t);
}

} // verus!
