//! The search_memory tool: its input, its defaults, and which search a
//! requested mode runs.
use vstd::prelude::*;
use vstd::string::*;

verus! {

/// Input parameters for the search_memory tool.
#[derive(Debug, Clone)]
pub struct SearchMemoryInput {
    /// The search query
    pub query: String,
    /// Maximum number of results to return (default: 10)
    pub limit: usize,
    /// Search mode: "hybrid", "fts", or "vector" (default: "hybrid")
    pub mode: String,
}

/// The number of results returned when none is given.
pub fn default_limit() -> (r: usize)
    ensures
        r == 10,
{
    10
}

/// The search mode used when none is given.
pub fn default_mode() -> (r: String)
    ensures
        r@ == "hybrid"@,
{
    String::from_str("hybrid")
}

/// A kind of search: full-text, vector, or both combined. A result is
/// reported with the kind of search that found it.
#[derive(Debug, Clone, Copy, PartialEq, Eq, Structural)]
pub enum SearchMode {
    FullText,
    Vector,
    Hybrid,
}

/// The search that a requested mode runs: `fts` and `vector` select those,
/// anything else the hybrid search.
pub open spec fn mode_of(mode: Seq<char>) -> SearchMode {
    if mode == "fts"@ {
        SearchMode::FullText
    } else if mode == "vector"@ {
        SearchMode::Vector
    } else {
        SearchMode::Hybrid
    }
}

/// Chooses the search that a requested mode runs.
pub fn search_mode(mode: &str) -> (r: SearchMode)
    ensures
        r == mode_of(mode@),
{
    if crate::text::same_text(mode, "fts") {
        SearchMode::FullText
    } else if crate::text::same_text(mode, "vector") {
        SearchMode::Vector
    } else {
        SearchMode::Hybrid
    }
}

/// The label under which a result of a kind of search is reported.
pub open spec fn source_label_of(mode: SearchMode) -> Seq<char> {
    match mode {
        SearchMode::FullText => "fts"@,
        SearchMode::Vector => "vector"@,
        SearchMode::Hybrid => "hybrid"@,
    }
}

/// The label under which a result of a kind of search is reported.
pub fn source_label(mode: SearchMode) -> (r: String)
    ensures
        r@ == source_label_of(mode),
{
    match mode {
        SearchMode::FullText => String::from_str("fts"),
        SearchMode::Vector => String::from_str("vector"),
        SearchMode::Hybrid => String::from_str("hybrid"),
    }
}

/// The tool's name.
pub fn tool_name() -> (r: &'static str)
    ensures
        r@ == "search_memory"@,
{
    "search_memory"
}

/// The tool's description.
pub fn tool_description() -> (r: &'static str)
    ensures
        r@ == "Search stored memories using semantic search. Supports hybrid (FTS + vector), full-text only, or vector-only search modes."@,
{
    "Search stored memories using semantic search. Supports hybrid (FTS + vector), full-text only, or vector-only search modes."
}

/// A mode that names a kind of search selects it, and every label names
/// the kind of search it is reported for.
pub proof fn law_labels_select_their_mode(mode: SearchMode)
    ensures
        mode_of(source_label_of(mode)) == mode,
{
    reveal_strlit("fts");
    reveal_strlit("vector");
    reveal_strlit("hybrid");
    assert("vector"@ != "fts"@ && "hybrid"@ != "fts"@) by {
        assert("vector"@.len() != "fts"@.len());
        assert("hybrid"@.len() != "fts"@.len());
    }
    assert("hybrid"@ != "vector"@) by {
        assert("hybrid"@[0] != "vector"@[0]);
    }
}

} // verus!
