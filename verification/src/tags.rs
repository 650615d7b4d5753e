//! Tag lists as the storage keeps them: in one text, separated by commas.
use crate::text::{
    chars_of, join_with, lemma_join_front, lemma_split_join, split_chars, split_on, string_of,
};
use vstd::prelude::*;
use vstd::string::*;

verus! {

/// The tag list that a stored text stands for: none for the empty text,
/// otherwise the pieces between its commas.
pub open spec fn tags_of_text(s: Seq<char>) -> Seq<Seq<char>> {
    if s.len() == 0 {
        seq![]
    } else {
        split_on(s, ',')
    }
}

/// The texts of a list of strings.
pub open spec fn texts(v: Seq<String>) -> Seq<Seq<char>> {
    v.map_values(|t: String| t@)
}

/// Joins tags with commas into one text.
pub fn tags_to_string(tags: &Vec<String>) -> (r: String)
    ensures
        r@ == join_with(texts(tags@), ','),
{
    let mut r = String::new();
    let mut i: usize = 0;
    while i < tags.len()
        invariant
            i <= tags.len(),
            r@ == join_with(texts(tags@).take(i as int), ','),
        decreases tags.len() - i,
    {
        let ghost before = texts(tags@).take(i as int);
        proof {
            let t = texts(tags@).take(i + 1);
            assert(t.drop_last() =~= before);
            assert(t.last() == tags@[i as int]@);
        }
        if i > 0 {
            crate::text::push_char(&mut r, ',');
        }
        r.append(tags[i].as_str());
        i = i + 1;
        proof {
            if i == 1 {
                assert(r@ =~= texts(tags@).take(1)[0]);
            }
        }
    }
    assert(texts(tags@).take(tags.len() as int) =~= texts(tags@));
    r
}

/// Reads a stored text back as a tag list: none for the empty text,
/// otherwise the pieces between its commas.
pub fn string_to_tags(s: &str) -> (r: Vec<String>)
    ensures
        texts(r@) == tags_of_text(s@),
{
    let mut r: Vec<String> = Vec::new();
    if s.is_empty() {
        assert(texts(r@) =~= tags_of_text(s@));
        return r;
    }
    let chars = chars_of(s);
    let parts = split_chars(&chars, ',');
    let ghost pieces = parts@.map_values(|p: Vec<char>| p@);
    let mut i: usize = 0;
    while i < parts.len()
        invariant
            i <= parts.len(),
            pieces == parts@.map_values(|p: Vec<char>| p@),
            texts(r@) == pieces.take(i as int),
        decreases parts.len() - i,
    {
        let t = string_of(&parts[i]);
        let ghost before = r@;
        r.push(t);
        proof {
            assert(pieces[i as int] == parts@[i as int]@);
            assert(r@ == before.push(t));
            assert(texts(r@) =~= texts(before).push(t@));
        }
        i = i + 1;
        assert(texts(r@) =~= pieces.take(i as int));
    }
    assert(pieces.take(parts.len() as int) =~= pieces);
    r
}

/// Tags stored as one text are read back as the same tags, provided no tag
/// holds a comma. (The one list of a single empty tag is stored as the
/// empty text and comes back as no tags; it is left out.)
pub proof fn law_tags_round_trip(tags: Seq<Seq<char>>)
    requires
        forall|i: int, j: int| 0 <= i < tags.len() && 0 <= j < tags[i].len() ==> tags[i][j] != ',',
        !(tags.len() == 1 && tags[0].len() == 0),
    ensures
        tags_of_text(join_with(tags, ',')) == tags,
{
    if tags.len() == 0 {
        assert(tags_of_text(join_with(tags, ',')) =~= tags);
    } else {
        lemma_split_join(tags, ',');
        if tags.len() >= 2 {
            lemma_join_front(tags, ',');
            assert(join_with(tags, ',').len() > 0);
        }
    }
}

} // verus!
