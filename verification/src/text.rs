//! Character and string helpers shared by the validators: character classes,
//! substring tests, splitting, and decimal rendering, each with its meaning
//! stated over `Seq<char>`.
use vstd::prelude::*;

verus! {

broadcast use vstd::string::group_string_axioms;

// ----- character classes -----

pub open spec fn is_ascii_digit(c: char) -> bool {
    '0' <= c && c <= '9'
}

pub open spec fn is_ascii_lowercase(c: char) -> bool {
    'a' <= c && c <= 'z'
}

pub open spec fn is_ascii_uppercase(c: char) -> bool {
    'A' <= c && c <= 'Z'
}

pub open spec fn is_ascii_alphanumeric(c: char) -> bool {
    is_ascii_digit(c) || is_ascii_lowercase(c) || is_ascii_uppercase(c)
}

/// Unicode `White_Space`, the property that `char::is_whitespace` tests.
pub open spec fn is_unicode_whitespace(c: char) -> bool {
    ||| ('\u{9}' <= c && c <= '\u{d}')
    ||| c == ' '
    ||| c == '\u{85}'
    ||| c == '\u{a0}'
    ||| c == '\u{1680}'
    ||| ('\u{2000}' <= c && c <= '\u{200a}')
    ||| c == '\u{2028}'
    ||| c == '\u{2029}'
    ||| c == '\u{202f}'
    ||| c == '\u{205f}'
    ||| c == '\u{3000}'
}

pub open spec fn all_digits(s: Seq<char>) -> bool {
    forall|i: int| 0 <= i < s.len() ==> #[trigger] is_ascii_digit(s[i])
}

pub open spec fn all_whitespace(s: Seq<char>) -> bool {
    forall|i: int| 0 <= i < s.len() ==> #[trigger] is_unicode_whitespace(s[i])
}

pub fn is_digit(c: char) -> (r: bool)
    ensures
        r == is_ascii_digit(c),
{
    '0' <= c && c <= '9'
}

pub fn is_lowercase(c: char) -> (r: bool)
    ensures
        r == is_ascii_lowercase(c),
{
    'a' <= c && c <= 'z'
}

pub fn is_alphanumeric(c: char) -> (r: bool)
    ensures
        r == is_ascii_alphanumeric(c),
{
    ('0' <= c && c <= '9') || ('a' <= c && c <= 'z') || ('A' <= c && c <= 'Z')
}

pub fn is_whitespace(c: char) -> (r: bool)
    ensures
        r == is_unicode_whitespace(c),
{
    ('\u{9}' <= c && c <= '\u{d}') || c == ' ' || c == '\u{85}' || c == '\u{a0}' || c
        == '\u{1680}' || ('\u{2000}' <= c && c <= '\u{200a}') || c == '\u{2028}' || c
        == '\u{2029}' || c == '\u{202f}' || c == '\u{205f}' || c == '\u{3000}'
}

/// True when every character of `s` is an ASCII digit (also for an empty `s`).
pub fn chars_all_digits(s: &Vec<char>) -> (r: bool)
    ensures
        r == all_digits(s@),
{
    let mut i: usize = 0;
    while i < s.len()
        invariant
            i <= s.len(),
            forall|j: int| 0 <= j < i ==> #[trigger] is_ascii_digit(s@[j]),
        decreases s.len() - i,
    {
        if !is_digit(s[i]) {
            assert(!is_ascii_digit(s@[i as int]));
            return false;
        }
        i = i + 1;
    }
    true
}

/// True when every character of `s` is Unicode whitespace; this is what
/// `s.trim().is_empty()` decides.
pub fn chars_all_whitespace(s: &Vec<char>) -> (r: bool)
    ensures
        r == all_whitespace(s@),
{
    let mut i: usize = 0;
    while i < s.len()
        invariant
            i <= s.len(),
            forall|j: int| 0 <= j < i ==> #[trigger] is_unicode_whitespace(s@[j]),
        decreases s.len() - i,
    {
        if !is_whitespace(s[i]) {
            assert(!is_unicode_whitespace(s@[i as int]));
            return false;
        }
        i = i + 1;
    }
    true
}

// ----- substrings -----

pub open spec fn has_prefix(s: Seq<char>, p: Seq<char>) -> bool {
    p.len() <= s.len() && s.take(p.len() as int) == p
}

pub open spec fn occurs_at(s: Seq<char>, t: Seq<char>, i: int) -> bool {
    0 <= i && i + t.len() <= s.len() && s.subrange(i, i + t.len()) == t
}

pub open spec fn contains_seq(s: Seq<char>, t: Seq<char>) -> bool {
    exists|i: int| #[trigger] occurs_at(s, t, i)
}

/// Whether two char vectors hold the same characters.
pub fn chars_eq(a: &Vec<char>, b: &Vec<char>) -> (r: bool)
    ensures
        r == (a@ == b@),
{
    if a.len() != b.len() {
        return false;
    }
    let mut i: usize = 0;
    while i < a.len()
        invariant
            a.len() == b.len(),
            i <= a.len(),
            forall|j: int| 0 <= j < i ==> a@[j] == b@[j],
        decreases a.len() - i,
    {
        if a[i] != b[i] {
            return false;
        }
        i = i + 1;
    }
    assert(a@ =~= b@);
    true
}

/// Whether two texts are equal, char by char.
pub fn same_text(a: &str, b: &str) -> (r: bool)
    ensures
        r == (a@ == b@),
{
    chars_eq(&chars_of(a), &chars_of(b))
}

/// Whether `t` occurs in `s` starting at position `at`.
pub fn matches_at(s: &Vec<char>, t: &Vec<char>, at: usize) -> (r: bool)
    ensures
        r == occurs_at(s@, t@, at as int),
{
    if t.len() > s.len() || at > s.len() - t.len() {
        return false;
    }
    let mut k: usize = 0;
    while k < t.len()
        invariant
            at + t.len() <= s.len(),
            k <= t.len(),
            forall|j: int| 0 <= j < k ==> s@[at + j] == t@[j],
        decreases t.len() - k,
    {
        if s[at + k] != t[k] {
            assert(s@.subrange(at as int, at + t.len())[k as int] != t@[k as int]);
            return false;
        }
        k = k + 1;
    }
    assert(s@.subrange(at as int, at + t.len()) =~= t@);
    true
}

pub fn starts_with_chars(s: &Vec<char>, p: &Vec<char>) -> (r: bool)
    ensures
        r == has_prefix(s@, p@),
{
    let r = matches_at(s, p, 0);
    assert(s@.take(p@.len() as int) == s@.subrange(0, p@.len() as int));
    r
}

pub fn contains_chars(s: &Vec<char>, t: &Vec<char>) -> (r: bool)
    ensures
        r == contains_seq(s@, t@),
{
    if t.len() > s.len() {
        assert forall|i: int| !occurs_at(s@, t@, i) by {}
        return false;
    }
    let limit = s.len() - t.len();
    let mut at: usize = 0;
    loop
        invariant
            limit == s.len() - t.len(),
            at <= limit,
            forall|i: int| 0 <= i < at ==> !#[trigger] occurs_at(s@, t@, i),
        decreases limit - at,
    {
        if matches_at(s, t, at) {
            return true;
        }
        if at == limit {
            assert forall|i: int| !#[trigger] occurs_at(s@, t@, i) by {
                if 0 <= i < at {
                }
            }
            return false;
        }
        at = at + 1;
    }
}

/// Whether `s` ends with `t`.
pub open spec fn has_suffix(s: Seq<char>, t: Seq<char>) -> bool {
    t.len() <= s.len() && s.subrange(s.len() - t.len(), s.len() as int) == t
}

/// The first position at or after `i` where `t` occurs in `s`, if any.
pub open spec fn find_seq_from(s: Seq<char>, t: Seq<char>, i: int) -> Option<int>
    decreases s.len() + 1 - i,
{
    if i < 0 || i + t.len() > s.len() {
        None
    } else if occurs_at(s, t, i) {
        Some(i)
    } else {
        find_seq_from(s, t, i + 1)
    }
}

/// What `find_seq_from` finds is an occurrence, at or after the start.
pub proof fn lemma_find_seq_from(s: Seq<char>, t: Seq<char>, i: int)
    ensures
        find_seq_from(s, t, i) matches Some(k) ==> i <= k && occurs_at(s, t, k),
    decreases s.len() + 1 - i,
{
    if !(i < 0 || i + t.len() > s.len()) && !occurs_at(s, t, i) {
        lemma_find_seq_from(s, t, i + 1);
    }
}

/// Whether `s` ends with `t`.
pub fn ends_with_chars(s: &Vec<char>, t: &Vec<char>) -> (r: bool)
    ensures
        r == has_suffix(s@, t@),
{
    if t.len() > s.len() {
        return false;
    }
    matches_at(s, t, s.len() - t.len())
}

/// The first position where `t` occurs in `s`, if any.
pub fn find_chars(s: &Vec<char>, t: &Vec<char>) -> (r: Option<usize>)
    ensures
        match r {
            Some(i) => find_seq_from(s@, t@, 0) == Some(i as int),
            None => find_seq_from(s@, t@, 0) is None,
        },
{
    if t.len() > s.len() {
        return None;
    }
    let limit = s.len() - t.len();
    let mut at: usize = 0;
    loop
        invariant
            limit == s.len() - t.len(),
            at <= limit,
            find_seq_from(s@, t@, 0) == find_seq_from(s@, t@, at as int),
        decreases limit - at,
    {
        if matches_at(s, t, at) {
            return Some(at);
        }
        if at == limit {
            assert(find_seq_from(s@, t@, at + 1) is None);
            return None;
        }
        at = at + 1;
    }
}

/// The characters of `s` from position `from` on.
pub fn chars_from(s: &Vec<char>, from: usize) -> (r: Vec<char>)
    requires
        from <= s.len(),
    ensures
        r@ == s@.skip(from as int),
{
    let r = copy_range(s, from, s.len());
    assert(r@ =~= s@.skip(from as int));
    r
}

// ----- splitting -----

/// Index of the first occurrence of `c` in `s`, if any.
pub open spec fn first_index_of(s: Seq<char>, c: char) -> Option<int>
    decreases s.len(),
{
    if s.len() == 0 {
        None
    } else if s[0] == c {
        Some(0)
    } else {
        match first_index_of(s.drop_first(), c) {
            Some(i) => Some(i + 1),
            None => None,
        }
    }
}

/// The pieces of `s` between occurrences of `sep`, as `str::split` yields them.
pub open spec fn split_on(s: Seq<char>, sep: char) -> Seq<Seq<char>>
    decreases s.len(),
{
    match first_index_of(s, sep) {
        Some(i) => if 0 <= i < s.len() {
            seq![s.take(i)] + split_on(s.skip(i + 1), sep)
        } else {
            seq![s]
        },
        None => seq![s],
    }
}

/// The part of `s` before the first `c`: the first piece that `str::split` yields.
pub open spec fn before_char(s: Seq<char>, c: char) -> Seq<char> {
    match first_index_of(s, c) {
        Some(i) => s.take(i),
        None => s,
    }
}

pub proof fn lemma_first_index_of(s: Seq<char>, c: char)
    ensures
        match first_index_of(s, c) {
            Some(i) => 0 <= i < s.len() && s[i] == c && forall|j: int| 0 <= j < i ==> s[j] != c,
            None => forall|j: int| 0 <= j < s.len() ==> s[j] != c,
        },
    decreases s.len(),
{
    if s.len() > 0 && s[0] != c {
        lemma_first_index_of(s.drop_first(), c);
        match first_index_of(s.drop_first(), c) {
            Some(i) => {
                assert forall|j: int| 0 <= j < i + 1 implies s[j] != c by {
                    if j > 0 {
                        assert(s[j] == s.drop_first()[j - 1]);
                    }
                }
            },
            None => {
                assert forall|j: int| 0 <= j < s.len() implies s[j] != c by {
                    if j > 0 {
                        assert(s[j] == s.drop_first()[j - 1]);
                    }
                }
            },
        }
    }
}

/// If `c` does not occur before position `k` but occurs at `k`, `k` is the first index.
pub proof fn lemma_first_index_is(s: Seq<char>, c: char, k: int)
    requires
        0 <= k < s.len(),
        s[k] == c,
        forall|j: int| 0 <= j < k ==> s[j] != c,
    ensures
        first_index_of(s, c) == Some(k),
{
    lemma_first_index_of(s, c);
    match first_index_of(s, c) {
        Some(i) => {
            if i < k {
                assert(s[i] != c);
            } else if i > k {
                assert(s[k] != c);
            }
        },
        None => {
            assert(s[k] != c);
        },
    }
}

/// The texts of `parts` joined with `sep` between each two of them.
pub open spec fn join_with(parts: Seq<Seq<char>>, sep: char) -> Seq<char>
    decreases parts.len(),
{
    if parts.len() == 0 {
        seq![]
    } else if parts.len() == 1 {
        parts[0]
    } else {
        join_with(parts.drop_last(), sep).push(sep) + parts.last()
    }
}

/// Joining two or more texts is the first, the separator, and the join of the rest.
pub proof fn lemma_join_front(parts: Seq<Seq<char>>, sep: char)
    requires
        parts.len() >= 2,
    ensures
        join_with(parts, sep) == parts[0].push(sep) + join_with(parts.drop_first(), sep),
    decreases parts.len(),
{
    let d = parts.drop_last();
    let f = parts.drop_first();
    if parts.len() == 2 {
        assert(d.len() == 1 && d[0] == parts[0]);
        assert(join_with(d, sep) == parts[0]);
        assert(f.len() == 1 && f[0] == parts[1]);
        assert(join_with(f, sep) == parts[1]);
        assert(join_with(parts, sep) == join_with(d, sep).push(sep) + parts.last());
    } else {
        lemma_join_front(d, sep);
        assert(d.drop_first() =~= f.drop_last());
        assert(f.last() == parts.last());
        assert(d[0] == parts[0]);
        assert(join_with(parts, sep) == join_with(d, sep).push(sep) + parts.last());
        assert(join_with(f, sep) == join_with(f.drop_last(), sep).push(sep) + f.last());
        assert(join_with(parts, sep) =~= parts[0].push(sep) + join_with(f, sep));
    }
}

/// Splitting the join of texts that hold no separator gives the texts back.
pub proof fn lemma_split_join(parts: Seq<Seq<char>>, sep: char)
    requires
        parts.len() >= 1,
        forall|i: int, j: int| 0 <= i < parts.len() && 0 <= j < parts[i].len() ==> parts[i][j]
            != sep,
    ensures
        split_on(join_with(parts, sep), sep) == parts,
    decreases parts.len(),
{
    let s = join_with(parts, sep);
    if parts.len() == 1 {
        assert forall|j: int| 0 <= j < s.len() implies s[j] != sep by {
            assert(s[j] == parts[0][j]);
        }
        lemma_first_index_of(s, sep);
        if first_index_of(s, sep) is Some {
            let k = first_index_of(s, sep)->0;
            assert(s[k] != sep);
        }
        assert(split_on(s, sep) =~= seq![parts[0]]);
        assert(parts =~= seq![parts[0]]);
    } else {
        let rest = parts.drop_first();
        lemma_join_front(parts, sep);
        assert forall|i: int, j: int| 0 <= i < rest.len() && 0 <= j < rest[i].len() implies rest[i][j]
            != sep by {
            assert(rest[i] == parts[i + 1]);
        }
        lemma_split_join(rest, sep);
        let k = parts[0].len() as int;
        assert forall|j: int| 0 <= j < k implies s[j] != sep by {
            assert(s[j] == parts[0][j]);
        }
        assert(s[k] == sep);
        lemma_first_index_is(s, sep, k);
        assert(s.take(k) =~= parts[0]);
        assert(s.skip(k + 1) =~= join_with(rest, sep));
        assert(seq![parts[0]] + rest =~= parts);
    }
}

/// The position of the first `c` in `s` at or after `from`, or `s.len()`.
fn find_char_from(s: &Vec<char>, c: char, from: usize) -> (r: usize)
    requires
        from <= s.len(),
    ensures
        from <= r <= s.len(),
        r < s.len() ==> s@[r as int] == c,
        forall|j: int| from <= j < r ==> s@[j] != c,
{
    let mut i = from;
    while i < s.len()
        invariant
            from <= i <= s.len(),
            forall|j: int| from <= j < i ==> s@[j] != c,
        decreases s.len() - i,
    {
        if s[i] == c {
            return i;
        }
        i = i + 1;
    }
    i
}

fn copy_range(s: &Vec<char>, lo: usize, hi: usize) -> (r: Vec<char>)
    requires
        lo <= hi <= s.len(),
    ensures
        r@ == s@.subrange(lo as int, hi as int),
{
    let mut r: Vec<char> = Vec::new();
    let mut i = lo;
    while i < hi
        invariant
            lo <= i <= hi <= s.len(),
            r@ == s@.subrange(lo as int, i as int),
        decreases hi - i,
    {
        r.push(s[i]);
        i = i + 1;
        assert(r@ =~= s@.subrange(lo as int, i as int));
    }
    r
}

/// Splits `s` at every `sep`, as `str::split(sep)` does.
pub fn split_chars(s: &Vec<char>, sep: char) -> (parts: Vec<Vec<char>>)
    ensures
        parts@.map_values(|p: Vec<char>| p@) == split_on(s@, sep),
{
    let mut parts: Vec<Vec<char>> = Vec::new();
    let mut start: usize = 0;
    assert(s@.skip(0) =~= s@);
    loop
        invariant
            start <= s.len(),
            parts@.map_values(|p: Vec<char>| p@) + split_on(s@.skip(start as int), sep)
                == split_on(s@, sep),
        decreases s.len() - start,
    {
        let end = find_char_from(s, sep, start);
        let piece = copy_range(s, start, end);
        let ghost rest = s@.skip(start as int);
        let ghost old_parts = parts@.map_values(|p: Vec<char>| p@);
        if end < s.len() {
            proof {
                assert forall|j: int| 0 <= j < end - start implies rest[j] != sep by {
                    assert(rest[j] == s@[start + j]);
                }
                assert(rest[end - start] == s@[end as int]);
                lemma_first_index_is(rest, sep, end - start);
                assert(rest.take(end - start) =~= piece@);
                assert(rest.skip(end - start + 1) =~= s@.skip(end + 1));
            }
            parts.push(piece);
            proof {
                assert(parts@.map_values(|p: Vec<char>| p@) =~= old_parts.push(piece@));
                assert(split_on(rest, sep) == seq![piece@] + split_on(s@.skip(end + 1), sep));
                assert(old_parts.push(piece@) + split_on(s@.skip(end + 1), sep) =~= old_parts
                    + (seq![piece@] + split_on(s@.skip(end + 1), sep)));
            }
            start = end + 1;
        } else {
            proof {
                assert forall|j: int| 0 <= j < rest.len() implies rest[j] != sep by {
                    assert(rest[j] == s@[start + j]);
                }
                lemma_first_index_of(rest, sep);
                if first_index_of(rest, sep) is Some {
                    let i = first_index_of(rest, sep)->0;
                    assert(rest[i] != sep);
                }
                assert(rest =~= piece@);
                assert(split_on(rest, sep) == seq![piece@]);
            }
            parts.push(piece);
            proof {
                assert(parts@.map_values(|p: Vec<char>| p@) =~= old_parts.push(piece@));
                assert(old_parts + seq![piece@] =~= old_parts.push(piece@));
            }
            return parts;
        }
    }
}

/// The characters of `s` before its first `c` (all of `s` when `c` is absent).
pub fn chars_before(s: &Vec<char>, c: char) -> (r: Vec<char>)
    ensures
        r@ == before_char(s@, c),
{
    let end = find_char_from(s, c, 0);
    let r = copy_range(s, 0, end);
    proof {
        if end < s.len() {
            lemma_first_index_is(s@, c, end as int);
        } else {
            lemma_first_index_of(s@, c);
            if first_index_of(s@, c) is Some {
                let i = first_index_of(s@, c)->0;
                assert(s@[i] != c);
            }
            assert(r@ =~= s@);
        }
    }
    r
}

// ----- conversions between `str`, `String` and characters -----

/// The characters of a string slice, in order.
pub fn chars_of(s: &str) -> (out: Vec<char>)
    ensures
        out@ == s@,
{
    let mut out: Vec<char> = Vec::new();
    for c in it: s.chars()
        invariant
            out@ == it.seq().take(it.index() as int),
            it.seq() == s@,
    {
        out.push(c);
    }
    out
}

/// Appends one character to a `String` (`String::push`).
#[verifier::external_body]
pub(crate) fn push_char(s: &mut String, c: char)
    ensures
        final(s)@ == old(s)@.push(c),
{
    s.push(c);
}

/// A `String` holding the given characters.
pub fn string_of(chars: &Vec<char>) -> (s: String)
    ensures
        s@ == chars@,
{
    let mut s = String::new();
    let mut i: usize = 0;
    while i < chars.len()
        invariant
            i <= chars.len(),
            s@ == chars@.take(i as int),
        decreases chars.len() - i,
    {
        push_char(&mut s, chars[i]);
        i = i + 1;
        assert(s@ =~= chars@.take(i as int));
    }
    assert(chars@.take(chars.len() as int) =~= chars@);
    s
}

/// What `str::to_lowercase` returns for the given characters (Unicode lowercase
/// mapping, which may change the length of the text).
pub uninterp spec fn unicode_lowercase(s: Seq<char>) -> Seq<char>;

/// `str::to_lowercase`: the result is the Unicode lowercase mapping of `s`,
/// given here as the name `unicode_lowercase`; its table is not restated.
#[verifier::external_body]
pub(crate) fn to_lowercase(s: &str) -> (r: String)
    ensures
        r@ == unicode_lowercase(s@),
{
    s.to_lowercase()
}

// ----- decimal rendering -----

pub open spec fn digit_char(d: nat) -> char
    recommends
        d < 10,
{
    if d == 0 {
        '0'
    } else if d == 1 {
        '1'
    } else if d == 2 {
        '2'
    } else if d == 3 {
        '3'
    } else if d == 4 {
        '4'
    } else if d == 5 {
        '5'
    } else if d == 6 {
        '6'
    } else if d == 7 {
        '7'
    } else if d == 8 {
        '8'
    } else {
        '9'
    }
}

/// The decimal rendering of `n`, without leading zeros (`"0"` for zero), as
/// `Display` writes an unsigned integer.
pub open spec fn decimal(n: nat) -> Seq<char>
    decreases n,
{
    if n < 10 {
        seq![digit_char(n)]
    } else {
        decimal(n / 10).push(digit_char(n % 10))
    }
}

fn digit_of(d: u64) -> (c: char)
    requires
        d < 10,
    ensures
        c == digit_char(d as nat),
{
    if d == 0 {
        '0'
    } else if d == 1 {
        '1'
    } else if d == 2 {
        '2'
    } else if d == 3 {
        '3'
    } else if d == 4 {
        '4'
    } else if d == 5 {
        '5'
    } else if d == 6 {
        '6'
    } else if d == 7 {
        '7'
    } else if d == 8 {
        '8'
    } else {
        '9'
    }
}

/// Appends the decimal rendering of `n` to `s`.
pub fn push_decimal(s: &mut String, n: u64)
    ensures
        final(s)@ == old(s)@ + decimal(n as nat),
    decreases n,
{
    if n < 10 {
        push_char(s, digit_of(n));
        assert(old(s)@.push(digit_char(n as nat)) =~= old(s)@ + decimal(n as nat));
    } else {
        push_decimal(s, n / 10);
        push_char(s, digit_of(n % 10));
        assert(old(s)@ + decimal((n / 10) as nat) + seq![digit_char((n % 10) as nat)] =~= old(
            s,
        )@ + decimal(n as nat));
    }
}

} // verus!
