//! Trimming and joining of text.

use vstd::prelude::*;
use vstd::string::*;

verus! {

/// Whether `c` has the Unicode property White_Space.
pub open spec fn white_space(c: char) -> bool {
    ||| '\u{9}' <= c <= '\u{d}'
    ||| c == ' '
    ||| c == '\u{85}'
    ||| c == '\u{a0}'
    ||| c == '\u{1680}'
    ||| '\u{2000}' <= c <= '\u{200a}'
    ||| c == '\u{2028}'
    ||| c == '\u{2029}'
    ||| c == '\u{202f}'
    ||| c == '\u{205f}'
    ||| c == '\u{3000}'
}

/// `s` without its longest prefix of characters that satisfy `p`.
pub open spec fn without_prefix(s: Seq<char>, p: spec_fn(char) -> bool) -> Seq<char>
    decreases s.len(),
{
    if s.len() > 0 && p(s[0]) {
        without_prefix(s.drop_first(), p)
    } else {
        s
    }
}

/// `s` without its longest suffix of characters that satisfy `p`.
pub open spec fn without_suffix(s: Seq<char>, p: spec_fn(char) -> bool) -> Seq<char>
    decreases s.len(),
{
    if s.len() > 0 && p(s.last()) {
        without_suffix(s.drop_last(), p)
    } else {
        s
    }
}

/// `s` without leading and trailing white space.
pub open spec fn trimmed(s: Seq<char>) -> Seq<char> {
    without_suffix(without_prefix(s, |c: char| white_space(c)), |c: char| white_space(c))
}

/// `s` without leading dollar signs.
pub open spec fn without_dollars(s: Seq<char>) -> Seq<char> {
    without_prefix(s, |c: char| c == '$')
}

/// Dropping `n` characters that satisfy `p` does not change what is left
/// without the prefix.
proof fn lemma_without_prefix_skip(s: Seq<char>, p: spec_fn(char) -> bool, n: int)
    requires
        0 <= n <= s.len(),
        forall|i: int| 0 <= i < n ==> p(#[trigger] s[i]),
    ensures
        without_prefix(s, p) == without_prefix(s.skip(n), p),
    decreases n,
{
    if n > 0 {
        assert(p(s[0]));
        assert forall|i: int| 0 <= i < n - 1 implies p(#[trigger] s.drop_first()[i]) by {
            assert(p(s[i + 1]));
        }
        lemma_without_prefix_skip(s.drop_first(), p, n - 1);
        assert(s.drop_first().skip(n - 1) == s.skip(n));
    } else {
        assert(s.skip(0) == s);
    }
}

/// Dropping characters from `n` on that satisfy `p` does not change what is left
/// without the suffix.
proof fn lemma_without_suffix_take(s: Seq<char>, p: spec_fn(char) -> bool, n: int)
    requires
        0 <= n <= s.len(),
        forall|i: int| n <= i < s.len() ==> p(#[trigger] s[i]),
    ensures
        without_suffix(s, p) == without_suffix(s.take(n), p),
    decreases s.len() - n,
{
    if n < s.len() {
        assert(p(s[s.len() - 1]));
        assert forall|i: int| n <= i < s.drop_last().len() implies p(
            #[trigger] s.drop_last()[i],
        ) by {
            assert(p(s[i]));
        }
        lemma_without_suffix_take(s.drop_last(), p, n);
        assert(s.drop_last().take(n) == s.take(n));
    } else {
        assert(s.take(n) == s);
    }
}

/// A trimmed text is empty or begins and ends with a character that is no white
/// space.
pub proof fn lemma_trimmed_ends(s: Seq<char>)
    ensures
        trimmed(s).len() > 0 ==> !white_space(trimmed(s)[0]) && !white_space(trimmed(s).last()),
{
    let p = |c: char| white_space(c);
    lemma_without_prefix_first(s, p);
    lemma_without_suffix_ends(without_prefix(s, p), p);
}

proof fn lemma_without_prefix_first(s: Seq<char>, p: spec_fn(char) -> bool)
    ensures
        without_prefix(s, p).len() > 0 ==> !p(without_prefix(s, p)[0]),
    decreases s.len(),
{
    if s.len() > 0 && p(s[0]) {
        lemma_without_prefix_first(s.drop_first(), p);
    }
}

proof fn lemma_without_suffix_ends(s: Seq<char>, p: spec_fn(char) -> bool)
    ensures
        without_suffix(s, p).len() > 0 ==> !p(without_suffix(s, p).last()) && without_suffix(
            s,
            p,
        )[0] == s[0],
    decreases s.len(),
{
    if s.len() > 0 && p(s.last()) {
        lemma_without_suffix_ends(s.drop_last(), p);
    }
}

/// Whether `c` is white space.
pub fn is_white_space(c: char) -> (r: bool)
    ensures
        r == white_space(c),
{
    ('\u{9}' <= c && c <= '\u{d}') || c == ' ' || c == '\u{85}' || c == '\u{a0}' || c == '\u{1680}'
        || ('\u{2000}' <= c && c <= '\u{200a}') || c == '\u{2028}' || c == '\u{2029}' || c
        == '\u{202f}' || c == '\u{205f}' || c == '\u{3000}'
}

/// `s` without leading and trailing white space.
pub fn trim(s: &str) -> (r: &str)
    ensures
        r@ == trimmed(s@),
{
    let n: usize = s.unicode_len();
    let ghost p = |c: char| white_space(c);
    let mut from: usize = 0;
    while from < n && is_white_space(s.get_char(from))
        invariant
            from <= n,
            n == s@.len(),
            forall|i: int| 0 <= i < from ==> white_space(#[trigger] s@[i]),
        ensures
            from <= n,
            forall|i: int| 0 <= i < from ==> white_space(#[trigger] s@[i]),
            from < n ==> !white_space(s@[from as int]),
        decreases n - from,
    {
        from = from + 1;
    }
    let mut to: usize = n;
    while from < to && is_white_space(s.get_char(to - 1))
        invariant
            from <= to <= n,
            n == s@.len(),
            forall|i: int| to <= i < n ==> white_space(#[trigger] s@[i]),
        ensures
            from <= to <= n,
            forall|i: int| to <= i < n ==> white_space(#[trigger] s@[i]),
            from < to ==> !white_space(s@[to - 1]),
        decreases to - from,
    {
        to = to - 1;
    }
    proof {
        let head = s@.skip(from as int);
        lemma_without_prefix_skip(s@, p, from as int);
        assert(without_prefix(s@, p) == head) by {
            if from < n {
                assert(head[0] == s@[from as int]);
            }
        }
        assert forall|i: int| to - from <= i < head.len() implies p(#[trigger] head[i]) by {
            assert(head[i] == s@[i + from]);
        }
        lemma_without_suffix_take(head, p, to - from);
        assert(head.take(to - from) == s@.subrange(from as int, to as int));
        if from < to {
            assert(s@.subrange(from as int, to as int).last() == s@[to - 1]);
        }
        assert(trimmed(s@) == s@.subrange(from as int, to as int));
    }
    s.substring_char(from, to)
}

/// `s` without leading dollar signs.
pub fn trim_start_dollars(s: &str) -> (r: &str)
    ensures
        r@ == without_dollars(s@),
{
    let n: usize = s.unicode_len();
    let ghost p = |c: char| c == '$';
    let mut from: usize = 0;
    while from < n && s.get_char(from) == '$'
        invariant
            from <= n,
            n == s@.len(),
            forall|i: int| 0 <= i < from ==> #[trigger] s@[i] == '$',
        ensures
            from <= n,
            forall|i: int| 0 <= i < from ==> #[trigger] s@[i] == '$',
            from < n ==> s@[from as int] != '$',
        decreases n - from,
    {
        from = from + 1;
    }
    proof {
        let rest = s@.skip(from as int);
        lemma_without_prefix_skip(s@, p, from as int);
        if from < n {
            assert(rest[0] == s@[from as int]);
        }
        assert(rest == s@.subrange(from as int, n as int));
    }
    s.substring_char(from, n)
}

/// The two texts one after the other.
pub fn join(first: &str, second: &str) -> (r: String)
    ensures
        r@ == first@ + second@,
{
    first.to_owned().concat(second)
}

/// The three texts one after the other.
pub fn join3(first: &str, second: &str, third: &str) -> (r: String)
    ensures
        r@ == first@ + second@ + third@,
{
    first.to_owned().concat(second).concat(third)
}

/// Whether the two texts hold the same characters.
pub fn same_text(first: &String, second: &String) -> (r: bool)
    ensures
        r == (first@ == second@),
{
    *first == *second
}

/// A copy of an optional text.
pub fn copy_label(label: &Option<String>) -> (r: Option<String>)
    ensures
        r == *label,
{
    match label {
        Some(text) => Some(text.clone()),
        None => None,
    }
}

/// Whether both texts are there and equal, or neither is there.
pub fn same_label(first: &Option<String>, second: &Option<String>) -> (r: bool)
    ensures
        r == (first.deep_view() == second.deep_view()),
{
    match (first, second) {
        (Some(a), Some(b)) => same_text(a, b),
        (None, None) => true,
        _ => false,
    }
}

/// What is left without a prefix is the rest behind characters that satisfy `p`,
/// and does not begin with one.
proof fn lemma_without_prefix_is_rest(s: Seq<char>, p: spec_fn(char) -> bool) -> (from: int)
    ensures
        0 <= from <= s.len(),
        without_prefix(s, p) == s.skip(from),
        forall|k: int| 0 <= k < from ==> p(#[trigger] s[k]),
        from < s.len() ==> !p(s[from]),
    decreases s.len(),
{
    if s.len() > 0 && p(s[0]) {
        let rest = lemma_without_prefix_is_rest(s.drop_first(), p);
        assert(s.drop_first().skip(rest) == s.skip(rest + 1));
        assert forall|k: int| 0 <= k < rest + 1 implies p(#[trigger] s[k]) by {
            if k > 0 {
                assert(s.drop_first()[k - 1] == s[k]);
            }
        }
        if rest + 1 < s.len() {
            assert(s.drop_first()[rest] == s[rest + 1]);
        }
        rest + 1
    } else {
        assert(s.skip(0) == s);
        0
    }
}

/// What is left without a suffix is the part before characters that satisfy `p`,
/// and does not end with one.
proof fn lemma_without_suffix_is_start(s: Seq<char>, p: spec_fn(char) -> bool) -> (to: int)
    ensures
        0 <= to <= s.len(),
        without_suffix(s, p) == s.take(to),
        forall|k: int| to <= k < s.len() ==> p(#[trigger] s[k]),
        to > 0 ==> !p(s[to - 1]),
    decreases s.len(),
{
    if s.len() > 0 && p(s.last()) {
        let to = lemma_without_suffix_is_start(s.drop_last(), p);
        assert(s.drop_last().take(to) == s.take(to));
        assert forall|k: int| to <= k < s.len() implies p(#[trigger] s[k]) by {
            if k < s.len() - 1 {
                assert(s.drop_last()[k] == s[k]);
            }
        }
        to
    } else {
        assert(s.take(s.len() as int) == s);
        s.len() as int
    }
}

/// A text is white space, its trimmed text, and white space. The trimmed text has
/// no white space at its ends. The places between the three are returned.
pub proof fn law_trimmed_is_the_text_within(s: Seq<char>) -> (ends: (int, int))
    ensures
        0 <= ends.0 <= ends.1 <= s.len(),
        trimmed(s) == s.subrange(ends.0, ends.1),
        forall|k: int| 0 <= k < ends.0 ==> white_space(#[trigger] s[k]),
        forall|k: int| ends.1 <= k < s.len() ==> white_space(#[trigger] s[k]),
        ends.0 < ends.1 ==> !white_space(s[ends.0]) && !white_space(s[ends.1 - 1]),
{
    let p = |c: char| white_space(c);
    let from = lemma_without_prefix_is_rest(s, p);
    let rest = s.skip(from);
    let length = lemma_without_suffix_is_start(rest, p);
    assert(rest.take(length) == s.subrange(from, from + length));
    assert forall|k: int| 0 <= k < from implies white_space(#[trigger] s[k]) by {
        assert(p(s[k]));
    }
    assert forall|k: int| from + length <= k < s.len() implies white_space(#[trigger] s[k]) by {
        assert(rest[k - from] == s[k]);
        assert(p(rest[k - from]));
    }
    if length > 0 {
        assert(rest[length - 1] == s[from + length - 1]);
    }
    (from, from + length)
}

/// A text is dollar signs and what is left without them, which does not begin
/// with one. The place between the two is returned.
pub proof fn law_dollars_are_dropped_at_the_start(s: Seq<char>) -> (from: int)
    ensures
        0 <= from <= s.len(),
        without_dollars(s) == s.skip(from),
        forall|k: int| 0 <= k < from ==> #[trigger] s[k] == '$',
        from < s.len() ==> s[from] != '$',
{
    let p = |c: char| c == '$';
    let from = lemma_without_prefix_is_rest(s, p);
    assert forall|k: int| 0 <= k < from implies #[trigger] s[k] == '$' by {
        assert(p(s[k]));
    }
    from
}

} // verus!
