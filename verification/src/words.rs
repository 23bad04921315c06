//! The word source: split a comma-separated word list and pick one entry at
//! random.

use vstd::prelude::*;

verus! {

/// An ASCII whitespace character, as trimmed from the ends of the word list.
pub open spec fn is_space(c: char) -> bool {
    c == ' ' || c == '\t' || c == '\n' || c == '\r'
}

/// `s` without its leading whitespace.
pub open spec fn trim_front(s: Seq<char>) -> Seq<char>
    decreases s.len(),
{
    if s.len() > 0 && is_space(s[0]) {
        trim_front(s.drop_first())
    } else {
        s
    }
}

/// `s` without its trailing whitespace.
pub open spec fn trim_back(s: Seq<char>) -> Seq<char>
    decreases s.len(),
{
    if s.len() > 0 && is_space(s.last()) {
        trim_back(s.drop_last())
    } else {
        s
    }
}

/// `s` without leading and trailing whitespace.
pub open spec fn trimmed(s: Seq<char>) -> Seq<char> {
    trim_back(trim_front(s))
}

/// The words of `s`, split on every comma: one more word than there are
/// commas, in order, each word possibly empty.
pub open spec fn split_commas(s: Seq<char>) -> Seq<Seq<char>>
    decreases s.len(),
{
    if s.len() == 0 {
        seq![Seq::<char>::empty()]
    } else if s.last() == ',' {
        split_commas(s.drop_last()).push(Seq::<char>::empty())
    } else {
        let rest = split_commas(s.drop_last());
        rest.update(rest.len() - 1, rest.last().push(s.last()))
    }
}

/// The views of a sequence of owned strings.
pub open spec fn word_views(words: Seq<String>) -> Seq<Seq<char>> {
    words.map_values(|w: String| w@)
}

/// Splitting always yields at least one word: an input without commas is a
/// single word, possibly empty.
pub proof fn lemma_split_commas_nonempty(s: Seq<char>)
    ensures
        split_commas(s).len() >= 1,
    decreases s.len(),
{
    if s.len() > 0 {
        lemma_split_commas_nonempty(s.drop_last());
    }
}

/// Decide whether `c` is one of the trimmed whitespace characters.
fn space_char(c: char) -> (r: bool)
    ensures
        r == is_space(c),
{
    c == ' ' || c == '\t' || c == '\n' || c == '\r'
}

/// Drop leading and trailing whitespace from `s`.
pub fn trim_spaces(s: &str) -> (r: &str)
    ensures
        r@ == trimmed(s@),
{
    let n = s.unicode_len();
    proof {
        assert(s@.subrange(0, n as int) =~= s@);
    }
    let mut start: usize = 0;
    while start < n && space_char(s.get_char(start))
        invariant
            n == s@.len(),
            start <= n,
            trim_front(s@) == trim_front(s@.subrange(start as int, n as int)),
        decreases n - start,
    {
        proof {
            let cur = s@.subrange(start as int, n as int);
            assert(cur.drop_first() =~= s@.subrange(start + 1, n as int));
        }
        start += 1;
    }
    proof {
        let cur = s@.subrange(start as int, n as int);
        if start < n {
            assert(trim_front(cur) == cur);
        } else {
            assert(cur =~= Seq::<char>::empty());
        }
    }
    let mut end: usize = n;
    while end > start && space_char(s.get_char(end - 1))
        invariant
            n == s@.len(),
            start <= end <= n,
            trim_front(s@) == s@.subrange(start as int, n as int),
            trimmed(s@) == trim_back(s@.subrange(start as int, end as int)),
        decreases end,
    {
        proof {
            let cur = s@.subrange(start as int, end as int);
            assert(cur.drop_last() =~= s@.subrange(start as int, end - 1));
        }
        end -= 1;
    }
    proof {
        let cur = s@.subrange(start as int, end as int);
        if end > start {
            assert(trim_back(cur) == cur);
        } else {
            assert(cur =~= Seq::<char>::empty());
        }
    }
    s.substring_char(start, end)
}

/// Split `s` into its comma-separated words.
pub fn split_words(s: &str) -> (words: Vec<String>)
    ensures
        word_views(words@) == split_commas(s@),
{
    let n = s.unicode_len();
    let mut words: Vec<String> = Vec::new();
    let mut cur = String::new();
    let mut idx: usize = 0;
    while idx < n
        invariant
            n == s@.len(),
            idx <= n,
            word_views(words@).push(cur@) =~~= split_commas(s@.subrange(0, idx as int)),
        decreases n - idx,
    {
        let c = s.get_char(idx);
        let ghost prev_words = words@;
        let ghost prev_cur = cur@;
        if c == ',' {
            words.push(cur);
            cur = String::new();
        } else {
            cur.push(c);
        }
        idx += 1;
        proof {
            let sub1 = s@.subrange(0, idx as int);
            assert(sub1.drop_last() =~= s@.subrange(0, idx - 1));
            assert(sub1.last() == s@[idx - 1]);
            if c == ',' {
                assert(word_views(words@) =~~= word_views(prev_words).push(prev_cur));
            }
            assert(word_views(words@).push(cur@) =~~= split_commas(sub1));
        }
    }
    proof {
        assert(s@.subrange(0, n as int) =~= s@);
    }
    words.push(cur);
    proof {
        assert(word_views(words@) =~~= split_commas(s@));
    }
    words
}

/// Relies on rand::random_range: a uniformly random draw from the half-open
/// range below `n`; the range is non-empty, so the call returns normally.
#[verifier::external_body]
fn random_index(n: usize) -> (r: usize)
    requires
        n > 0,
    ensures
        r < n,
{
    rand::random_range(0..n)
}

/// Trim the word-list text, split it on commas, and return one of the
/// resulting words, chosen at random.
pub fn select_word(contents: &str) -> (w: String)
    ensures
        exists|i: int|
            0 <= i < split_commas(trimmed(contents@)).len() && w@ == split_commas(
                trimmed(contents@),
            )[i],
{
    let t = trim_spaces(contents);
    let words = split_words(t);
    proof {
        lemma_split_commas_nonempty(t@);
        assert(words@.len() == split_commas(t@).len());
    }
    let i = random_index(words.len());
    let w = words[i].clone();
    proof {
        assert(w@ == split_commas(trimmed(contents@))[i as int]);
    }
    w
}

} // verus!
