//! Waypoint symbols and their dash-delimited components.
//!
//! A symbol such as `X1-AB23-C4` names a sector (`X1`), a system within it
//! (`X1-AB23`) and a waypoint within that system (`C4`).

use vstd::prelude::*;

verus! {

/// The character that separates the components of a symbol.
pub const DELIMITER: char = '-';

/// The index of the first delimiter in `s`, or `s.len()` where `s` holds none.
pub open spec fn first_dash(s: Seq<char>) -> int
    decreases s.len(),
{
    if s.len() == 0 || s[0] == DELIMITER {
        0
    } else {
        1 + first_dash(s.drop_first())
    }
}

/// The components of `s`: the stretches between its delimiters, in order.
/// A text without a delimiter is its own single component.
pub open spec fn components(s: Seq<char>) -> Seq<Seq<char>>
    decreases s.len(),
{
    let i = first_dash(s);
    if 0 <= i < s.len() {
        seq![s.subrange(0, i)] + components(s.subrange(i + 1, s.len() as int))
    } else {
        seq![s]
    }
}

/// `parts` joined into one text, with a delimiter between neighbours.
pub open spec fn joined(parts: Seq<Seq<char>>) -> Seq<char>
    decreases parts.len(),
{
    if parts.len() == 0 {
        Seq::empty()
    } else if parts.len() == 1 {
        parts[0]
    } else {
        parts[0] + seq![DELIMITER] + joined(parts.drop_first())
    }
}

/// `first_dash` is the position of a delimiter that no delimiter precedes.
pub proof fn lemma_first_dash(s: Seq<char>)
    ensures
        0 <= first_dash(s) <= s.len(),
        forall|j: int| 0 <= j < first_dash(s) ==> s[j] != DELIMITER,
        first_dash(s) < s.len() ==> s[first_dash(s)] == DELIMITER,
    decreases s.len(),
{
    if s.len() == 0 || s[0] == DELIMITER {
    } else {
        let t = s.drop_first();
        lemma_first_dash(t);
        assert forall|j: int| 0 <= j < first_dash(s) implies s[j] != DELIMITER by {
            if j > 0 {
                assert(s[j] == t[j - 1]);
            }
        }
        if first_dash(s) < s.len() {
            assert(s[first_dash(s)] == t[first_dash(t)]);
        }
    }
}

/// A position that holds the first delimiter of `s`, or its length, is `first_dash(s)`.
pub proof fn lemma_first_dash_is(s: Seq<char>, k: int)
    requires
        0 <= k <= s.len(),
        forall|j: int| 0 <= j < k ==> s[j] != DELIMITER,
        k < s.len() ==> s[k] == DELIMITER,
    ensures
        first_dash(s) == k,
{
    lemma_first_dash(s);
    let f = first_dash(s);
    if f < k {
        assert(s[f] != DELIMITER);
    } else if k < f {
        assert(s[k] != DELIMITER);
    }
}

/// No component holds a delimiter.
pub open spec fn dash_free(parts: Seq<Seq<char>>) -> bool {
    forall|k: int, j: int|
        0 <= k < parts.len() && 0 <= j < parts[k].len() ==> #[trigger] parts[k][j] != DELIMITER
}

/// Every text has at least one component, and none of them holds a delimiter.
pub proof fn lemma_components_dash_free(s: Seq<char>)
    ensures
        components(s).len() >= 1,
        dash_free(components(s)),
    decreases s.len(),
{
    lemma_first_dash(s);
    let i = first_dash(s);
    if 0 <= i < s.len() {
        let rest = s.subrange(i + 1, s.len() as int);
        lemma_components_dash_free(rest);
        let parts = components(s);
        assert forall|k: int, j: int| 0 <= k < parts.len() && 0 <= j < parts[k].len() implies
            #[trigger] parts[k][j] != DELIMITER by {
            if k == 0 {
                assert(parts[0][j] == s[j]);
            } else {
                assert(parts[k] == components(rest)[k - 1]);
            }
        }
    }
}

/// Joining the components of a text with delimiters gives the text back.
pub proof fn lemma_joined_components(s: Seq<char>)
    ensures
        joined(components(s)) == s,
    decreases s.len(),
{
    lemma_first_dash(s);
    let i = first_dash(s);
    if 0 <= i < s.len() {
        let head = s.subrange(0, i);
        let rest = s.subrange(i + 1, s.len() as int);
        lemma_joined_components(rest);
        lemma_components_dash_free(rest);
        let parts = components(s);
        assert(parts.drop_first() == components(rest));
        assert(head + seq![DELIMITER] + rest == s);
    }
}

/// Splitting is the only way to cut a text into delimiter-free parts: what was
/// joined from such parts splits into the same parts again.
pub proof fn lemma_components_of_joined(parts: Seq<Seq<char>>)
    requires
        parts.len() >= 1,
        dash_free(parts),
    ensures
        components(joined(parts)) == parts,
    decreases parts.len(),
{
    let s = joined(parts);
    if parts.len() == 1 {
        lemma_first_dash_is(s, s.len() as int);
        assert(seq![s] == parts);
    } else {
        let tail = parts.drop_first();
        assert forall|k: int, j: int| 0 <= k < tail.len() && 0 <= j < tail[k].len() implies
            #[trigger] tail[k][j] != DELIMITER by {
            assert(tail[k][j] == parts[k + 1][j]);
        }
        lemma_components_of_joined(tail);
        let i = parts[0].len() as int;
        assert forall|j: int| 0 <= j < i implies s[j] != DELIMITER by {
            assert(s[j] == parts[0][j]);
        }
        lemma_first_dash_is(s, i);
        assert(s.subrange(0, i) == parts[0]);
        assert(s.subrange(i + 1, s.len() as int) == joined(tail));
        assert(seq![parts[0]] + tail == parts);
    }
}

/// Splits `s` at each delimiter.
pub fn split_components(s: &str) -> (parts: Vec<String>)
    ensures
        parts.deep_view() == components(s@),
        parts.len() >= 1,
{
    proof {
        lemma_components_dash_free(s@);
    }
    let n: usize = s.unicode_len();
    let mut parts: Vec<String> = Vec::new();
    let mut start: usize = 0;
    let mut i: usize = 0;
    proof {
        assert(s@.subrange(0, n as int) == s@);
        assert(parts.deep_view() + components(s@) == components(s@));
    }
    for c in it: s.chars()
        invariant
            n == s@.len(),
            it.seq() == s@,
            i == it.index(),
            start <= i <= n,
            forall|j: int| start <= j < i ==> s@[j] != DELIMITER,
            parts.deep_view() + components(s@.subrange(start as int, n as int)) == components(s@),
    {
        if c == DELIMITER {
            let part = s.substring_char(start, i).to_owned();
            proof {
                let rest = s@.subrange(start as int, n as int);
                lemma_first_dash_is(rest, i - start);
                assert(rest.subrange(0, i - start) == s@.subrange(start as int, i as int));
                assert(rest.subrange(i - start + 1, rest.len() as int) == s@.subrange(
                    i + 1,
                    n as int,
                ));
                assert(parts.deep_view().push(part@) + components(s@.subrange(i + 1, n as int))
                    == parts.deep_view() + components(rest));
            }
            let ghost before = parts.deep_view();
            parts.push(part);
            assert(parts.deep_view() == before.push(part@));
            start = i + 1;
        }
        i = i + 1;
    }
    let part = s.substring_char(start, i).to_owned();
    proof {
        let rest = s@.subrange(start as int, n as int);
        lemma_first_dash_is(rest, rest.len() as int);
        assert(parts.deep_view().push(part@) == parts.deep_view() + components(rest));
    }
    let ghost before = parts.deep_view();
    parts.push(part);
    assert(parts.deep_view() == before.push(part@));
    parts
}

/// The number of components of `s`: one more than it holds delimiters.
pub fn component_count(s: &str) -> (count: usize)
    ensures
        count == components(s@).len(),
        count >= 1,
{
    let parts = split_components(s);
    assert(parts.deep_view().len() == parts.len());
    parts.len()
}

} // verus!
