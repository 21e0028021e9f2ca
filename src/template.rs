//! Placeholder substitution: every occurrence of the placeholder token in a
//! target template is replaced by a candidate word, verbatim.
use vstd::prelude::*;
use crate::text::{chars_of, push_char};

verus! {

/// The placeholder token, `FUZZ`.
pub open spec fn placeholder() -> Seq<char> {
    seq!['F', 'U', 'Z', 'Z']
}

/// The placeholder starts at position `i` of `s`.
pub open spec fn starts_at(s: Seq<char>, i: int) -> bool {
    0 <= i && i + 4 <= s.len() && s.subrange(i, i + 4) == placeholder()
}

/// `s` holds the placeholder somewhere.
pub open spec fn occurs_in(s: Seq<char>) -> bool {
    exists|i: int| #[trigger] starts_at(s, i)
}

/// `s` holds the placeholder exactly once, at position `k`.
pub open spec fn occurs_once_at(s: Seq<char>, k: int) -> bool {
    starts_at(s, k) && forall|j: int| #[trigger] starts_at(s, j) ==> j == k
}

/// Replaces, from left to right, every non-overlapping occurrence of the
/// placeholder in `s` by `w`.
pub open spec fn replace_all(s: Seq<char>, w: Seq<char>) -> Seq<char>
    decreases s.len(),
{
    if s.len() < 4 {
        s
    } else if s.subrange(0, 4) == placeholder() {
        w + replace_all(s.subrange(4, s.len() as int), w)
    } else {
        seq![s[0]] + replace_all(s.subrange(1, s.len() as int), w)
    }
}

/// Puts `word` in place of every placeholder of `template`. No escaping is
/// done: the word goes in as it is.
pub fn substitute(template: &str, word: &str) -> (r: String)
    ensures
        r@ == replace_all(template@, word@),
{
    let t = chars_of(template);
    let n = t.len();
    let mut r = String::new();
    let mut i: usize = 0;
    proof {
        assert(t@.subrange(0, n as int) =~= t@);
        assert(r@ + replace_all(t@, word@) =~= replace_all(t@, word@));
    }
    while i < n
        invariant
            i <= n,
            n == t@.len(),
            t@ == template@,
            r@ + replace_all(t@.subrange(i as int, n as int), word@) == replace_all(t@, word@),
        decreases n - i,
    {
        let ghost s = t@.subrange(i as int, n as int);
        if n - i >= 4 && t[i] == 'F' && t[i + 1] == 'U' && t[i + 2] == 'Z' && t[i + 3] == 'Z' {
            proof {
                assert(s.subrange(0, 4) =~= placeholder());
                assert(s.subrange(4, s.len() as int) =~= t@.subrange(i + 4, n as int));
                assert(r@ + word@ + replace_all(t@.subrange(i + 4, n as int), word@) =~= r@ + (
                word@ + replace_all(t@.subrange(i + 4, n as int), word@)));
            }
            r.append(word);
            i = i + 4;
        } else {
            proof {
                let rest = t@.subrange(i + 1, n as int);
                assert(s.subrange(1, s.len() as int) =~= rest);
                if s.len() >= 4 {
                    assert(s.subrange(0, 4) != placeholder()) by {
                        if s.subrange(0, 4) == placeholder() {
                            assert(s.subrange(0, 4)[0] == 'F');
                            assert(s.subrange(0, 4)[1] == 'U');
                            assert(s.subrange(0, 4)[2] == 'Z');
                            assert(s.subrange(0, 4)[3] == 'Z');
                        }
                    }
                } else {
                    assert(s =~= seq![t@[i as int]] + rest);
                }
                assert(r@.push(t@[i as int]) + replace_all(rest, word@) =~= r@ + (seq![t@[i as int]]
                    + replace_all(rest, word@)));
            }
            push_char(&mut r, t[i]);
            i = i + 1;
        }
    }
    proof {
        assert(t@.subrange(n as int, n as int) =~= Seq::<char>::empty());
        assert(r@ + Seq::<char>::empty() =~= r@);
    }
    r
}

/// A sequence without the placeholder is left as it is.
proof fn lemma_replace_absent(s: Seq<char>, w: Seq<char>)
    requires
        !occurs_in(s),
    ensures
        replace_all(s, w) == s,
    decreases s.len(),
{
    if s.len() >= 4 {
        assert(!starts_at(s, 0));
        let rest = s.subrange(1, s.len() as int);
        assert forall|j: int| !starts_at(rest, j) by {
            if starts_at(rest, j) {
                assert(rest.subrange(j, j + 4) =~= s.subrange(j + 1, j + 5));
                assert(starts_at(s, j + 1));
            }
        }
        lemma_replace_absent(rest, w);
        assert(s =~= seq![s[0]] + rest);
    }
}

/// Where no placeholder starts before `m`, the first `m` characters pass
/// through unchanged.
proof fn lemma_replace_prefix(s: Seq<char>, w: Seq<char>, m: int)
    requires
        0 <= m <= s.len(),
        forall|j: int| 0 <= j < m ==> !starts_at(s, j),
    ensures
        replace_all(s, w) == s.subrange(0, m) + replace_all(s.subrange(m, s.len() as int), w),
    decreases m,
{
    if m == 0 {
        assert(s.subrange(0, 0) + s.subrange(0, s.len() as int) =~= s);
    } else {
        let rest = s.subrange(1, s.len() as int);
        assert forall|j: int| 0 <= j < m - 1 implies !starts_at(rest, j) by {
            if starts_at(rest, j) {
                assert(rest.subrange(j, j + 4) =~= s.subrange(j + 1, j + 5));
                assert(starts_at(s, j + 1));
            }
        }
        lemma_replace_prefix(rest, w, m - 1);
        assert(rest.subrange(m - 1, rest.len() as int) =~= s.subrange(m, s.len() as int));
        if s.len() >= 4 {
            assert(!starts_at(s, 0));
        }
        assert(seq![s[0]] + rest.subrange(0, m - 1) =~= s.subrange(0, m));
        assert(seq![s[0]] + (rest.subrange(0, m - 1) + replace_all(
            s.subrange(m, s.len() as int),
            w,
        )) =~= s.subrange(0, m) + replace_all(s.subrange(m, s.len() as int), w));
    }
}

/// In a template that holds the placeholder exactly once, substitution puts
/// the word in its place and keeps the text on either side, neither of which
/// holds the placeholder any more.
pub proof fn lemma_substitute_single(t: Seq<char>, w: Seq<char>, k: int)
    requires
        occurs_once_at(t, k),
    ensures
        replace_all(t, w) == t.subrange(0, k) + w + t.subrange(k + 4, t.len() as int),
        !occurs_in(t.subrange(0, k)),
        !occurs_in(t.subrange(k + 4, t.len() as int)),
{
    let pre = t.subrange(0, k);
    let suf = t.subrange(k + 4, t.len() as int);
    assert forall|j: int| !starts_at(pre, j) by {
        if starts_at(pre, j) {
            assert(pre.subrange(j, j + 4) =~= t.subrange(j, j + 4));
            assert(starts_at(t, j));
        }
    }
    assert forall|j: int| !starts_at(suf, j) by {
        if starts_at(suf, j) {
            assert(suf.subrange(j, j + 4) =~= t.subrange(j + k + 4, j + k + 8));
            assert(starts_at(t, j + k + 4));
        }
    }
    assert forall|j: int| 0 <= j < k implies !starts_at(t, j) by {}
    lemma_replace_prefix(t, w, k);
    let s = t.subrange(k, t.len() as int);
    assert(s.subrange(0, 4) =~= t.subrange(k, k + 4));
    assert(s.subrange(4, s.len() as int) =~= suf);
    lemma_replace_absent(suf, w);
    assert(pre + (w + suf) =~= pre + w + suf);
}

/// Substitution into a template that holds the placeholder exactly once
/// leaves no placeholder in the result, unless the word, alone or with the
/// text on either side, spells a new one.
pub proof fn lemma_substitute_leaves_no_placeholder(t: Seq<char>, w: Seq<char>, k: int)
    requires
        occurs_once_at(t, k),
        !occurs_in(t.subrange(0, k) + w + t.subrange(k + 4, t.len() as int)),
    ensures
        !occurs_in(replace_all(t, w)),
{
    lemma_substitute_single(t, w, k);
}

} // verus!
