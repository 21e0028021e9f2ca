//! Splitting a wordlist's text into candidate words, one per line.
use vstd::prelude::*;
use crate::text::{chars_of, string_of};

verus! {

/// The character views of a sequence of strings.
pub open spec fn views(v: Seq<String>) -> Seq<Seq<char>> {
    v.map_values(|l: String| l@)
}

/// A line that ended in `\n`, with a `\r` just before that `\n` dropped.
pub open spec fn trim_cr(line: Seq<char>) -> Seq<char> {
    if line.len() > 0 && line.last() == '\r' {
        line.drop_last()
    } else {
        line
    }
}

/// The lines of `s` from the one that starts at `start`, the scan having
/// reached position `i` of that line without meeting `\n`. A final line
/// ending is optional; a `\r` not followed by `\n` stays in its line.
pub open spec fn lines_scan(s: Seq<char>, start: int, i: int) -> Seq<Seq<char>>
    decreases s.len() - i,
{
    if i >= s.len() {
        if start < s.len() {
            seq![s.subrange(start, s.len() as int)]
        } else {
            seq![]
        }
    } else if s[i] == '\n' {
        seq![trim_cr(s.subrange(start, i))] + lines_scan(s, i + 1, i + 1)
    } else {
        lines_scan(s, start, i + 1)
    }
}

/// The lines of `s`, each without its line terminator.
pub open spec fn lines_of(s: Seq<char>) -> Seq<Seq<char>> {
    lines_scan(s, 0, 0)
}

/// Splits the text of a wordlist into its candidate words: one per line, in
/// the order of the file, each without its trailing `\n` or `\r\n`.
pub fn parse_wordlist(text: &str) -> (words: Vec<String>)
    ensures
        views(words@) == lines_of(text@),
{
    let c = chars_of(text);
    let n = c.len();
    let mut words: Vec<String> = Vec::new();
    let mut start: usize = 0;
    let mut i: usize = 0;
    proof {
        assert(views(words@) + lines_of(c@) =~= lines_of(c@));
    }
    while i < n
        invariant
            start <= i <= n,
            n == c@.len(),
            c@ == text@,
            views(words@) + lines_scan(c@, start as int, i as int) == lines_of(c@),
        decreases n - i,
    {
        if c[i] == '\n' {
            let end: usize = if i > start && c[i - 1] == '\r' {
                i - 1
            } else {
                i
            };
            let line = string_of(&c, start, end);
            proof {
                let l = c@.subrange(start as int, i as int);
                assert(line@ =~= trim_cr(l));
                assert(views(words@.push(line)) =~= views(words@).push(line@));
                assert(views(words@).push(line@) + lines_scan(c@, i + 1, i + 1) =~= views(words@)
                    + (seq![trim_cr(l)] + lines_scan(c@, i + 1, i + 1)));
            }
            words.push(line);
            start = i + 1;
        }
        i = i + 1;
    }
    if start < n {
        let line = string_of(&c, start, n);
        proof {
            assert(views(words@.push(line)) =~= views(words@) + seq![line@]);
        }
        words.push(line);
    } else {
        proof {
            assert(views(words@) + Seq::<Seq<char>>::empty() =~= views(words@));
        }
    }
    words
}

} // verus!
