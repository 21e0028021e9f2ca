//! What the interface collects from the user, the commands its keys give,
//! and the configuration built from it.
use vstd::prelude::*;
use crate::config::{ConfigError, FuzzConfig, Method, DEFAULT_CONCURRENCY};
use crate::outcome::ProbeOutcome;
use crate::text::{chars_of, push_char, string_of};
use crate::wordlist::views;
use vstd::utf8::encode_utf8;

verus! {

/// The number of input fields: target, wordlist, data, headers, match rules
/// and filter rules, in this order.
pub const FIELD_COUNT: usize = 6;

/// What a key press asks for.
#[derive(Clone, Copy, Debug, PartialEq, Eq, Structural)]
pub enum Command {
    /// Leave the interface.
    Quit,
    /// Run a sweep with the current input.
    Run,
    /// Move the focus to the input field of this index.
    Focus(usize),
    /// Hand the key to the focused input field.
    Edit,
}

/// The command of `key` pressed with, or without, the control key.
pub open spec fn command_of(key: char, ctrl: bool) -> Command {
    if !ctrl {
        Command::Edit
    } else if key == 'q' {
        Command::Quit
    } else if key == 'r' {
        Command::Run
    } else if key == 't' {
        Command::Focus(0)
    } else if key == 'w' {
        Command::Focus(1)
    } else if key == 'd' {
        Command::Focus(2)
    } else if key == 'h' {
        Command::Focus(3)
    } else if key == 'm' {
        Command::Focus(4)
    } else if key == 'f' {
        Command::Focus(5)
    } else {
        Command::Edit
    }
}

/// The command that a key press gives: with the control key, `q` quits,
/// `r` runs, and `t`, `w`, `d`, `h`, `m`, `f` focus the target, wordlist,
/// data, headers, match rules and filter rules; anything else is editing.
pub fn command_for(key: char, ctrl: bool) -> (c: Command)
    ensures
        c == command_of(key, ctrl),
{
    if !ctrl {
        Command::Edit
    } else {
        match key {
            'q' => Command::Quit,
            'r' => Command::Run,
            't' => Command::Focus(0),
            'w' => Command::Focus(1),
            'd' => Command::Focus(2),
            'h' => Command::Focus(3),
            'm' => Command::Focus(4),
            'f' => Command::Focus(5),
            _ => Command::Edit,
        }
    }
}

/// The index of the first `:` in `s` at or after `i`, or the length of `s`.
pub open spec fn find_colon(s: Seq<char>, i: int) -> int
    decreases s.len() - i,
{
    if i >= s.len() {
        s.len() as int
    } else if s[i] == ':' {
        i
    } else {
        find_colon(s, i + 1)
    }
}

/// `s` without its leading spaces and tabs.
pub open spec fn skip_blanks(s: Seq<char>) -> Seq<char>
    decreases s.len(),
{
    if s.len() > 0 && (s[0] == ' ' || s[0] == '\t') {
        skip_blanks(s.subrange(1, s.len() as int))
    } else {
        s
    }
}

/// The header that a line `name: value` states: the name is what stands
/// before the first `:` and may not be empty, the value what follows it,
/// without leading blanks.
pub open spec fn header_of(line: Seq<char>) -> Option<(Seq<char>, Seq<char>)> {
    let c = find_colon(line, 0);
    if c == 0 || c >= line.len() {
        None
    } else {
        Some((line.subrange(0, c), skip_blanks(line.subrange(c + 1, line.len() as int))))
    }
}

/// The headers of the first `k` lines, empty lines skipped, or the index of
/// the first line that states no header.
pub open spec fn headers_of(lines: Seq<Seq<char>>, k: int) -> Result<
    Seq<(Seq<char>, Seq<char>)>,
    int,
>
    decreases k,
{
    if k <= 0 {
        Ok(Seq::empty())
    } else {
        match headers_of(lines, k - 1) {
            Err(i) => Err(i),
            Ok(hs) => if lines[k - 1].len() == 0 {
                Ok(hs)
            } else {
                match header_of(lines[k - 1]) {
                    None => Err(k - 1),
                    Some(h) => Ok(hs.push(h)),
                }
            },
        }
    }
}

/// The lines joined by `\n`.
pub open spec fn join_lines(lines: Seq<Seq<char>>) -> Seq<char>
    decreases lines.len(),
{
    if lines.len() == 0 {
        Seq::empty()
    } else if lines.len() == 1 {
        lines[0]
    } else {
        join_lines(lines.drop_last()) + seq!['\n'] + lines.last()
    }
}

/// The views of (name, value) pairs.
pub open spec fn pair_views(v: Seq<(String, String)>) -> Seq<(Seq<char>, Seq<char>)> {
    v.map_values(|p: (String, String)| (p.0@, p.1@))
}

/// Reads a header line `name: value`.
fn parse_header(line: &String) -> (r: Option<(String, String)>)
    ensures
        match header_of(line@) {
            None => r is None,
            Some(h) => r matches Some(p) && p.0@ == h.0 && p.1@ == h.1,
        },
{
    let c = chars_of(line.as_str());
    let n = c.len();
    let mut i: usize = 0;
    while i < n && c[i] != ':'
        invariant
            i <= n,
            n == c@.len(),
            c@ == line@,
            find_colon(c@, 0) == find_colon(c@, i as int),
        decreases n - i,
    {
        i = i + 1;
    }
    if i == 0 || i >= n {
        return None;
    }
    let name = string_of(&c, 0, i);
    let mut j: usize = i + 1;
    while j < n && (c[j] == ' ' || c[j] == '\t')
        invariant
            i < j <= n,
            n == c@.len(),
            skip_blanks(c@.subrange(i + 1, n as int)) == skip_blanks(c@.subrange(j as int, n as int)),
        decreases n - j,
    {
        proof {
            assert(c@.subrange(j as int, n as int).subrange(1, n - j) =~= c@.subrange(j + 1, n as int));
        }
        j = j + 1;
    }
    let value = string_of(&c, j, n);
    Some((name, value))
}

/// What the user has typed, and the outcomes of the last sweep. The match
/// and filter rules are kept as typed; no rule language reads them yet.
#[derive(Clone, Debug)]
pub struct AppState {
    pub target: String,
    pub wordlist: String,
    pub data: Vec<String>,
    pub headers: Vec<String>,
    pub matchrules: Vec<String>,
    pub filterrules: Vec<String>,
    pub query_results: Vec<ProbeOutcome>,
}

impl Default for AppState {
    /// Every field empty, no outcome yet.
    fn default() -> (s: AppState)
        ensures
            s.target@.len() == 0,
            s.wordlist@.len() == 0,
            s.data@.len() == 0,
            s.headers@.len() == 0,
            s.matchrules@.len() == 0,
            s.filterrules@.len() == 0,
            s.query_results@.len() == 0,
    {
        AppState {
            target: String::new(),
            wordlist: String::new(),
            data: Vec::new(),
            headers: Vec::new(),
            matchrules: Vec::new(),
            filterrules: Vec::new(),
            query_results: Vec::new(),
        }
    }
}

impl AppState {
    /// Stores the lines of the input field `field`: the target and the
    /// wordlist path take the first line, the other fields all of them.
    pub fn set_field(&mut self, field: usize, lines: Vec<String>)
        requires
            field < FIELD_COUNT,
            field <= 1 ==> lines@.len() >= 1,
        ensures
            field == 0 ==> final(self).target@ == lines@[0]@,
            field != 0 ==> final(self).target == old(self).target,
            field == 1 ==> final(self).wordlist@ == lines@[0]@,
            field != 1 ==> final(self).wordlist == old(self).wordlist,
            field == 2 ==> final(self).data == lines,
            field != 2 ==> final(self).data == old(self).data,
            field == 3 ==> final(self).headers == lines,
            field != 3 ==> final(self).headers == old(self).headers,
            field == 4 ==> final(self).matchrules == lines,
            field != 4 ==> final(self).matchrules == old(self).matchrules,
            field == 5 ==> final(self).filterrules == lines,
            field != 5 ==> final(self).filterrules == old(self).filterrules,
            final(self).query_results == old(self).query_results,
    {
        if field == 0 {
            self.target = lines[0].clone();
        } else if field == 1 {
            self.wordlist = lines[0].clone();
        } else if field == 2 {
            self.data = lines;
        } else if field == 3 {
            self.headers = lines;
        } else if field == 4 {
            self.matchrules = lines;
        } else {
            self.filterrules = lines;
        }
    }
    /// The configuration of a sweep with this input: the target template and
    /// wordlist path as typed, the headers stated by the non-empty header
    /// lines, the data lines joined by `\n` as the body (none where that
    /// text is empty), a GET request, the default concurrency limit and no
    /// batches. Fails on the first header line that states no header.
    pub fn to_config(&self) -> (r: Result<FuzzConfig, ConfigError>)
        ensures
            match headers_of(views(self.headers@), self.headers@.len() as int) {
                Err(i) => r == Err::<FuzzConfig, ConfigError>(ConfigError::MalformedHeader(i as usize)),
                Ok(hs) => r matches Ok(c) && {
                    &&& c.target_template@ == self.target@
                    &&& c.wordlist_path@ == self.wordlist@
                    &&& c.method == Method::Get
                    &&& pair_views(c.headers@) == hs
                    &&& (if join_lines(views(self.data@)).len() == 0 {
                        c.body is None
                    } else {
                        c.body matches Some(b) && b@ == encode_utf8(join_lines(views(self.data@)))
                    })
                    &&& c.concurrency_limit == DEFAULT_CONCURRENCY
                    &&& c.batch_size is None
                },
            },
    {
        let mut headers: Vec<(String, String)> = Vec::new();
        let mut k: usize = 0;
        proof {
            assert(pair_views(headers@) =~= Seq::<(Seq<char>, Seq<char>)>::empty());
        }
        while k < self.headers.len()
            invariant
                k <= self.headers@.len(),
                headers_of(views(self.headers@), k as int) == Ok::<
                    Seq<(Seq<char>, Seq<char>)>,
                    int,
                >(pair_views(headers@)),
            decreases self.headers@.len() - k,
        {
            let line = &self.headers[k];
            if !line.as_str().is_empty() {
                match parse_header(line) {
                    None => {
                        proof {
                            assert(headers_of(views(self.headers@), k + 1) == Err::<
                                Seq<(Seq<char>, Seq<char>)>,
                                int,
                            >(k as int));
                            lemma_headers_error_stays(views(self.headers@), k + 1, self.headers@.len() as int);
                        }
                        return Err(ConfigError::MalformedHeader(k));
                    },
                    Some(p) => {
                        proof {
                            assert(pair_views(headers@.push(p)) =~= pair_views(headers@).push((p.0@, p.1@)));
                        }
                        headers.push(p);
                    },
                }
            }
            k = k + 1;
        }
        let mut text = String::new();
        let mut i: usize = 0;
        while i < self.data.len()
            invariant
                i <= self.data@.len(),
                text@ == join_lines(views(self.data@).take(i as int)),
            decreases self.data@.len() - i,
        {
            let ghost before = views(self.data@).take(i as int);
            proof {
                assert(views(self.data@).take(i + 1).drop_last() =~= before);
            }
            if i > 0 {
                push_char(&mut text, '\n');
            }
            text.append(self.data[i].as_str());
            i = i + 1;
        }
        proof {
            assert(views(self.data@).take(i as int) =~= views(self.data@));
        }
        let body = if text.as_str().is_empty() {
            None
        } else {
            Some(text.as_str().as_bytes_vec())
        };
        Ok(
            FuzzConfig {
                target_template: self.target.clone(),
                wordlist_path: self.wordlist.clone(),
                method: Method::Get,
                headers,
                body,
                concurrency_limit: DEFAULT_CONCURRENCY,
                batch_size: None,
            },
        )
    }
}

/// Once a line states no header, the headers of any longer prefix fail on
/// that line too.
proof fn lemma_headers_error_stays(lines: Seq<Seq<char>>, k: int, m: int)
    requires
        0 <= k <= m,
        headers_of(lines, k) is Err,
    ensures
        headers_of(lines, m) == headers_of(lines, k),
    decreases m - k,
{
    if m > k {
        lemma_headers_error_stays(lines, k, m - 1);
    }
}

} // verus!
