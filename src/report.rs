//! One line of text per outcome, for the presentation layer.
use vstd::prelude::*;
use crate::outcome::{ErrorKind, OutcomeView, ProbeOutcome};
use crate::text::push_char;

verus! {

/// The decimal digit of `d`, for `d < 10`.
pub open spec fn digit_char(d: nat) -> char {
    if d == 0 {
        '0'
    } else if d == 1 {
        '1'
    } else if d == 2 {
        '2'
    } else if d == 3 {
        '3'
    } else if d == 4 {
        '4'
    } else if d == 5 {
        '5'
    } else if d == 6 {
        '6'
    } else if d == 7 {
        '7'
    } else if d == 8 {
        '8'
    } else {
        '9'
    }
}

/// `n` in decimal, without leading zeros.
pub open spec fn decimal(n: nat) -> Seq<char>
    decreases n,
{
    if n < 10 {
        seq![digit_char(n)]
    } else {
        decimal(n / 10) + seq![digit_char(n % 10)]
    }
}

/// The standard reason phrase of a status code, where it has one.
pub uninterp spec fn reason_phrase_of(status: u16) -> Option<Seq<char>>;

/// Relies on `reqwest::StatusCode::from_u16` and
/// `StatusCode::canonical_reason`: the standard reason phrase of a status
/// code, where the code is valid and has one.
#[verifier::external_body]
fn reason_phrase(status: u16) -> (r: Option<String>)
    ensures
        match r {
            Some(p) => reason_phrase_of(status) == Some(p@),
            None => reason_phrase_of(status) is None,
        },
{
    match reqwest::StatusCode::from_u16(status) {
        Ok(code) => match code.canonical_reason() {
            Some(p) => Some(p.to_string()),
            None => None,
        },
        Err(_) => None,
    }
}

/// A status as it is shown: the code, then its reason phrase.
pub open spec fn status_text(status: u16, reason: Option<Seq<char>>) -> Seq<char> {
    decimal(status as nat) + seq![' '] + match reason {
        Some(p) => p,
        None => "<unknown status code>"@,
    }
}

/// How a transport failure is shown.
pub open spec fn kind_text(kind: ErrorKind) -> Seq<char> {
    match kind {
        ErrorKind::Network => "network error"@,
        ErrorKind::Timeout => "timeout"@,
        ErrorKind::Protocol => "protocol error"@,
    }
}

/// The line of an outcome: `url: status [Length: n]` for a response,
/// `word: failure` for a request that got none.
pub open spec fn line_of(o: OutcomeView, reason: Option<Seq<char>>) -> Seq<char> {
    match o {
        OutcomeView::Success(d) => d.url + ": "@ + status_text(d.status, reason) + " [Length: "@
            + decimal(d.content_length as nat) + "]"@,
        OutcomeView::Failure { word, kind } => word + ": "@ + kind_text(kind),
    }
}

/// The views of an optional string.
pub open spec fn opt_view(s: Option<String>) -> Option<Seq<char>> {
    match s {
        Some(x) => Some(x@),
        None => None,
    }
}

fn digit(d: u64) -> (c: char)
    requires
        d < 10,
    ensures
        c == digit_char(d as nat),
{
    match d {
        0 => '0',
        1 => '1',
        2 => '2',
        3 => '3',
        4 => '4',
        5 => '5',
        6 => '6',
        7 => '7',
        8 => '8',
        _ => '9',
    }
}

/// Appends `n` in decimal to `s`.
pub fn push_decimal(s: &mut String, n: u64)
    ensures
        final(s)@ == old(s)@ + decimal(n as nat),
    decreases n,
{
    if n < 10 {
        push_char(s, digit(n));
        proof {
            assert(old(s)@.push(digit_char(n as nat)) =~= old(s)@ + decimal(n as nat));
        }
    } else {
        push_decimal(s, n / 10);
        push_char(s, digit(n % 10));
        proof {
            assert(old(s)@ + decimal((n / 10) as nat) + seq![digit_char((n % 10) as nat)] =~= old(s)@
                + decimal(n as nat));
        }
    }
}

/// The line of `o`, with `reason` as the reason phrase of its status.
pub fn format_line(o: &ProbeOutcome, reason: Option<String>) -> (r: String)
    ensures
        r@ == line_of(o@, opt_view(reason)),
{
    let mut r = String::new();
    match o {
        ProbeOutcome::Success(d) => {
            r.append(d.url.as_str());
            r.append(": ");
            push_decimal(&mut r, d.status as u64);
            push_char(&mut r, ' ');
            match reason {
                Some(p) => r.append(p.as_str()),
                None => r.append("<unknown status code>"),
            }
            r.append(" [Length: ");
            push_decimal(&mut r, d.content_length);
            r.append("]");
            proof {
                assert(r@ =~= line_of(o@, opt_view(reason)));
            }
        },
        ProbeOutcome::Failure { word, kind } => {
            r.append(word.as_str());
            r.append(": ");
            match kind {
                ErrorKind::Network => r.append("network error"),
                ErrorKind::Timeout => r.append("timeout"),
                ErrorKind::Protocol => r.append("protocol error"),
            }
            proof {
                assert(r@ =~= line_of(o@, opt_view(reason)));
            }
        },
    }
    r
}

impl ProbeOutcome {
    /// The line that shows this outcome: for a response, its final URL, its
    /// status code with the standard reason phrase, and its content length.
    pub fn line(&self) -> (r: String)
        ensures
            r@ == line_of(
                self@,
                match self@ {
                    OutcomeView::Success(d) => reason_phrase_of(d.status),
                    OutcomeView::Failure { .. } => None,
                },
            ),
    {
        let reason = match self {
            ProbeOutcome::Success(d) => reason_phrase(d.status),
            ProbeOutcome::Failure { .. } => None,
        };
        format_line(self, reason)
    }
}

} // verus!
