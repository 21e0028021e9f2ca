//! Outcomes of single requests, and the store that gathers them.
use vstd::prelude::*;

verus! {

/// The HTTP version a response came with.
#[derive(Clone, Copy, Debug, PartialEq, Eq, Structural)]
pub enum HttpVersion {
    Http09,
    Http10,
    Http11,
    Http2,
    Http3,
}

/// Why a request got no response.
#[derive(Clone, Copy, Debug, PartialEq, Eq, Structural)]
pub enum ErrorKind {
    Network,
    Timeout,
    Protocol,
}

/// One response header; a name that occurs twice gives two headers.
#[derive(Clone, Debug, PartialEq, Eq)]
pub struct Header {
    pub name: String,
    pub value: Vec<u8>,
}

impl View for Header {
    type V = (Seq<char>, Seq<u8>);

    open spec fn view(&self) -> (Seq<char>, Seq<u8>) {
        (self.name@, self.value@)
    }
}

/// The views of a sequence of headers.
pub open spec fn header_views(h: Seq<Header>) -> Seq<(Seq<char>, Seq<u8>)> {
    h.map_values(|x: Header| x@)
}

/// A response as the transport handed it over. `content_length` is absent
/// where the response did not state it; `text` is absent where the body
/// could not be decoded.
#[derive(Clone, Debug)]
pub struct Response {
    pub status: u16,
    pub version: HttpVersion,
    pub headers: Vec<Header>,
    pub content_length: Option<u64>,
    pub url: String,
    pub text: Option<String>,
}

/// What one request gave: a response of any status, or a transport failure.
#[derive(Clone, Debug)]
pub enum Reply {
    Received(Response),
    Failed(ErrorKind),
}

/// A successful outcome: a response was received, whatever its status.
#[derive(Clone, Debug, PartialEq, Eq)]
pub struct Data {
    pub status: u16,
    pub version: HttpVersion,
    pub headers: Vec<Header>,
    pub content_length: u64,
    pub url: String,
    pub text: String,
    pub word: String,
}

/// The outcome of one request, tied to the word that produced it.
#[derive(Clone, Debug, PartialEq, Eq)]
pub enum ProbeOutcome {
    Success(Data),
    Failure { word: String, kind: ErrorKind },
}

/// The mathematical value of a successful outcome.
pub struct DataView {
    pub status: u16,
    pub version: HttpVersion,
    pub headers: Seq<(Seq<char>, Seq<u8>)>,
    pub content_length: u64,
    pub url: Seq<char>,
    pub text: Seq<char>,
    pub word: Seq<char>,
}

/// The mathematical value of an outcome.
pub enum OutcomeView {
    Success(DataView),
    Failure { word: Seq<char>, kind: ErrorKind },
}

impl OutcomeView {
    /// The word that produced the outcome.
    pub open spec fn word(self) -> Seq<char> {
        match self {
            OutcomeView::Success(d) => d.word,
            OutcomeView::Failure { word, .. } => word,
        }
    }
}

impl View for Data {
    type V = DataView;

    open spec fn view(&self) -> DataView {
        DataView {
            status: self.status,
            version: self.version,
            headers: header_views(self.headers@),
            content_length: self.content_length,
            url: self.url@,
            text: self.text@,
            word: self.word@,
        }
    }
}

impl View for ProbeOutcome {
    type V = OutcomeView;

    open spec fn view(&self) -> OutcomeView {
        match self {
            ProbeOutcome::Success(d) => OutcomeView::Success(d@),
            ProbeOutcome::Failure { word, kind } => OutcomeView::Failure { word: word@, kind: *kind },
        }
    }
}

/// The outcome that `reply` makes for `word`: a missing content length
/// counts as 0, a body that could not be decoded as empty text.
pub open spec fn outcome_of(word: Seq<char>, reply: Reply) -> OutcomeView {
    match reply {
        Reply::Received(r) => OutcomeView::Success(
            DataView {
                status: r.status,
                version: r.version,
                headers: header_views(r.headers@),
                content_length: match r.content_length {
                    Some(n) => n,
                    None => 0,
                },
                url: r.url@,
                text: match r.text {
                    Some(t) => t@,
                    None => Seq::empty(),
                },
                word,
            },
        ),
        Reply::Failed(kind) => OutcomeView::Failure { word, kind },
    }
}

impl ProbeOutcome {
    /// Turns what one request for `word` gave into its outcome. Every
    /// received response is a success, whatever its status.
    pub fn from_reply(word: String, reply: Reply) -> (o: ProbeOutcome)
        ensures
            o@ == outcome_of(word@, reply),
    {
        match reply {
            Reply::Received(r) => {
                let content_length: u64 = match r.content_length {
                    Some(n) => n,
                    None => 0,
                };
                let text = match r.text {
                    Some(t) => t,
                    None => String::new(),
                };
                ProbeOutcome::Success(
                    Data {
                        status: r.status,
                        version: r.version,
                        headers: r.headers,
                        content_length,
                        url: r.url,
                        text,
                        word,
                    },
                )
            },
            Reply::Failed(kind) => ProbeOutcome::Failure { word, kind },
        }
    }

    /// The word that produced this outcome.
    pub fn word(&self) -> (w: &String)
        ensures
            w@ == self@.word(),
    {
        match self {
            ProbeOutcome::Success(d) => &d.word,
            ProbeOutcome::Failure { word, .. } => word,
        }
    }

    /// Whether a response was received.
    pub fn is_success(&self) -> (b: bool)
        ensures
            b == self@ is Success,
    {
        match self {
            ProbeOutcome::Success(_) => true,
            ProbeOutcome::Failure { .. } => false,
        }
    }
}

/// The views of a sequence of outcomes.
pub open spec fn outcome_views(v: Seq<ProbeOutcome>) -> Seq<OutcomeView> {
    v.map_values(|o: ProbeOutcome| o@)
}

/// The number of failures among `s`.
pub open spec fn failures_in(s: Seq<OutcomeView>) -> nat
    decreases s.len(),
{
    if s.len() == 0 {
        0
    } else {
        failures_in(s.drop_last()) + if s.last() is Failure {
            1nat
        } else {
            0nat
        }
    }
}

/// The outcomes of one sweep, in the order in which they were recorded. It
/// only grows; each sweep starts with a store of its own.
pub struct ResultStore {
    items: Vec<ProbeOutcome>,
}

impl View for ResultStore {
    type V = Seq<OutcomeView>;

    closed spec fn view(&self) -> Seq<OutcomeView> {
        outcome_views(self.items@)
    }
}

impl ResultStore {
    /// An empty store.
    pub fn new() -> (r: ResultStore)
        ensures
            r@ == Seq::<OutcomeView>::empty(),
    {
        let r = ResultStore { items: Vec::new() };
        proof {
            assert(r@ =~= Seq::<OutcomeView>::empty());
        }
        r
    }

    /// Records one outcome after the others.
    pub fn append(&mut self, o: ProbeOutcome)
        ensures
            final(self)@ == old(self)@.push(o@),
    {
        self.items.push(o);
        proof {
            assert(outcome_views(self.items@) =~= outcome_views(old(self).items@).push(o@));
        }
    }

    /// The outcomes recorded so far, in the order in which they came.
    pub fn snapshot(&self) -> (r: &Vec<ProbeOutcome>)
        ensures
            outcome_views(r@) == self@,
    {
        &self.items
    }

    /// The number of outcomes recorded so far.
    pub fn len(&self) -> (n: usize)
        ensures
            n == self@.len(),
    {
        self.items.len()
    }

    /// The number of recorded failures.
    pub fn failures(&self) -> (n: usize)
        ensures
            n == failures_in(self@),
    {
        let mut n: usize = 0;
        let mut i: usize = 0;
        while i < self.items.len()
            invariant
                i <= self.items@.len(),
                n <= i,
                n == failures_in(outcome_views(self.items@).take(i as int)),
            decreases self.items@.len() - i,
        {
            let ghost s = outcome_views(self.items@);
            proof {
                assert(s.take(i + 1).drop_last() =~= s.take(i as int));
            }
            if !self.items[i].is_success() {
                n = n + 1;
            }
            i = i + 1;
        }
        proof {
            assert(outcome_views(self.items@).take(i as int) =~= outcome_views(self.items@));
        }
        n
    }
}

} // verus!
