//! The scheduler of one sweep, as a state machine. The caller performs the
//! requests: it asks `poll` what to do next, and hands each reply back
//! through `handle`. The machine decides what is dispatched and when,
//! keeps the number of requests in flight under the limit, and records every
//! outcome in its result store.
use vstd::prelude::*;
use crate::config::{config_error, ConfigError, FuzzConfig};
use crate::outcome::{
    failures_in, outcome_of, ErrorKind, OutcomeView, ProbeOutcome, Reply, ResultStore,
};
use crate::template::{replace_all, substitute};
use crate::wordlist::views;

verus! {

/// Where a sweep stands.
#[derive(Clone, Copy, Debug, PartialEq, Eq, Structural)]
pub enum Phase {
    /// The baseline request is to be sent or awaited.
    Probing,
    /// Words are being dispatched.
    Running,
    /// Every dispatched request has completed; nothing more will be sent.
    Finished,
    /// The baseline request failed; no word was dispatched.
    Aborted(ErrorKind),
}

/// What the caller reports to the sweep.
#[derive(Clone, Debug)]
pub enum Event {
    /// The baseline request gave this reply.
    Baseline(Reply),
    /// The request for the word at `index` gave this reply.
    Completed { index: usize, reply: Reply },
    /// The user asked to stop.
    Cancel,
}

/// The account of a finished sweep.
#[derive(Clone, Copy, Debug, PartialEq, Eq, Structural)]
pub struct Summary {
    pub dispatched: usize,
    pub results: usize,
    pub failures: usize,
    pub cancelled: bool,
}

/// What the caller is to do next.
#[derive(Clone, Debug)]
pub enum Action {
    /// Send the baseline request to `url`, then report its reply.
    Baseline { url: String },
    /// Send the request for the word at `index` to `url`, then report its
    /// reply; other actions may be taken meanwhile.
    Dispatch { index: usize, url: String },
    /// Nothing can be done until a request in flight completes.
    Wait,
    /// The sweep is over.
    Finished(Summary),
    /// The target could not be reached; the sweep never started.
    Aborted(ErrorKind),
}

/// The number of words before `k` whose request has not completed.
pub open spec fn open_count(done: Seq<bool>, k: int) -> nat
    decreases k,
{
    if k <= 0 {
        0
    } else {
        open_count(done, k - 1) + if done[k - 1] {
            0nat
        } else {
            1nat
        }
    }
}

/// Marking a word at or after `k` leaves the count before `k` as it was.
proof fn lemma_open_count_frame(done: Seq<bool>, k: int, i: int, v: bool)
    requires
        0 <= k <= i < done.len(),
    ensures
        open_count(done.update(i, v), k) == open_count(done, k),
    decreases k,
{
    if k > 0 {
        lemma_open_count_frame(done, k - 1, i, v);
    }
}

/// Completing an open word before `k` lowers the count before `k` by one.
proof fn lemma_open_count_flip(done: Seq<bool>, k: int, i: int)
    requires
        0 <= i < k <= done.len(),
        !done[i],
    ensures
        open_count(done.update(i, true), k) + 1 == open_count(done, k),
    decreases k,
{
    if i == k - 1 {
        lemma_open_count_frame(done, k - 1, i, true);
    } else {
        lemma_open_count_flip(done, k - 1, i);
    }
}

/// With no open word before `k`, every word before `k` has completed.
proof fn lemma_open_count_zero(done: Seq<bool>, k: int)
    requires
        0 <= k <= done.len(),
        open_count(done, k) == 0,
    ensures
        forall|i: int| 0 <= i < k ==> done[i],
    decreases k,
{
    if k > 0 {
        lemma_open_count_zero(done, k - 1);
    }
}

/// The end of the batch that begins at `next`, of `n` words.
pub open spec fn next_batch_end(next: nat, n: nat, batch: Option<usize>) -> nat {
    match batch {
        None => n,
        Some(b) => if n - next <= b as int {
            n
        } else {
            (next + b) as nat
        },
    }
}

/// The mathematical state of a sweep.
pub struct SweepView {
    pub phase: Phase,
    pub template: Seq<char>,
    pub words: Seq<Seq<char>>,
    pub token: Seq<char>,
    pub limit: nat,
    pub batch: Option<usize>,
    /// The words before this index belong to the current batch or an earlier one.
    pub batch_end: nat,
    /// The words before this index have been dispatched, in order.
    pub dispatched: nat,
    pub in_flight: nat,
    pub cancelled: bool,
    pub baseline_sent: bool,
    /// Which words' requests have completed.
    pub done: Seq<bool>,
    /// The recorded outcomes, in the order of completion.
    pub results: Seq<OutcomeView>,
    /// The index of the word behind each recorded outcome.
    pub units: Seq<int>,
}

impl SweepView {
    /// The state's invariant.
    pub open spec fn wf(self) -> bool {
        &&& self.done.len() == self.words.len()
        &&& self.limit >= 1
        &&& (self.batch matches Some(b) ==> b >= 1)
        &&& self.dispatched <= self.batch_end <= self.words.len()
        &&& self.in_flight <= self.limit
        &&& self.in_flight == open_count(self.done, self.dispatched as int)
        &&& self.units.len() + self.in_flight == self.dispatched
        &&& forall|i: int| self.dispatched <= i < self.words.len() ==> !self.done[i]
        &&& self.results.len() == self.units.len()
        &&& self.units.no_duplicates()
        &&& forall|k: int|
            0 <= k < self.units.len() ==> {
                &&& 0 <= #[trigger] self.units[k] < self.dispatched
                &&& self.done[self.units[k]]
                &&& self.results[k].word() == self.words[self.units[k]]
            }
        &&& forall|i: int|
            0 <= i < self.dispatched && #[trigger] self.done[i] ==> self.units.contains(i)
        &&& (self.phase is Probing ==> self.dispatched == 0 && self.batch_end == 0)
        &&& (self.phase is Aborted ==> self.dispatched == 0 && self.baseline_sent)
        &&& (self.phase is Running ==> self.baseline_sent)
        &&& (!self.baseline_sent ==> self.phase is Probing || (self.phase is Finished
            && self.cancelled))
        &&& (self.phase is Finished ==> self.in_flight == 0 && (self.cancelled || self.dispatched
            == self.words.len()))
    }

    /// The number of requests sent so far, the baseline request included.
    pub open spec fn requests(self) -> nat {
        self.dispatched + if self.baseline_sent {
            1nat
        } else {
            0nat
        }
    }

    /// Another word can be dispatched now.
    pub open spec fn can_dispatch(self) -> bool {
        &&& self.phase is Running
        &&& !self.cancelled
        &&& self.dispatched < self.words.len()
        &&& self.in_flight < self.limit
        &&& (self.dispatched < self.batch_end || self.in_flight == 0)
    }

    /// The summary of this state.
    pub open spec fn summary(self) -> Summary {
        Summary {
            dispatched: self.dispatched as usize,
            results: self.results.len() as usize,
            failures: failures_in(self.results) as usize,
            cancelled: self.cancelled,
        }
    }
}

/// One sweep of a wordlist against a target template.
pub struct Sweep {
    template: String,
    words: Vec<String>,
    token: String,
    limit: usize,
    batch: Option<usize>,
    phase: Phase,
    batch_end: usize,
    next: usize,
    in_flight: usize,
    cancelled: bool,
    baseline_sent: bool,
    done: Vec<bool>,
    store: ResultStore,
    units: Ghost<Seq<int>>,
}

impl View for Sweep {
    type V = SweepView;

    closed spec fn view(&self) -> SweepView {
        SweepView {
            phase: self.phase,
            template: self.template@,
            words: views(self.words@),
            token: self.token@,
            limit: self.limit as nat,
            batch: self.batch,
            batch_end: self.batch_end as nat,
            dispatched: self.next as nat,
            in_flight: self.in_flight as nat,
            cancelled: self.cancelled,
            baseline_sent: self.baseline_sent,
            done: self.done@,
            results: self.store@,
            units: self.units@,
        }
    }
}

impl Sweep {
    /// The invariant of a sweep.
    pub open spec fn wf(&self) -> bool {
        self@.wf()
    }

    /// A sweep of `words` under `config`, whose baseline request puts `token`
    /// in place of the placeholder. Fails, before any request, on a
    /// configuration error.
    pub fn new(config: &FuzzConfig, words: Vec<String>, token: String) -> (r: Result<
        Sweep,
        ConfigError,
    >)
        ensures
            match config_error(
                config.target_template@,
                config.concurrency_limit,
                config.batch_size,
            ) {
                Some(e) => r == Err::<Sweep, ConfigError>(e),
                None => r matches Ok(s) && {
                    &&& s.wf()
                    &&& s@.phase is Probing
                    &&& s@.template == config.target_template@
                    &&& s@.words == views(words@)
                    &&& s@.token == token@
                    &&& s@.limit == config.concurrency_limit
                    &&& s@.batch == config.batch_size
                    &&& s@.dispatched == 0
                    &&& s@.results.len() == 0
                    &&& !s@.cancelled
                    &&& !s@.baseline_sent
                },
            },
    {
        match config.validate() {
            Err(e) => Err(e),
            Ok(()) => {
                let n = words.len();
                let mut done: Vec<bool> = Vec::new();
                let mut i: usize = 0;
                while i < n
                    invariant
                        i <= n,
                        done@.len() == i,
                        forall|j: int| 0 <= j < i ==> !done@[j],
                    decreases n - i,
                {
                    done.push(false);
                    i = i + 1;
                }
                let s = Sweep {
                    template: config.target_template.clone(),
                    words,
                    token,
                    limit: config.concurrency_limit,
                    batch: config.batch_size,
                    phase: Phase::Probing,
                    batch_end: 0,
                    next: 0,
                    in_flight: 0,
                    cancelled: false,
                    baseline_sent: false,
                    done,
                    store: ResultStore::new(),
                    units: Ghost(Seq::empty()),
                };
                proof {
                    assert(views(s.words@).len() == s.words@.len());
                }
                Ok(s)
            },
        }
    }
    /// The summary of the current state.
    fn summary(&self) -> (r: Summary)
        ensures
            r == self@.summary(),
    {
        Summary {
            dispatched: self.next,
            results: self.store.len(),
            failures: self.store.failures(),
            cancelled: self.cancelled,
        }
    }

    /// Decides what the caller is to do next. The baseline request goes out
    /// once, before any word. A word is dispatched while fewer than the limit
    /// are in flight, no cancellation was asked for, and, with batches, its
    /// batch has begun: a new batch begins once the last one has completed.
    /// The sweep finishes once nothing is in flight and no word is left to
    /// dispatch, or a cancellation came.
    pub fn poll(&mut self) -> (a: Action)
        requires
            old(self).wf(),
        ensures
            final(self).wf(),
            final(self)@.template == old(self)@.template,
            final(self)@.words == old(self)@.words,
            final(self)@.token == old(self)@.token,
            final(self)@.limit == old(self)@.limit,
            final(self)@.batch == old(self)@.batch,
            final(self)@.cancelled == old(self)@.cancelled,
            final(self)@.results == old(self)@.results,
            final(self)@.units == old(self)@.units,
            final(self)@.done == old(self)@.done,
            final(self)@.requests() == old(self)@.requests() + if a is Baseline || a is Dispatch {
                1nat
            } else {
                0nat
            },
            match a {
                Action::Baseline { url } => {
                    &&& old(self)@.phase is Probing
                    &&& !old(self)@.baseline_sent
                    &&& !old(self)@.cancelled
                    &&& final(self)@.phase is Probing
                    &&& final(self)@.baseline_sent
                    &&& final(self)@.dispatched == old(self)@.dispatched
                    &&& final(self)@.in_flight == old(self)@.in_flight
                    &&& url@ == replace_all(old(self)@.template, old(self)@.token)
                },
                Action::Dispatch { index, url } => {
                    &&& old(self)@.can_dispatch()
                    &&& index == old(self)@.dispatched
                    &&& final(self)@.phase is Running
                    &&& final(self)@.baseline_sent == old(self)@.baseline_sent
                    &&& final(self)@.dispatched == old(self)@.dispatched + 1
                    &&& final(self)@.in_flight == old(self)@.in_flight + 1
                    &&& final(self)@.batch_end == if old(self)@.dispatched < old(self)@.batch_end {
                        old(self)@.batch_end
                    } else {
                        next_batch_end(old(self)@.dispatched, old(self)@.words.len(), old(self)@.batch)
                    }
                    &&& url@ == replace_all(old(self)@.template, old(self)@.words[index as int])
                },
                Action::Wait => {
                    &&& final(self)@ == old(self)@
                    &&& (old(self)@.in_flight > 0 || (old(self)@.phase is Probing
                        && old(self)@.baseline_sent))
                },
                Action::Finished(sum) => {
                    &&& final(self)@ == (SweepView { phase: Phase::Finished, ..old(self)@ })
                    &&& final(self)@.in_flight == 0
                    &&& sum == final(self)@.summary()
                },
                Action::Aborted(k) => {
                    &&& final(self)@ == old(self)@
                    &&& old(self)@.phase == Phase::Aborted(k)
                },
            },
            old(self)@.can_dispatch() ==> a is Dispatch,
            old(self)@.phase is Probing && !old(self)@.baseline_sent && !old(self)@.cancelled
                ==> a is Baseline,
            old(self)@.phase is Running && old(self)@.in_flight == 0 && (old(self)@.cancelled
                || old(self)@.dispatched == old(self)@.words.len()) ==> a is Finished,
    {
        match self.phase {
            Phase::Probing => {
                if self.baseline_sent {
                    Action::Wait
                } else if self.cancelled {
                    self.phase = Phase::Finished;
                    Action::Finished(self.summary())
                } else {
                    self.baseline_sent = true;
                    let url = substitute(self.template.as_str(), self.token.as_str());
                    Action::Baseline { url }
                }
            },
            Phase::Running => {
                let n = self.words.len();
                if !self.cancelled && self.next < n && self.in_flight < self.limit && (self.next
                    < self.batch_end || self.in_flight == 0) {
                    if self.next == self.batch_end {
                        self.batch_end =
                        match self.batch {
                            None => n,
                            Some(b) => if n - self.next <= b {
                                n
                            } else {
                                self.next + b
                            },
                        };
                    }
                    let index = self.next;
                    let url = substitute(self.template.as_str(), self.words[index].as_str());
                    self.next = self.next + 1;
                    self.in_flight = self.in_flight + 1;
                    Action::Dispatch { index, url }
                } else if self.in_flight == 0 && (self.cancelled || self.next == n) {
                    self.phase = Phase::Finished;
                    Action::Finished(self.summary())
                } else {
                    Action::Wait
                }
            },
            Phase::Finished => Action::Finished(self.summary()),
            Phase::Aborted(k) => Action::Aborted(k),
        }
    }

    /// Takes in what the caller reports. A reply to the baseline request
    /// starts the sweep, or aborts it where the request failed. The reply to
    /// a dispatched word that is still in flight is recorded as that word's
    /// outcome, also after a cancellation; any other report of a completion
    /// is ignored. A cancellation stops all further dispatch.
    pub fn handle(&mut self, e: Event)
        requires
            old(self).wf(),
        ensures
            final(self).wf(),
            old(self)@.results.is_prefix_of(final(self)@.results),
            final(self)@.requests() == old(self)@.requests(),
            match e {
                Event::Cancel => final(self)@ == (SweepView { cancelled: true, ..old(self)@ }),
                Event::Baseline(reply) => if old(self)@.phase is Probing && old(self)@.baseline_sent {
                    match reply {
                        Reply::Received(_) => final(self)@ == (SweepView {
                            phase: Phase::Running,
                            batch_end: next_batch_end(0, old(self)@.words.len(), old(self)@.batch),
                            ..old(self)@
                        }),
                        Reply::Failed(k) => final(self)@ == (SweepView {
                            phase: Phase::Aborted(k),
                            ..old(self)@
                        }),
                    }
                } else {
                    final(self)@ == old(self)@
                },
                Event::Completed { index, reply } => if old(self)@.phase is Running && index
                    < old(self)@.dispatched && !old(self)@.done[index as int] {
                    final(self)@ == (SweepView {
                        in_flight: (old(self)@.in_flight - 1) as nat,
                        done: old(self)@.done.update(index as int, true),
                        results: old(self)@.results.push(
                            outcome_of(old(self)@.words[index as int], reply),
                        ),
                        units: old(self)@.units.push(index as int),
                        ..old(self)@
                    })
                } else {
                    final(self)@ == old(self)@
                },
            },
    {
        match e {
            Event::Cancel => {
                self.cancelled = true;
            },
            Event::Baseline(reply) => {
                if self.phase == Phase::Probing && self.baseline_sent {
                    match reply {
                        Reply::Received(_) => {
                            let n = self.words.len();
                            self.batch_end =
                            match self.batch {
                                None => n,
                                Some(b) => if n <= b {
                                    n
                                } else {
                                    b
                                },
                            };
                            self.phase = Phase::Running;
                        },
                        Reply::Failed(k) => {
                            self.phase = Phase::Aborted(k);
                        },
                    }
                }
            },
            Event::Completed { index, reply } => {
                if self.phase == Phase::Running && index < self.next && !self.done[index] {
                    let ghost old_done = self.done@;
                    let ghost old_units = self.units@;
                    proof {
                        lemma_open_count_flip(old_done, self.next as int, index as int);
                        assert(!self.units@.contains(index as int));
                    }
                    let word = self.words[index].clone();
                    let outcome = ProbeOutcome::from_reply(word, reply);
                    self.done.set(index, true);
                    self.in_flight = self.in_flight - 1;
                    self.store.append(outcome);
                    self.units = Ghost(self.units@.push(index as int));
                    proof {
                        assert(self@.units.no_duplicates());
                        assert forall|i: int|
                            0 <= i < self@.dispatched && #[trigger] self@.done[i] implies self@.units.contains(
                            i,
                        ) by {
                            if i == index {
                                assert(self@.units[self@.units.len() - 1] == i);
                            } else {
                                assert(old_done[i]);
                                assert(old_units.contains(i));
                                let k = choose|k: int| 0 <= k < old_units.len() && old_units[k] == i;
                                assert(self@.units[k] == i);
                            }
                        }
                    }
                }
            },
        }
    }
    /// The outcomes recorded so far.
    pub fn results(&self) -> (r: &ResultStore)
        ensures
            r@ == self@.results,
    {
        &self.store
    }

    /// Where the sweep stands.
    pub fn phase(&self) -> (p: Phase)
        ensures
            p == self@.phase,
    {
        self.phase
    }

    /// The number of words dispatched so far.
    pub fn dispatched(&self) -> (n: usize)
        ensures
            n == self@.dispatched,
    {
        self.next
    }

    /// The number of dispatched words whose request has not completed.
    pub fn in_flight(&self) -> (n: usize)
        ensures
            n == self@.in_flight,
    {
        self.in_flight
    }

    /// Whether a cancellation was asked for.
    pub fn is_cancelled(&self) -> (b: bool)
        ensures
            b == self@.cancelled,
    {
        self.cancelled
    }
}

/// A sweep that finished without a cancellation sent exactly one request per
/// word of its wordlist, plus the one baseline request, whatever its
/// concurrency limit.
pub proof fn lemma_complete_sweep_sends_each_word_once(s: SweepView)
    requires
        s.wf(),
        s.phase is Finished,
        !s.cancelled,
    ensures
        s.dispatched == s.words.len(),
        s.baseline_sent,
        s.requests() == s.words.len() + 1,
{
}

/// Once a sweep has finished, cancelled or not, every word that was
/// dispatched has exactly one recorded outcome, and that outcome came from
/// that word: nothing that had started is lost or counted twice.
pub proof fn lemma_finished_sweep_loses_nothing(s: SweepView)
    requires
        s.wf(),
        s.phase is Finished,
    ensures
        s.results.len() == s.dispatched,
        s.units.no_duplicates(),
        forall|i: int| 0 <= i < s.dispatched ==> s.units.contains(i),
        forall|k: int|
            0 <= k < s.results.len() ==> 0 <= s.units[k] < s.dispatched && #[trigger] s.results[k].word()
                == s.words[s.units[k]],
{
    lemma_open_count_zero(s.done, s.dispatched as int);
    assert forall|i: int| 0 <= i < s.dispatched implies s.units.contains(i) by {
        assert(s.done[i]);
    }
}

/// A sweep whose baseline request failed sent that request and no other, and
/// recorded nothing.
pub proof fn lemma_aborted_sweep_dispatches_nothing(s: SweepView)
    requires
        s.wf(),
        s.phase is Aborted,
    ensures
        s.dispatched == 0,
        s.requests() == 1,
        s.results.len() == 0,
        !s.can_dispatch(),
{
}

/// Once a cancellation was asked for, no further word is dispatched.
pub proof fn lemma_cancelled_sweep_dispatches_no_more(s: SweepView)
    requires
        s.cancelled,
    ensures
        !s.can_dispatch(),
{
}

} // verus!
