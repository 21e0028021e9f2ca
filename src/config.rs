//! The configuration of one sweep, and its validation.
use vstd::prelude::*;
use crate::template::{occurs_in, starts_at, placeholder};
use crate::text::chars_of;

verus! {

/// The number of requests in flight at once unless configured otherwise.
pub const DEFAULT_CONCURRENCY: usize = 100;

/// The request method.
#[derive(Clone, Copy, Debug, PartialEq, Eq, Structural)]
pub enum Method {
    Get,
    Head,
    Post,
    Put,
    Patch,
    Delete,
    Options,
}

/// Why a sweep cannot start.
#[derive(Clone, Copy, Debug, PartialEq, Eq, Structural)]
pub enum ConfigError {
    /// The target template holds no placeholder.
    MissingPlaceholder,
    /// The concurrency limit is 0.
    ZeroConcurrency,
    /// The batch size is 0.
    ZeroBatchSize,
    /// The header line at this index has no `name:` part.
    MalformedHeader(usize),
    /// The wordlist could not be read.
    UnreadableWordlist,
}

/// What one sweep is to do. `headers` holds (name, value) pairs in order.
/// With `batch_size` set, the wordlist goes out in batches of that many
/// words, each batch finished before the next begins; without it, a pool
/// refills each free slot at once.
#[derive(Clone, Debug)]
pub struct FuzzConfig {
    pub target_template: String,
    pub wordlist_path: String,
    pub method: Method,
    pub headers: Vec<(String, String)>,
    pub body: Option<Vec<u8>>,
    pub concurrency_limit: usize,
    pub batch_size: Option<usize>,
}

/// The first error of a configuration with this template, concurrency limit
/// and batch size, if any.
pub open spec fn config_error(template: Seq<char>, limit: usize, batch: Option<usize>) -> Option<
    ConfigError,
> {
    if !occurs_in(template) {
        Some(ConfigError::MissingPlaceholder)
    } else if limit == 0 {
        Some(ConfigError::ZeroConcurrency)
    } else if batch == Some(0usize) {
        Some(ConfigError::ZeroBatchSize)
    } else {
        None
    }
}

/// Whether `template` holds the placeholder.
pub fn has_placeholder(template: &str) -> (b: bool)
    ensures
        b == occurs_in(template@),
{
    let t = chars_of(template);
    let n = t.len();
    let mut i: usize = 0;
    while n - i >= 4
        invariant
            i <= n,
            n == t@.len(),
            t@ == template@,
            forall|j: int| 0 <= j < i ==> !starts_at(t@, j),
        decreases n - i,
    {
        if t[i] == 'F' && t[i + 1] == 'U' && t[i + 2] == 'Z' && t[i + 3] == 'Z' {
            proof {
                assert(t@.subrange(i as int, i + 4) =~= placeholder());
                assert(starts_at(t@, i as int));
            }
            return true;
        }
        proof {
            if starts_at(t@, i as int) {
                assert(t@.subrange(i as int, i + 4)[0] == 'F');
                assert(t@.subrange(i as int, i + 4)[1] == 'U');
                assert(t@.subrange(i as int, i + 4)[2] == 'Z');
                assert(t@.subrange(i as int, i + 4)[3] == 'Z');
            }
        }
        i = i + 1;
    }
    false
}

impl FuzzConfig {
    /// A GET sweep of `wordlist_path` against `target_template`, without
    /// headers or body, with the default concurrency limit and no batches.
    pub fn new(target_template: String, wordlist_path: String) -> (c: FuzzConfig)
        ensures
            c.target_template == target_template,
            c.wordlist_path == wordlist_path,
            c.method == Method::Get,
            c.headers@.len() == 0,
            c.body is None,
            c.concurrency_limit == DEFAULT_CONCURRENCY,
            c.batch_size is None,
    {
        FuzzConfig {
            target_template,
            wordlist_path,
            method: Method::Get,
            headers: Vec::new(),
            body: None,
            concurrency_limit: DEFAULT_CONCURRENCY,
            batch_size: None,
        }
    }

    /// Checks the configuration before any request is made: the template
    /// must hold the placeholder, the limit and a batch size be positive.
    pub fn validate(&self) -> (r: Result<(), ConfigError>)
        ensures
            r == match config_error(self.target_template@, self.concurrency_limit, self.batch_size) {
                Some(e) => Err(e),
                None => Ok(()),
            },
    {
        if !has_placeholder(self.target_template.as_str()) {
            Err(ConfigError::MissingPlaceholder)
        } else if self.concurrency_limit == 0 {
            Err(ConfigError::ZeroConcurrency)
        } else if self.batch_size == Some(0usize) {
            Err(ConfigError::ZeroBatchSize)
        } else {
            Ok(())
        }
    }
}

} // verus!
