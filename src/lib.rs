//! A concurrent content-discovery engine: a target template holds a
//! placeholder, each word of a wordlist is put in its place, and every outcome
//! of the resulting requests is gathered into a result store.
//!
//! The library decides; its caller performs the requests. `sweep::Sweep`
//! says what to send next and takes back each reply, and the caller keeps as
//! many requests in flight as it is told to.
pub mod text;
pub mod template;
pub mod wordlist;
pub mod outcome;
pub mod config;
pub mod sweep;
pub mod token;
pub mod state;
pub mod report;

pub use config::{ConfigError, FuzzConfig, Method};
pub use outcome::{Data, ErrorKind, Header, HttpVersion, ProbeOutcome, Reply, Response, ResultStore};
pub use state::{AppState, Command};
pub use sweep::{Action, Event, Phase, Summary, Sweep};
