//! Read-only access to the external git configuration store.
//!
//! A [`GitConfig`] wraps a snapshot of a `git2::Config`. The snapshot is
//! taken once, when the value is constructed, so every lookup made during
//! one resolution pass observes the same state of the store. The three
//! typed getters return `None` both when a key is absent and when its
//! value cannot be read with the requested type; only opening the
//! snapshot can fail, and that failure is reported to the caller, who is
//! expected to treat it as fatal.

use vstd::prelude::*;

verus! {

#[verifier::external_type_specification]
#[verifier::external_body]
pub struct ExGitConfigRaw(git2::Config);

#[verifier::external_type_specification]
#[verifier::external_body]
pub struct ExGitError(git2::Error);

/// The string-valued entries of a snapshot: the keys on which
/// `git2::Config::get_string` succeeds, each with the value it returns.
pub uninterp spec fn store_strings(c: git2::Config) -> Map<Seq<char>, Seq<char>>;

/// The bool-valued entries of a snapshot: the keys on which
/// `git2::Config::get_bool` succeeds, each with the value it returns.
pub uninterp spec fn store_bools(c: git2::Config) -> Map<Seq<char>, bool>;

/// The integer-valued entries of a snapshot: the keys on which
/// `git2::Config::get_i64` succeeds, each with the value it returns.
pub uninterp spec fn store_ints(c: git2::Config) -> Map<Seq<char>, i64>;

/// The contents of the store, as the resolver sees them: one map per
/// typed getter. An absent store is modelled by three empty maps.
pub struct StoreView {
    pub strings: Map<Seq<char>, Seq<char>>,
    pub bools: Map<Seq<char>, bool>,
    pub ints: Map<Seq<char>, i64>,
}

impl StoreView {
    /// The view of an absent store: every lookup misses.
    pub open spec fn empty() -> StoreView {
        StoreView {
            strings: Map::empty(),
            bools: Map::empty(),
            ints: Map::empty(),
        }
    }
}

/// A snapshot of the git configuration store, taken once per resolution
/// pass. The wrapped `git2::Config` is always a snapshot, so its entries
/// are fixed in memory and repeated reads of one key agree.
pub struct GitConfig {
    config: git2::Config,
}

/// An error opening a snapshot of the store, carrying the diagnostic
/// text of the underlying failure.
#[derive(Debug)]
pub struct StoreError {
    pub message: String,
}

/// Relies on `git2::Config::snapshot` to freeze the current state of the
/// configuration in memory; nothing is assumed of the outcome.
#[verifier::external_body]
fn config_snapshot(config: &mut git2::Config) -> (r: Result<git2::Config, git2::Error>) {
    config.snapshot()
}

/// Relies on `git2::Error::message` for the diagnostic text of a store
/// failure; nothing is assumed of the text.
#[verifier::external_body]
fn error_message(e: &git2::Error) -> (r: String) {
    e.message().to_string()
}

/// Relies on `git2::Config::get_string`: on a snapshot it succeeds
/// exactly on the keys that have a string-readable value, returns that
/// value, and reads the snapshot's fixed in-memory state, so equal keys
/// give equal results.
#[verifier::external_body]
fn config_get_string(c: &GitConfig, key: &str) -> (r: Option<String>)
    ensures
        r is Some <==> store_strings(c.config).contains_key(key@),
        r is Some ==> r.unwrap()@ == store_strings(c.config)[key@],
{
    c.config.get_string(key).ok()
}

/// Relies on `git2::Config::get_bool`: on a snapshot it succeeds exactly
/// on the keys whose value parses as a git boolean, returns that value,
/// and reads the snapshot's fixed in-memory state, so equal keys give
/// equal results.
#[verifier::external_body]
fn config_get_bool(c: &GitConfig, key: &str) -> (r: Option<bool>)
    ensures
        r is Some <==> store_bools(c.config).contains_key(key@),
        r is Some ==> r.unwrap() == store_bools(c.config)[key@],
{
    c.config.get_bool(key).ok()
}

/// Relies on `git2::Config::get_i64`: on a snapshot it succeeds exactly
/// on the keys whose value parses as a git integer, returns that value,
/// and reads the snapshot's fixed in-memory state, so equal keys give
/// equal results.
#[verifier::external_body]
fn config_get_i64(c: &GitConfig, key: &str) -> (r: Option<i64>)
    ensures
        r is Some <==> store_ints(c.config).contains_key(key@),
        r is Some ==> r.unwrap() == store_ints(c.config)[key@],
{
    c.config.get_i64(key).ok()
}

impl View for GitConfig {
    type V = StoreView;

    closed spec fn view(&self) -> StoreView {
        StoreView {
            strings: store_strings(self.config),
            bools: store_bools(self.config),
            ints: store_ints(self.config),
        }
    }
}

impl GitConfig {
    /// Takes the snapshot of the store that one resolution pass reads.
    /// An error here means the store exists but cannot be opened or
    /// parsed; the caller aborts with the diagnostic (fail-fast, so a
    /// malformed store cannot silently change option values).
    pub fn from_config(config: &mut git2::Config) -> (r: Result<GitConfig, StoreError>) {
        match config_snapshot(config) {
            Ok(snapshot) => Ok(GitConfig { config: snapshot }),
            Err(e) => Err(StoreError { message: error_message(&e) }),
        }
    }

    /// Looks a key up with the store's string getter.
    pub fn get_string(&self, key: &str) -> (r: Option<String>)
        ensures
            r is Some <==> self@.strings.contains_key(key@),
            r is Some ==> r.unwrap()@ == self@.strings[key@],
    {
        config_get_string(self, key)
    }

    /// Looks a key up with the store's boolean getter.
    pub fn get_bool(&self, key: &str) -> (r: Option<bool>)
        ensures
            r is Some <==> self@.bools.contains_key(key@),
            r is Some ==> r.unwrap() == self@.bools[key@],
    {
        config_get_bool(self, key)
    }

    /// Looks a key up with the store's integer getter.
    pub fn get_i64(&self, key: &str) -> (r: Option<i64>)
        ensures
            r is Some <==> self@.ints.contains_key(key@),
            r is Some ==> r.unwrap() == self@.ints[key@],
    {
        config_get_i64(self, key)
    }
}

/// The view of a possibly absent store: lookups against `None` miss.
pub open spec fn opt_store_view(c: Option<GitConfig>) -> StoreView {
    match c {
        Some(g) => g@,
        None => StoreView::empty(),
    }
}

} // verus!
