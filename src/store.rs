//! Cache policy for the catalog: when to use the cached copy, when to fetch,
//! what a fetch stores, and how old the cache is.
//!
//! Reading and writing the cache file and talking to the network are left to
//! the caller, which reports what happened and carries out the step decided.

use vstd::prelude::*;

use crate::error::SkillError;
use crate::model::Manifest;

verus! {

/// What reading the cache file gave.
pub enum CacheRead {
    /// No cache file exists.
    Absent,
    /// A cache file exists but could not be read or parsed as a manifest.
    Unreadable,
    /// The cache file held this manifest.
    Parsed(Manifest),
}

/// What loading the catalog does next.
pub enum LoadStep {
    /// Return this manifest.
    Use(Manifest),
    /// Fetch the catalog from the remote source.
    Fetch,
    /// Fail with this error.
    Fail(SkillError),
}

/// What fetching the remote catalog gave.
pub enum FetchResponse {
    /// The request failed.
    Unreachable,
    /// The response body was not a manifest.
    Malformed,
    /// The response body held this manifest.
    Parsed(Manifest),
}

/// What fetching does next.
pub enum FetchStep {
    /// Overwrite the cache with this manifest, as the last step, then return it.
    Store(Manifest),
    /// Fail with this error, leaving any earlier cache as it is.
    Fail(SkillError),
}

/// The step that loading takes on what the cache held.
pub open spec fn load_outcome(c: CacheRead) -> LoadStep {
    match c {
        CacheRead::Absent => LoadStep::Fetch,
        CacheRead::Unreadable => LoadStep::Fail(SkillError::CacheCorrupt),
        CacheRead::Parsed(m) => LoadStep::Use(m),
    }
}

/// The step that fetching takes on what the remote source answered.
pub open spec fn fetch_outcome(f: FetchResponse) -> FetchStep {
    match f {
        FetchResponse::Unreachable => FetchStep::Fail(SkillError::Network),
        FetchResponse::Malformed => FetchStep::Fail(SkillError::Parse),
        FetchResponse::Parsed(m) => FetchStep::Store(m),
    }
}

/// Decides how to load the catalog: a cached manifest is used, a corrupt cache
/// fails with `CacheCorrupt` (it does not silently refetch), and a missing
/// cache leads to a fetch.
pub fn load_step(cache: CacheRead) -> (r: LoadStep)
    ensures
        r == load_outcome(cache),
{
    match cache {
        CacheRead::Absent => LoadStep::Fetch,
        CacheRead::Unreadable => LoadStep::Fail(SkillError::CacheCorrupt),
        CacheRead::Parsed(m) => LoadStep::Use(m),
    }
}

/// Decides what a fetch does with the remote answer: only a parsed manifest is
/// stored; a transport failure is `Network`, a malformed body `Parse`.
pub fn fetch_step(response: FetchResponse) -> (r: FetchStep)
    ensures
        r == fetch_outcome(response),
{
    match response {
        FetchResponse::Unreachable => FetchStep::Fail(SkillError::Network),
        FetchResponse::Malformed => FetchStep::Fail(SkillError::Parse),
        FetchResponse::Parsed(m) => FetchStep::Store(m),
    }
}

/// A successful fetch stores exactly the manifest fetched, and a later load
/// whose cache file reads back as that manifest returns it unchanged.
pub proof fn lemma_fetch_then_load(m: Manifest)
    ensures
        fetch_outcome(FetchResponse::Parsed(m)) == FetchStep::Store(m),
        load_outcome(CacheRead::Parsed(m)) == LoadStep::Use(m),
{
}

/// A failed fetch stores nothing, so whatever cache was there stays.
pub proof fn lemma_failed_fetch_stores_nothing(f: FetchResponse)
    ensures
        !(f is Parsed) ==> fetch_outcome(f) is Fail,
{
}

/// Seconds in a day.
pub const SECS_PER_DAY: u64 = 86400;

/// A cache at most this many days old is fresh; an older one is stale.
pub const FRESH_DAYS: u64 = 7;

/// Whole days from the cache file's last change to now, both in seconds since
/// the epoch; `None` when the change lies in the future.
pub fn age_in_days(now_secs: u64, modified_secs: u64) -> (r: Option<u64>)
    ensures
        modified_secs <= now_secs ==> (r matches Some(d) && d as int == (now_secs - modified_secs) / (SECS_PER_DAY as int)),
        modified_secs > now_secs ==> r is None,
{
    if modified_secs <= now_secs {
        Some((now_secs - modified_secs) / SECS_PER_DAY)
    } else {
        None
    }
}

/// Whether a cache of this age, in days, is stale (a warning, not a failure).
pub fn is_stale(days: u64) -> (r: bool)
    ensures
        r == (days > FRESH_DAYS),
{
    days > FRESH_DAYS
}

} // verus!
