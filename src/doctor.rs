//! Setup diagnostics: which problems a report lists, given what was probed.

use vstd::prelude::*;

use crate::store::is_stale;

verus! {

/// A problem with the local setup, each with a known remedy.
#[derive(Debug, Clone, Copy, PartialEq, Eq, Structural)]
pub enum Issue {
    /// The cache directory does not exist (remedy: update).
    CacheDirMissing,
    /// The cache directory cannot be determined.
    CacheDirUnknown,
    /// The cached catalog is older than the freshness limit (remedy: update).
    IndexStale,
    /// There is no cached catalog (remedy: update).
    IndexMissing,
    /// Neither a project-local nor a global skills directory exists (remedy: init).
    NoSkillDirs,
    /// The remote catalog cannot be reached.
    NetworkUnreachable,
}

/// What was probed about the setup.
#[derive(Debug, Clone, Copy, PartialEq, Eq, Structural)]
pub struct Probe {
    /// `None` when the cache directory cannot be determined, else whether it exists.
    pub cache_dir_exists: Option<bool>,
    /// The cached catalog's age in days, `None` when there is none.
    pub index_age_days: Option<u64>,
    /// Whether a project-local skills directory is available.
    pub local_available: bool,
    /// Whether the global skills directory exists.
    pub global_exists: bool,
    /// Whether the remote catalog answered successfully.
    pub network_ok: bool,
}

/// The problems found, in the order of the checks: cache directory, catalog
/// freshness, skill directories, network.
pub open spec fn issues_of(p: Probe) -> Seq<Issue> {
    let cache = match p.cache_dir_exists {
        None => seq![Issue::CacheDirUnknown],
        Some(true) => Seq::empty(),
        Some(false) => seq![Issue::CacheDirMissing],
    };
    let index = match p.index_age_days {
        None => seq![Issue::IndexMissing],
        Some(d) => if d > crate::store::FRESH_DAYS {
            seq![Issue::IndexStale]
        } else {
            Seq::empty()
        },
    };
    let dirs = if p.local_available || p.global_exists {
        Seq::empty()
    } else {
        seq![Issue::NoSkillDirs]
    };
    let net = if p.network_ok {
        Seq::empty()
    } else {
        seq![Issue::NetworkUnreachable]
    };
    cache + index + dirs + net
}

/// Lists the problems with the setup; an empty list means all checks passed.
pub fn doctor_issues(p: Probe) -> (r: Vec<Issue>)
    ensures
        r@ == issues_of(p),
{
    let mut r: Vec<Issue> = Vec::new();
    match p.cache_dir_exists {
        None => r.push(Issue::CacheDirUnknown),
        Some(true) => {},
        Some(false) => r.push(Issue::CacheDirMissing),
    }
    match p.index_age_days {
        None => r.push(Issue::IndexMissing),
        Some(d) => if is_stale(d) {
            r.push(Issue::IndexStale);
        },
    }
    if !(p.local_available || p.global_exists) {
        r.push(Issue::NoSkillDirs);
    }
    if !p.network_ok {
        r.push(Issue::NetworkUnreachable);
    }
    assert(r@ =~= issues_of(p));
    r
}

} // verus!
