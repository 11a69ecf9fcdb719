//! The catalog: a manifest and the skills it lists.

use vstd::prelude::*;

verus! {

/// One installable bundle of files.
#[derive(Debug, Clone)]
pub struct Skill {
    pub id: String,
    pub name: String,
    pub description: String,
    pub category: String,
    pub subcategory: Option<String>,
    pub path: String,
    pub files: Vec<String>,
    pub tags: Vec<String>,
}

/// A snapshot of the remote catalog. `skill_count` is what the catalog
/// declares; it is not required to equal the number of skills listed.
#[derive(Debug, Clone)]
pub struct Manifest {
    pub version: String,
    pub generated_at: String,
    pub repository: String,
    pub raw_base_url: String,
    pub skill_count: usize,
    pub skills: Vec<Skill>,
}

} // verus!
