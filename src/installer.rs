//! Installing a skill: which skill, which directory, which files from where,
//! and what the outcome of the transfers means.
//!
//! The caller creates the directory and carries out each transfer in order;
//! it reports how each went, so it can choose to stop at the first failure or
//! to try them all.

use vstd::prelude::*;

use crate::error::SkillError;
use crate::location::{opt_view, resolve_skills_dir, resolved};
use crate::matcher::{find, first_match};
use crate::model::{Manifest, Skill};
use crate::text::{join_path, joined};

verus! {

/// How the install directory was chosen.
#[derive(Debug, Clone, Copy, PartialEq, Eq, Structural)]
pub enum InstallKind {
    /// A target directory was given explicitly.
    Custom,
    /// The global skills directory.
    Global,
    /// The project-local skills directory.
    ProjectLocal,
}

/// One file to download and write.
#[derive(Debug, Clone)]
pub struct Transfer {
    /// The file's name within the skill.
    pub file: String,
    /// Where to download it from.
    pub url: String,
    /// Where to write it.
    pub dest: String,
}

/// Everything an install does, decided before any file is written.
#[derive(Debug, Clone)]
pub struct InstallPlan {
    /// The position of the skill in the catalog.
    pub skill: usize,
    /// The directory that receives the files.
    pub target_dir: String,
    pub kind: InstallKind,
    /// The transfers, in the order of the skill's file list.
    pub transfers: Vec<Transfer>,
}

/// `<base>/<path>/<file>`: where a skill's file is downloaded from.
pub open spec fn file_url(base: Seq<char>, path: Seq<char>, file: Seq<char>) -> Seq<char> {
    base + seq!['/'] + path + seq!['/'] + file
}

/// Builds the download address of one file of a skill.
pub fn make_file_url(base: &String, path: &String, file: &String) -> (r: String)
    ensures
        r@ == file_url(base@, path@, file@),
{
    let mut r = base.clone();
    r.append("/");
    r.append(path.as_str());
    r.append("/");
    r.append(file.as_str());
    proof {
        reveal_strlit("/");
    }
    assert(r@ =~= file_url(base@, path@, file@));
    r
}

/// How the install directory is chosen.
pub open spec fn kind_of(
    target: Option<String>,
    force_global: bool,
    cwd: Option<Seq<char>>,
    marker_is_dir: bool,
) -> InstallKind {
    if target is Some {
        InstallKind::Custom
    } else if !force_global && cwd is Some && marker_is_dir {
        InstallKind::ProjectLocal
    } else {
        InstallKind::Global
    }
}

/// The transfers for `skill` into `dir`: one per file, in list order.
pub open spec fn transfers_ok(
    t: Seq<Transfer>,
    raw_base: Seq<char>,
    skill: Skill,
    dir: Seq<char>,
) -> bool {
    &&& t.len() == skill.files@.len()
    &&& forall|k: int|
        0 <= k < t.len() ==> (#[trigger] t[k]).file@ == skill.files@[k]@ && t[k].url@ == file_url(
            raw_base,
            skill.path@,
            skill.files@[k]@,
        ) && t[k].dest@ == joined(dir, skill.files@[k]@)
}

/// Plans the install of skill `name`: the first skill whose name or id equals
/// it case-insensitively, into `target` if given, else into the resolved
/// skills directory joined with the skill's name. Fails with `NotFound` when
/// no skill answers to `name`, and with `Environment` when the global
/// directory is needed and the home directory is unknown.
pub fn plan_install(
    manifest: &Manifest,
    name: &String,
    target: &Option<String>,
    force_global: bool,
    cwd: &Option<String>,
    marker_is_dir: bool,
    home: &Option<String>,
    agent: &String,
) -> (r: Result<InstallPlan, SkillError>)
    ensures
        match r {
            Ok(p) => {
                &&& first_match(manifest.skills@, name@) == Some(p.skill as int)
                &&& p.kind == kind_of(*target, force_global, opt_view(*cwd), marker_is_dir)
                &&& match *target {
                    Some(t) => p.target_dir@ == t@,
                    None => resolved(
                        force_global,
                        opt_view(*cwd),
                        marker_is_dir,
                        opt_view(*home),
                        agent@,
                    ) matches Some(d) && p.target_dir@ == joined(
                        d,
                        manifest.skills@[p.skill as int].name@,
                    ),
                }
                &&& transfers_ok(
                    p.transfers@,
                    manifest.raw_base_url@,
                    manifest.skills@[p.skill as int],
                    p.target_dir@,
                )
            },
            Err(e) => match first_match(manifest.skills@, name@) {
                None => e == SkillError::NotFound(*name),
                Some(_) => target is None && resolved(
                    force_global,
                    opt_view(*cwd),
                    marker_is_dir,
                    opt_view(*home),
                    agent@,
                ) is None && e == SkillError::Environment,
            },
        },
{
    let i = find(&manifest.skills, name)?;
    let skill = &manifest.skills[i];
    let kind = if target.is_some() {
        InstallKind::Custom
    } else if !force_global && marker_is_dir && cwd.is_some() {
        InstallKind::ProjectLocal
    } else {
        InstallKind::Global
    };
    let target_dir = match target {
        Some(t) => t.clone(),
        None => {
            let base = resolve_skills_dir(force_global, cwd, marker_is_dir, home, agent)?;
            join_path(&base, skill.name.as_str())
        },
    };
    let mut transfers: Vec<Transfer> = Vec::new();
    let mut k: usize = 0;
    while k < skill.files.len()
        invariant
            k <= skill.files@.len(),
            transfers@.len() == k,
            forall|m: int|
                0 <= m < k ==> (#[trigger] transfers@[m]).file@ == skill.files@[m]@
                    && transfers@[m].url@ == file_url(
                    manifest.raw_base_url@,
                    skill.path@,
                    skill.files@[m]@,
                ) && transfers@[m].dest@ == joined(target_dir@, skill.files@[m]@),
        decreases skill.files@.len() - k,
    {
        let file = &skill.files[k];
        let url = make_file_url(&manifest.raw_base_url, &skill.path, file);
        let dest = join_path(&target_dir, file.as_str());
        transfers.push(Transfer { file: file.clone(), url, dest });
        k += 1;
    }
    Ok(InstallPlan { skill: i, target_dir, kind, transfers })
}

/// Transfer `k` was reported as done.
pub open spec fn done_at(outcomes: Seq<bool>, k: int) -> bool {
    0 <= k < outcomes.len() && outcomes[k]
}

/// The outcome of an install given how each transfer went, in plan order:
/// the target directory when every file was written, else `Transfer` naming
/// the first file that was not. Files written before it stay written.
pub fn install_result(plan: &InstallPlan, outcomes: &Vec<bool>) -> (r: Result<String, SkillError>)
    ensures
        r is Ok <==> forall|k: int|
            0 <= k < plan.transfers@.len() ==> #[trigger] done_at(outcomes@, k),
        r matches Ok(d) ==> d@ == plan.target_dir@,
        r matches Err(e) ==> exists|k: int|
            {
                &&& 0 <= k < plan.transfers@.len()
                &&& !done_at(outcomes@, k)
                &&& forall|j: int| 0 <= j < k ==> #[trigger] done_at(outcomes@, j)
                &&& e == SkillError::Transfer((#[trigger] plan.transfers@[k]).file)
            },
{
    let mut k: usize = 0;
    while k < plan.transfers.len()
        invariant
            k <= plan.transfers@.len(),
            forall|j: int| 0 <= j < k ==> #[trigger] done_at(outcomes@, j),
        decreases plan.transfers@.len() - k,
    {
        let done = k < outcomes.len() && outcomes[k];
        if !done {
            assert(!done_at(outcomes@, k as int));
            return Err(SkillError::Transfer(plan.transfers[k].file.clone()));
        }
        assert(done_at(outcomes@, k as int));
        k += 1;
    }
    Ok(plan.target_dir.clone())
}

} // verus!
