//! Where skills are installed and where the catalog is cached.
//!
//! Skills live in a `skills` directory inside an agent directory, whose name
//! (`agent`) the caller supplies: in the working directory when the project
//! has one (project-local), else in the home directory (global).
//!
//! Probing the filesystem is left to the caller, which hands in what it saw:
//! the working directory, whether the agent directory stands in it as a
//! directory, and the home and cache directories when they could be
//! determined.

use vstd::prelude::*;

use crate::error::SkillError;
use crate::text::{join_path, joined};

verus! {

/// The view of an optional string.
pub open spec fn opt_view(o: Option<String>) -> Option<Seq<char>> {
    match o {
        Some(s) => Some(s@),
        None => None,
    }
}

/// `<base>/<agent>/skills`.
pub open spec fn skills_dir_of(base: Seq<char>, agent: Seq<char>) -> Seq<char> {
    joined(joined(base, agent), "skills"@)
}

/// The project-local skills directory: present iff the working directory is
/// known and holds the agent directory.
pub open spec fn local_dir(cwd: Option<Seq<char>>, marker_is_dir: bool, agent: Seq<char>) -> Option<
    Seq<char>,
> {
    match cwd {
        Some(c) => if marker_is_dir {
            Some(skills_dir_of(c, agent))
        } else {
            None
        },
        None => None,
    }
}

/// The global skills directory, when the home directory is known.
pub open spec fn global_dir(home: Option<Seq<char>>, agent: Seq<char>) -> Option<Seq<char>> {
    match home {
        Some(h) => Some(skills_dir_of(h, agent)),
        None => None,
    }
}

/// The directory that installs go to: the project-local one unless a global
/// install is forced or none is available, else the global one. `None` when
/// that needs the home directory and it is unknown.
pub open spec fn resolved(
    force_global: bool,
    cwd: Option<Seq<char>>,
    marker_is_dir: bool,
    home: Option<Seq<char>>,
    agent: Seq<char>,
) -> Option<Seq<char>> {
    if !force_global && local_dir(cwd, marker_is_dir, agent) is Some {
        local_dir(cwd, marker_is_dir, agent)
    } else {
        global_dir(home, agent)
    }
}

/// Builds `<base>/<agent>/skills`.
pub fn skills_dir_under(base: &String, agent: &String) -> (r: String)
    ensures
        r@ == skills_dir_of(base@, agent@),
{
    let c = join_path(base, agent.as_str());
    join_path(&c, "skills")
}

/// The project-local skills directory, if the working directory holds the
/// agent directory (an entry of that name that is not a directory does not
/// count).
pub fn local_skills_dir(cwd: &Option<String>, marker_is_dir: bool, agent: &String) -> (r: Option<
    String,
>)
    ensures
        opt_view(r) == local_dir(opt_view(*cwd), marker_is_dir, agent@),
{
    match cwd {
        Some(c) => if marker_is_dir {
            Some(skills_dir_under(c, agent))
        } else {
            None
        },
        None => None,
    }
}

/// Decides the installation directory; fails with `Environment` when the
/// global directory is needed and the home directory is unknown.
pub fn resolve_skills_dir(
    force_global: bool,
    cwd: &Option<String>,
    marker_is_dir: bool,
    home: &Option<String>,
    agent: &String,
) -> (r: Result<String, SkillError>)
    ensures
        match r {
            Ok(p) => resolved(force_global, opt_view(*cwd), marker_is_dir, opt_view(*home), agent@)
                == Some(p@),
            Err(e) => resolved(
                force_global,
                opt_view(*cwd),
                marker_is_dir,
                opt_view(*home),
                agent@,
            ) is None && e == SkillError::Environment,
        },
{
    if !force_global {
        let local = local_skills_dir(cwd, marker_is_dir, agent);
        if let Some(l) = local {
            return Ok(l);
        }
    }
    match home {
        Some(h) => Ok(skills_dir_under(h, agent)),
        None => Err(SkillError::Environment),
    }
}

/// The directory shown as global when the home directory is unknown.
pub open spec fn unknown_home_dir(agent: Seq<char>) -> Seq<char> {
    skills_dir_of("~"@, agent)
}

/// Both skill locations for display: the project-local one if available,
/// and the global one (shown under `~` when home is unknown).
pub fn get_skill_locations(
    cwd: &Option<String>,
    marker_is_dir: bool,
    home: &Option<String>,
    agent: &String,
) -> (r: (Option<String>, String))
    ensures
        opt_view(r.0) == local_dir(opt_view(*cwd), marker_is_dir, agent@),
        match opt_view(*home) {
            Some(h) => r.1@ == skills_dir_of(h, agent@),
            None => r.1@ == unknown_home_dir(agent@),
        },
{
    let global = match home {
        Some(h) => skills_dir_under(h, agent),
        None => skills_dir_under(&String::from_str("~"), agent),
    };
    (local_skills_dir(cwd, marker_is_dir, agent), global)
}

/// Installing without forcing global goes to the project-local directory
/// exactly when the agent directory stands in the working directory, and
/// otherwise to the global directory; the displayed locations agree on which
/// is active.
pub proof fn lemma_resolve_local_iff_marker(
    cwd: Seq<char>,
    marker_is_dir: bool,
    home: Option<Seq<char>>,
    agent: Seq<char>,
)
    ensures
        marker_is_dir ==> resolved(false, Some(cwd), marker_is_dir, home, agent) == Some(
            skills_dir_of(cwd, agent),
        ),
        !marker_is_dir ==> resolved(false, Some(cwd), marker_is_dir, home, agent) == global_dir(
            home,
            agent,
        ),
        local_dir(Some(cwd), marker_is_dir, agent) is Some <==> marker_is_dir,
{
}

/// Forcing a global install ignores the working directory altogether.
pub proof fn lemma_force_global(
    cwd: Option<Seq<char>>,
    marker_is_dir: bool,
    home: Option<Seq<char>>,
    agent: Seq<char>,
)
    ensures
        resolved(true, cwd, marker_is_dir, home, agent) == global_dir(home, agent),
{
}

/// `<base>/sk1llz`: this tool's directory inside the cache directory.
pub open spec fn cache_dir_of(base: Seq<char>) -> Seq<char> {
    joined(base, "sk1llz"@)
}

/// This tool's cache directory, given the platform cache directory; fails
/// with `Environment` when that is unknown.
pub fn get_cache_dir(base: &Option<String>) -> (r: Result<String, SkillError>)
    ensures
        match r {
            Ok(p) => base matches Some(b) && p@ == cache_dir_of(b@),
            Err(e) => base is None && e == SkillError::Environment,
        },
{
    match base {
        Some(b) => Ok(join_path(b, "sk1llz")),
        None => Err(SkillError::Environment),
    }
}

/// The cached catalog's file, `<cache>/sk1llz/skills.json`; fails with
/// `Environment` when the platform cache directory is unknown.
pub fn get_manifest_path(base: &Option<String>) -> (r: Result<String, SkillError>)
    ensures
        match r {
            Ok(p) => base matches Some(b) && p@ == joined(cache_dir_of(b@), "skills.json"@),
            Err(e) => base is None && e == SkillError::Environment,
        },
{
    let dir = get_cache_dir(base)?;
    Ok(join_path(&dir, "skills.json"))
}

/// The installed directory of skill `name` that an uninstall removes: the
/// project-local one if the project-local directory is available and holds
/// it, else the global one if that holds it, else none. `in_local` and
/// `in_global` say whether `<dir>/<name>` exists in each.
pub fn uninstall_target(
    local: &Option<String>,
    global: &String,
    name: &String,
    in_local: bool,
    in_global: bool,
) -> (r: Option<String>)
    ensures
        match *local {
            Some(l) if in_local => opt_view(r) == Some(joined(l@, name@)),
            _ => if in_global {
                opt_view(r) == Some(joined(global@, name@))
            } else {
                r is None
            },
        },
{
    if let Some(l) = local {
        if in_local {
            return Some(join_path(l, name.as_str()));
        }
    }
    if in_global {
        Some(join_path(global, name.as_str()))
    } else {
        None
    }
}

} // verus!
