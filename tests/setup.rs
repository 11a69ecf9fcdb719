use sk1llz::doctor::{doctor_issues, Issue, Probe};
use sk1llz::error::SkillError;
use sk1llz::installer::{install_result, plan_install, InstallKind};
use sk1llz::location::{
    get_cache_dir, get_manifest_path, get_skill_locations, resolve_skills_dir, uninstall_target,
};
use sk1llz::model::{Manifest, Skill};
use sk1llz::store::{age_in_days, fetch_step, is_stale, load_step, CacheRead, FetchResponse, FetchStep, LoadStep};
use sk1llz::text::{is_confirmation, join_path, truncate};

fn s(x: &str) -> String {
    x.to_string()
}

fn agent() -> String {
    s(".agent")
}

fn manifest() -> Manifest {
    Manifest {
        version: s("1.0"),
        generated_at: s("2024-01-01"),
        repository: s("https://example.org/skills"),
        raw_base_url: s("https://raw.example.org/skills/master"),
        skill_count: 1,
        skills: vec![Skill {
            id: s("torvalds"),
            name: s("Torvalds"),
            description: s("Kernel reviews"),
            category: s("organizations"),
            subcategory: Some(s("kernel")),
            path: s("organizations/torvalds"),
            files: vec![s("SKILL.md")],
            tags: vec![s("c")],
        }],
    }
}

#[test]
fn resolve_follows_marker() {
    let cwd = Some(s("/work/proj"));
    let home = Some(s("/home/u"));
    assert_eq!(resolve_skills_dir(false, &cwd, true, &home, &agent()).unwrap(), "/work/proj/.agent/skills");
    assert_eq!(resolve_skills_dir(false, &cwd, false, &home, &agent()).unwrap(), "/home/u/.agent/skills");
    assert_eq!(resolve_skills_dir(false, &cwd, true, &home, &agent()).unwrap(), "/work/proj/.agent/skills");
    assert_eq!(resolve_skills_dir(true, &cwd, true, &home, &agent()).unwrap(), "/home/u/.agent/skills");
    assert!(matches!(resolve_skills_dir(true, &cwd, true, &None, &agent()), Err(SkillError::Environment)));
    assert!(matches!(resolve_skills_dir(false, &cwd, false, &None, &agent()), Err(SkillError::Environment)));
    assert_eq!(resolve_skills_dir(false, &cwd, true, &None, &agent()).unwrap(), "/work/proj/.agent/skills");
}

#[test]
fn locations_agree_with_resolve() {
    let cwd = Some(s("/work/proj"));
    let home = Some(s("/home/u/"));
    let (local, global) = get_skill_locations(&cwd, true, &home, &agent());
    assert_eq!(local, Some(s("/work/proj/.agent/skills")));
    assert_eq!(global, "/home/u/.agent/skills");
    let (local, global) = get_skill_locations(&cwd, false, &None, &agent());
    assert_eq!(local, None);
    assert_eq!(global, "~/.agent/skills");
}

#[test]
fn cache_paths() {
    assert_eq!(get_cache_dir(&Some(s("/home/u/.cache"))).unwrap(), "/home/u/.cache/sk1llz");
    assert_eq!(get_manifest_path(&Some(s("/c"))).unwrap(), "/c/sk1llz/skills.json");
    assert!(matches!(get_manifest_path(&None), Err(SkillError::Environment)));
}

#[test]
fn install_without_marker_goes_global() {
    let m = manifest();
    let plan = plan_install(&m, &s("torvalds"), &None, false, &Some(s("/work")), false, &Some(s("/home/u")), &agent())
        .unwrap();
    assert_eq!(plan.skill, 0);
    assert_eq!(plan.kind, InstallKind::Global);
    assert_eq!(plan.target_dir, "/home/u/.agent/skills/Torvalds");
    assert_eq!(plan.transfers.len(), 1);
    assert_eq!(plan.transfers[0].file, "SKILL.md");
    assert_eq!(plan.transfers[0].dest, "/home/u/.agent/skills/Torvalds/SKILL.md");
    assert_eq!(
        plan.transfers[0].url,
        "https://raw.example.org/skills/master/organizations/torvalds/SKILL.md"
    );
    assert_eq!(install_result(&plan, &vec![true]).unwrap(), "/home/u/.agent/skills/Torvalds");
}

#[test]
fn install_kinds_and_failures() {
    let m = manifest();
    let home = Some(s("/home/u"));
    let cwd = Some(s("/work"));
    let p = plan_install(&m, &s("TORVALDS"), &None, false, &cwd, true, &home, &agent()).unwrap();
    assert_eq!(p.kind, InstallKind::ProjectLocal);
    assert_eq!(p.target_dir, "/work/.agent/skills/Torvalds");
    let p = plan_install(&m, &s("torvalds"), &Some(s("/opt/x")), false, &cwd, true, &home, &agent()).unwrap();
    assert_eq!(p.kind, InstallKind::Custom);
    assert_eq!(p.target_dir, "/opt/x");
    assert_eq!(p.transfers[0].dest, "/opt/x/SKILL.md");
    match plan_install(&m, &s("knuth"), &None, false, &cwd, true, &home, &agent()) {
        Err(SkillError::NotFound(n)) => assert_eq!(n, "knuth"),
        _ => panic!("expected NotFound"),
    }
    assert!(matches!(
        plan_install(&m, &s("torvalds"), &None, true, &cwd, true, &None, &agent()),
        Err(SkillError::Environment)
    ));
    match install_result(&p, &vec![false]) {
        Err(SkillError::Transfer(f)) => assert_eq!(f, "SKILL.md"),
        _ => panic!("expected Transfer"),
    }
    assert!(matches!(install_result(&p, &vec![]), Err(SkillError::Transfer(_))));
}

#[test]
fn uninstall_prefers_project_local() {
    let local = Some(s("/work/.agent/skills"));
    let global = s("/home/u/.agent/skills");
    let name = s("Torvalds");
    assert_eq!(uninstall_target(&local, &global, &name, true, true), Some(s("/work/.agent/skills/Torvalds")));
    assert_eq!(uninstall_target(&local, &global, &name, false, true), Some(s("/home/u/.agent/skills/Torvalds")));
    assert_eq!(uninstall_target(&None, &global, &name, true, true), Some(s("/home/u/.agent/skills/Torvalds")));
    assert_eq!(uninstall_target(&local, &global, &name, false, false), None);
}

#[test]
fn corrupt_cache_then_fetch() {
    assert!(matches!(load_step(CacheRead::Unreadable), LoadStep::Fail(SkillError::CacheCorrupt)));
    match fetch_step(FetchResponse::Parsed(manifest())) {
        FetchStep::Store(m) => assert_eq!(m.skills[0].id, "torvalds"),
        _ => panic!("expected Store"),
    }
    assert!(matches!(load_step(CacheRead::Absent), LoadStep::Fetch));
    match load_step(CacheRead::Parsed(manifest())) {
        LoadStep::Use(m) => assert_eq!(m.version, "1.0"),
        _ => panic!("expected Use"),
    }
    assert!(matches!(fetch_step(FetchResponse::Unreachable), FetchStep::Fail(SkillError::Network)));
    assert!(matches!(fetch_step(FetchResponse::Malformed), FetchStep::Fail(SkillError::Parse)));
}

#[test]
fn cache_age() {
    assert_eq!(age_in_days(86400 * 3 + 5, 0), Some(3));
    assert_eq!(age_in_days(100, 100), Some(0));
    assert_eq!(age_in_days(5, 10), None);
    assert!(!is_stale(6));
    assert!(!is_stale(7));
    assert!(is_stale(8));
}

#[test]
fn doctor_reports_in_order() {
    let all_bad = Probe {
        cache_dir_exists: Some(false),
        index_age_days: Some(9),
        local_available: false,
        global_exists: false,
        network_ok: false,
    };
    assert_eq!(
        doctor_issues(all_bad),
        vec![Issue::CacheDirMissing, Issue::IndexStale, Issue::NoSkillDirs, Issue::NetworkUnreachable]
    );
    let good = Probe {
        cache_dir_exists: Some(true),
        index_age_days: Some(1),
        local_available: true,
        global_exists: false,
        network_ok: true,
    };
    assert!(doctor_issues(good).is_empty());
    let week = Probe { index_age_days: Some(7), ..good };
    assert!(doctor_issues(week).is_empty());
    let week_and_a_day = Probe { index_age_days: Some(8), ..good };
    assert_eq!(doctor_issues(week_and_a_day), vec![Issue::IndexStale]);
    let unknown = Probe { cache_dir_exists: None, index_age_days: None, ..good };
    assert_eq!(doctor_issues(unknown), vec![Issue::CacheDirUnknown, Issue::IndexMissing]);
}

#[test]
fn text_helpers() {
    assert_eq!(truncate("hello", 10), "hello");
    assert_eq!(truncate("hello world", 8), "hello...");
    assert_eq!(truncate("abc", 3), "abc");
    assert_eq!(truncate("abcd", 3), "...");
    assert_eq!(truncate("ab", 2), "ab");
    assert_eq!(truncate("", 0), "");
    assert_eq!(truncate("h\u{e9}llo world", 7), "h\u{e9}l...");
    assert_eq!(truncate("h\u{e9}llo", 6), "h\u{e9}llo");
    assert_eq!(join_path(&s("/a/"), "b"), "/a/b");
    assert_eq!(join_path(&s("/a"), "/b"), "/b");
    assert_eq!(join_path(&s(""), "b"), "b");
    assert!(is_confirmation(&s("  YES\n")));
    assert!(is_confirmation(&s("yes")));
    assert!(!is_confirmation(&s("y")));
    assert!(!is_confirmation(&s("no")));
}

#[test]
fn folded_answer_check() {
    assert!(sk1llz::text::is_yes(&s("yes")));
    assert!(!sk1llz::text::is_yes(&s("YES")));
    assert!(!sk1llz::text::is_yes(&s(" yes")));
}
