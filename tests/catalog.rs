use sk1llz::error::SkillError;
use sk1llz::matcher::{find, search, skills_in_category, suggest, total_score};
use sk1llz::model::{Manifest, Skill};

fn skill(id: &str, name: &str, description: &str, category: &str, tags: &[&str]) -> Skill {
    Skill {
        id: id.to_string(),
        name: name.to_string(),
        description: description.to_string(),
        category: category.to_string(),
        subcategory: None,
        path: format!("skills/{}", id),
        files: vec!["SKILL.md".to_string()],
        tags: tags.iter().map(|t| t.to_string()).collect(),
    }
}

fn catalog() -> Vec<Skill> {
    vec![
        skill("torvalds", "Torvalds", "Kernel style reviews", "Organizations", &["c", "kernel"]),
        skill("lamport", "Lamport", "Distributed systems with a crust of logic", "paradigms", &["tla"]),
        skill("rustacean", "Rustacean", "Idiomatic code", "languages", &["rust"]),
    ]
}

#[test]
fn find_by_name_and_id_any_case() {
    let skills = catalog();
    for (i, s) in skills.iter().enumerate() {
        assert_eq!(find(&skills, &s.name).unwrap(), i);
        assert_eq!(find(&skills, &s.id).unwrap(), i);
        assert_eq!(find(&skills, &s.name.to_uppercase()).unwrap(), i);
    }
    assert_eq!(find(&skills, &"TORVALDS".to_string()).unwrap(), 0);
    assert_eq!(find(&skills, &"LaMpOrT".to_string()).unwrap(), 1);
}

#[test]
fn find_first_of_duplicates() {
    let mut skills = catalog();
    skills.push(skill("torvalds2", "torvalds", "copy", "x", &[]));
    assert_eq!(find(&skills, &"torvalds".to_string()).unwrap(), 0);
    assert_eq!(find(&skills, &"TORVALDS2".to_string()).unwrap(), 3);
}

#[test]
fn find_absent_is_not_found() {
    let skills = catalog();
    match find(&skills, &"knuth".to_string()) {
        Err(SkillError::NotFound(n)) => assert_eq!(n, "knuth"),
        other => panic!("unexpected {:?}", other),
    }
    assert!(matches!(find(&Vec::new(), &"x".to_string()), Err(SkillError::NotFound(_))));
}

#[test]
fn search_ranks_tag_above_description() {
    let skills = catalog();
    let hits = search(&skills, &"rust".to_string());
    assert!(!hits.is_empty());
    assert_eq!(hits[0].0, 2);
    let p = hits
        .iter()
        .position(|h| h.0 == 1)
        .expect("the skill whose description holds \"crust\" matches too");
    assert!(p > 0);
    assert!(hits[0].1 > hits[p].1);
}

#[test]
fn search_is_sorted_and_positive() {
    let skills = catalog();
    for q in ["rust", "t", "kernel", "zzzz", "la"] {
        let hits = search(&skills, &q.to_string());
        for w in hits.windows(2) {
            assert!(w[0].1 >= w[1].1);
            if w[0].1 == w[1].1 {
                assert!(w[0].0 < w[1].0);
            }
        }
        for h in &hits {
            assert!(h.1 > 0);
        }
    }
    assert!(search(&skills, &"zzzz".to_string()).is_empty());
}

#[test]
fn search_empty_query_finds_nothing() {
    let skills = catalog();
    assert!(search(&skills, &String::new()).is_empty());
}

#[test]
fn total_score_weights() {
    assert_eq!(total_score(Some(10), Some(5), Some(2), &vec![Some(1), None, Some(7)]), 30 + 10 + 2 + 7);
    assert_eq!(total_score(None, None, None, &vec![]), 0);
    assert_eq!(total_score(Some(1), None, None, &vec![None]), 3);
    assert_eq!(total_score(None, None, None, &vec![Some(-4), Some(-9)]), -4);
}

#[test]
fn suggest_close_names() {
    let skills = catalog();
    let s = suggest(&skills, &"torvald".to_string());
    assert_eq!(s, vec!["Torvalds".to_string()]);
    assert!(suggest(&skills, &"qqq".to_string()).is_empty());
    assert!(suggest(&skills, &"a".to_string()).len() <= 3);
}

#[test]
fn category_filter_ignores_case() {
    let skills = catalog();
    assert_eq!(skills_in_category(&skills, &Some("LANGUAGES".to_string())), vec![2]);
    assert_eq!(skills_in_category(&skills, &Some("organizations".to_string())), vec![0]);
    assert_eq!(skills_in_category(&skills, &None), vec![0, 1, 2]);
    assert!(skills_in_category(&skills, &Some("none".to_string())).is_empty());
}

#[test]
fn manifest_count_may_differ() {
    let m = Manifest {
        version: "1".to_string(),
        generated_at: "now".to_string(),
        repository: "repo".to_string(),
        raw_base_url: "https://raw.example".to_string(),
        skill_count: 99,
        skills: catalog(),
    };
    assert_eq!(find(&m.skills, &"rustacean".to_string()).unwrap(), 2);
}
