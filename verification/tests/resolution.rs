use mdget::{resolve, Dependencies, Failure, ModrinthProject};

fn project(id: &str, game_versions: &[&str]) -> ModrinthProject {
    ModrinthProject {
        id: id.to_string(),
        title: format!("Title of {}", id),
        game_versions: game_versions.iter().map(|s| s.to_string()).collect(),
        ..Default::default()
    }
}

fn ids(projects: &[ModrinthProject]) -> Vec<String> {
    projects.iter().map(|p| p.id.clone()).collect()
}

#[test]
fn resolve_without_dependencies_gives_the_project_alone() {
    let root = project("root", &["1.20.1"]);
    let resolution = resolve(root.clone(), Dependencies::default(), "1.20.1");
    assert_eq!(resolution.projects, vec![root]);
    assert!(resolution.warnings.is_empty());
}

#[test]
fn resolve_drops_incompatible_dependency() {
    let root = project("root", &["1.20.1"]);
    let bundle = Dependencies {
        projects: vec![
            project("lib-a", &["1.20.1", "1.19"]),
            project("lib-b", &["1.19"]),
            project("lib-c", &["1.20.1"]),
        ],
        versions: Vec::new(),
    };
    let resolution = resolve(root, bundle, "1.20.1");
    assert_eq!(ids(&resolution.projects), vec!["root", "lib-a", "lib-c"]);
    assert_eq!(
        resolution.warnings,
        vec![Failure::IncompatibleVersion {
            id: "lib-b".to_string(),
            target: "1.20.1".to_string()
        }]
    );
}

#[test]
fn resolve_keeps_the_project_when_all_dependencies_drop() {
    let root = project("root", &["1.20.1"]);
    let bundle = Dependencies {
        projects: vec![project("x", &[]), project("y", &["1.20"])],
        versions: Vec::new(),
    };
    let resolution = resolve(root, bundle, "1.20.1");
    assert_eq!(ids(&resolution.projects), vec!["root"]);
    assert_eq!(resolution.warnings.len(), 2);
    assert_eq!(
        resolution.warnings[1],
        Failure::IncompatibleVersion { id: "y".to_string(), target: "1.20.1".to_string() }
    );
}

#[test]
fn resolve_keeps_order_and_repeats() {
    let root = project("root", &["1.20.1"]);
    let bundle = Dependencies {
        projects: vec![
            project("b", &["1.20.1"]),
            project("a", &["1.20.1"]),
            project("b", &["1.20.1"]),
        ],
        versions: Vec::new(),
    };
    let resolution = resolve(root, bundle, "1.20.1");
    assert_eq!(ids(&resolution.projects), vec!["root", "b", "a", "b"]);
    assert!(resolution.warnings.is_empty());
}
