use mdget::{
    Artifact, Config, Dependencies, Failure, File, Hashes, ModrinthProject, Pipeline,
    ProjectVersion, Request, Response, Transition,
};

const ABC_SHA512: &str = "ddaf35a193617abacc417349ae20413112e6fa4e89a97ea20a9eeee64b55d39a2192992a274fc1a836ba3c23a3feebbd454d4423643ce80e2a9ac94fa54ca49f";

fn config() -> Config {
    Config { version: "1.20.1".to_string(), loader: "fabric".to_string() }
}

fn project(id: &str, game_versions: &[&str]) -> ModrinthProject {
    ModrinthProject {
        id: id.to_string(),
        title: format!("Title of {}", id),
        game_versions: game_versions.iter().map(|s| s.to_string()).collect(),
        ..Default::default()
    }
}

fn release(id: &str, published: &str, files: Vec<File>) -> ProjectVersion {
    ProjectVersion {
        id: Some(id.to_string()),
        game_versions: vec!["1.20.1".to_string()],
        loaders: vec!["fabric".to_string()],
        date_published: Some(published.to_string()),
        files,
        ..Default::default()
    }
}

fn file(name: &str, sha512: &str) -> File {
    File {
        hashes: Hashes { sha512: sha512.to_string(), sha1: String::new() },
        url: format!("https://cdn.example/{}", name),
        filename: name.to_string(),
        primary: true,
        size: 3,
        file_type: None,
    }
}

fn mods(ids: &[&str]) -> Vec<String> {
    ids.iter().map(|s| s.to_string()).collect()
}

fn fetch_project(id: &str) -> Request {
    Request::FetchProject { url: format!("https://api.modrinth.com/v2/project/{}", id) }
}

fn fetch_dependencies(id: &str) -> Request {
    Request::FetchDependencies {
        url: format!("https://api.modrinth.com/v2/project/{}/dependencies", id),
    }
}

fn fetch_versions(id: &str) -> Request {
    Request::FetchVersions {
        url: format!("https://api.modrinth.com/v2/project/{}/version", id),
        title: format!("Title of {}", id),
    }
}

fn fetch_bytes(name: &str) -> Request {
    Request::FetchBytes { url: format!("https://cdn.example/{}", name), filename: name.to_string() }
}

fn expect(transition: Transition, request: Request, reports: Vec<Failure>) -> Pipeline {
    assert_eq!(transition.request, request);
    assert_eq!(transition.reports, reports);
    assert_eq!(transition.warnings, Vec::new());
    transition.next
}

#[test]
fn pipeline_without_mods_finishes_at_once() {
    let start = Pipeline::start(&config(), Vec::new());
    let state = expect(start, Request::Finished, vec![]);
    assert!(state.is_done());
    let again = state.step(Response::Written);
    let state = expect(again, Request::Finished, vec![]);
    assert!(state.is_done());
}

#[test]
fn pipeline_downloads_a_mod_without_dependencies() {
    let state = expect(Pipeline::start(&config(), mods(&["sodium"])), fetch_project("sodium"), vec![]);
    assert!(!state.is_done());
    let state = expect(
        state.step(Response::Project(project("AANobbMI", &["1.20.1"]))),
        fetch_dependencies("sodium"),
        vec![],
    );
    let state = expect(
        state.step(Response::Dependencies(Dependencies::default())),
        fetch_versions("AANobbMI"),
        vec![],
    );
    let versions = vec![
        release("old", "2023-01-01T00:00:00Z", vec![file("old.jar", "00")]),
        release("new", "2023-06-01T00:00:00Z", vec![file("new.jar", ABC_SHA512), file("extra.jar", "00")]),
    ];
    let state = expect(state.step(Response::Versions(versions)), fetch_bytes("new.jar"), vec![]);
    let state = expect(
        state.step(Response::Bytes(b"abc".to_vec())),
        Request::WriteFile {
            artifact: Artifact { filename: "new.jar".to_string(), bytes: b"abc".to_vec() },
        },
        vec![],
    );
    let state = expect(state.step(Response::Written), Request::Finished, vec![]);
    assert!(state.is_done());
}

#[test]
fn pipeline_never_writes_unverified_content() {
    let state = expect(Pipeline::start(&config(), mods(&["a", "b"])), fetch_project("a"), vec![]);
    let state = expect(
        state.step(Response::Project(project("a", &["1.20.1"]))),
        fetch_dependencies("a"),
        vec![],
    );
    let state = expect(
        state.step(Response::Dependencies(Dependencies::default())),
        fetch_versions("a"),
        vec![],
    );
    let versions = vec![release("r", "2023-06-01T00:00:00Z", vec![file("a.jar", ABC_SHA512)])];
    let state = expect(state.step(Response::Versions(versions)), fetch_bytes("a.jar"), vec![]);
    let state = expect(
        state.step(Response::Bytes(b"tampered".to_vec())),
        fetch_project("b"),
        vec![Failure::IntegrityMismatch { filename: "a.jar".to_string() }],
    );
    assert!(!state.is_done());
}

#[test]
fn pipeline_goes_on_after_each_failure() {
    let state = expect(
        Pipeline::start(&config(), mods(&["gone", "old", "good", "last"])),
        fetch_project("gone"),
        vec![],
    );
    let state = expect(
        state.step(Response::Failed),
        fetch_project("old"),
        vec![Failure::QueryFailed { target: "gone".to_string() }],
    );
    let state = expect(
        state.step(Response::Project(project("old", &["1.12.2"]))),
        fetch_project("good"),
        vec![Failure::IncompatibleVersion { id: "old".to_string(), target: "1.20.1".to_string() }],
    );
    let state = expect(
        state.step(Response::Project(project("good", &["1.20.1"]))),
        fetch_dependencies("good"),
        vec![],
    );
    let state = expect(
        state.step(Response::Failed),
        fetch_project("last"),
        vec![Failure::QueryFailed { target: "good".to_string() }],
    );
    let state = expect(
        state.step(Response::Project(project("last", &["1.20.1"]))),
        fetch_dependencies("last"),
        vec![],
    );
    let state = expect(
        state.step(Response::Dependencies(Dependencies::default())),
        fetch_versions("last"),
        vec![],
    );
    let state = expect(
        state.step(Response::Failed),
        Request::Finished,
        vec![Failure::QueryFailed { target: "Title of last".to_string() }],
    );
    assert!(state.is_done());
}

#[test]
fn pipeline_works_through_dependencies() {
    let state = expect(Pipeline::start(&config(), mods(&["main"])), fetch_project("main"), vec![]);
    let state = expect(
        state.step(Response::Project(project("main", &["1.20.1"]))),
        fetch_dependencies("main"),
        vec![],
    );
    let bundle = Dependencies {
        projects: vec![project("dep-old", &["1.19"]), project("dep", &["1.20.1"])],
        versions: Vec::new(),
    };
    let warned = state.step(Response::Dependencies(bundle));
    assert_eq!(warned.request, fetch_versions("main"));
    assert_eq!(warned.reports, Vec::new());
    assert_eq!(
        warned.warnings,
        vec![Failure::IncompatibleVersion {
            id: "dep-old".to_string(),
            target: "1.20.1".to_string(),
        }]
    );
    let state = warned.next;
    let state = expect(
        state.step(Response::Versions(Vec::new())),
        fetch_versions("dep"),
        vec![Failure::NoEligibleVersion],
    );
    let versions = vec![release("r", "2023-06-01T00:00:00Z", Vec::new())];
    let state = expect(
        state.step(Response::Versions(versions)),
        Request::Finished,
        vec![Failure::QueryFailed { target: "Title of dep".to_string() }],
    );
    assert!(state.is_done());
}

#[test]
fn pipeline_counts_a_wrong_response_as_failure() {
    let state = expect(Pipeline::start(&config(), mods(&["a"])), fetch_project("a"), vec![]);
    let state = expect(
        state.step(Response::Bytes(vec![1, 2, 3])),
        Request::Finished,
        vec![Failure::QueryFailed { target: "a".to_string() }],
    );
    assert!(state.is_done());
    let state = expect(Pipeline::start(&config(), mods(&["a"])), fetch_project("a"), vec![]);
    let state = expect(
        state.step(Response::Project(project("a", &["1.20.1"]))),
        fetch_dependencies("a"),
        vec![],
    );
    let state = expect(
        state.step(Response::Dependencies(Dependencies::default())),
        fetch_versions("a"),
        vec![],
    );
    let versions = vec![release("r", "2023-06-01T00:00:00Z", vec![file("a.jar", ABC_SHA512)])];
    let state = expect(state.step(Response::Versions(versions)), fetch_bytes("a.jar"), vec![]);
    let state = expect(
        state.step(Response::Failed),
        Request::Finished,
        vec![Failure::QueryFailed { target: "https://cdn.example/a.jar".to_string() }],
    );
    assert!(state.is_done());
}

#[test]
fn pipeline_failed_dependency_query_ends_the_mod() {
    let state = expect(Pipeline::start(&config(), mods(&["a"])), fetch_project("a"), vec![]);
    let state = expect(
        state.step(Response::Project(project("a", &["1.20.1"]))),
        fetch_dependencies("a"),
        vec![],
    );
    let state = expect(
        state.step(Response::Failed),
        Request::Finished,
        vec![Failure::QueryFailed { target: "a".to_string() }],
    );
    assert!(state.is_done());

    let state = expect(Pipeline::start(&config(), mods(&["a", "b"])), fetch_project("a"), vec![]);
    let state = expect(
        state.step(Response::Project(project("a", &["1.20.1"]))),
        fetch_dependencies("a"),
        vec![],
    );
    let state = expect(
        state.step(Response::Versions(Vec::new())),
        fetch_project("b"),
        vec![Failure::QueryFailed { target: "a".to_string() }],
    );
    assert!(!state.is_done());
}

#[test]
fn pipeline_reports_no_eligible_version_only_when_none_fits() {
    let state = expect(Pipeline::start(&config(), mods(&["a"])), fetch_project("a"), vec![]);
    let state = expect(
        state.step(Response::Project(project("a", &["1.20.1"]))),
        fetch_dependencies("a"),
        vec![],
    );
    let state = expect(
        state.step(Response::Dependencies(Dependencies::default())),
        fetch_versions("a"),
        vec![],
    );
    let mut other_loader = release("r", "2023-06-01T00:00:00Z", vec![file("a.jar", ABC_SHA512)]);
    other_loader.loaders = vec!["forge".to_string()];
    let state = expect(
        state.step(Response::Versions(vec![other_loader])),
        Request::Finished,
        vec![Failure::NoEligibleVersion],
    );
    assert!(state.is_done());
}
