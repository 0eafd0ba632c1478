use mdget::{
    Dependency, ProjectVersions,
    check_answer, dependencies_url, is_success, parse_command, project_url, versions_url, Command,
    Config, Failure, Latest, MinecraftVersions, ProjectVersion, Version, API_URL,
    REQUEST_TIMEOUT_SECS, USER_AGENT,
};

fn args(words: &[&str]) -> Vec<String> {
    words.iter().map(|s| s.to_string()).collect()
}

fn manifest(ids: &[&str]) -> MinecraftVersions {
    MinecraftVersions {
        latest: Latest::default(),
        versions: ids.iter().map(|id| Version { id: id.to_string(), ..Default::default() }).collect(),
    }
}

#[test]
fn constants_of_the_client() {
    assert_eq!(USER_AGENT, "kalkafox/mdget/0.1.0");
    assert_eq!(API_URL, "https://api.modrinth.com/v2");
    assert_eq!(REQUEST_TIMEOUT_SECS, 5);
}

#[test]
fn urls_of_the_registry() {
    assert_eq!(project_url("sodium"), "https://api.modrinth.com/v2/project/sodium");
    assert_eq!(
        dependencies_url("sodium"),
        "https://api.modrinth.com/v2/project/sodium/dependencies"
    );
    assert_eq!(versions_url("AANobbMI"), "https://api.modrinth.com/v2/project/AANobbMI/version");
    assert_eq!(project_url(""), "https://api.modrinth.com/v2/project/");
}

#[test]
fn only_2xx_is_success() {
    assert!(is_success(200));
    assert!(is_success(204));
    assert!(is_success(299));
    assert!(!is_success(199));
    assert!(!is_success(300));
    assert!(!is_success(404));
    assert!(!is_success(0));
    assert!(!is_success(u16::MAX));
}

#[test]
fn answers_without_success_are_failed_queries() {
    assert_eq!(check_answer("sodium", Some(200)), Ok(()));
    assert_eq!(
        check_answer("sodium", Some(404)),
        Err(Failure::QueryFailed { target: "sodium".to_string() })
    );
    assert_eq!(
        check_answer("sodium", Some(500)),
        Err(Failure::QueryFailed { target: "sodium".to_string() })
    );
    assert_eq!(
        check_answer("sodium", None),
        Err(Failure::QueryFailed { target: "sodium".to_string() })
    );
}

#[test]
fn failure_messages() {
    assert_eq!(
        Failure::ConnectivityFailure.message(),
        "Failed to connect to the internet! Make sure you're connected :("
    );
    assert_eq!(Failure::ConfigParseFailure.message(), "Failed to parse config file!");
    assert_eq!(
        Failure::QueryFailed { target: "sodium".to_string() }.message(),
        "Failed to query mod sodium!"
    );
    assert_eq!(
        Failure::IncompatibleVersion { id: "sodium".to_string(), target: "1.20.1".to_string() }
            .message(),
        "Mod sodium doesn't support version 1.20.1!"
    );
    assert_eq!(
        Failure::IncompatibleLoader { id: "sodium".to_string(), target: "forge".to_string() }
            .message(),
        "Mod sodium doesn't support loader forge!"
    );
    assert_eq!(
        Failure::NoEligibleVersion.message(),
        "No release supports the configured version and loader!"
    );
    assert_eq!(
        Failure::IntegrityMismatch { filename: "a.jar".to_string() }.message(),
        "Failed to verify file a.jar!"
    );
}

#[test]
fn exclusion_names_the_first_reason() {
    let release = ProjectVersion {
        id: Some("rel".to_string()),
        game_versions: vec!["1.20.1".to_string()],
        loaders: vec!["fabric".to_string()],
        ..Default::default()
    };
    assert_eq!(release.exclusion("1.20.1", "fabric"), None);
    assert_eq!(
        release.exclusion("1.19", "fabric"),
        Some(Failure::IncompatibleVersion { id: "rel".to_string(), target: "1.19".to_string() })
    );
    assert_eq!(
        release.exclusion("1.19", "forge"),
        Some(Failure::IncompatibleVersion { id: "rel".to_string(), target: "1.19".to_string() })
    );
    assert_eq!(
        release.exclusion("1.20.1", "forge"),
        Some(Failure::IncompatibleLoader { id: "rel".to_string(), target: "forge".to_string() })
    );
    let nameless = ProjectVersion::default();
    assert_eq!(
        nameless.exclusion("1.19", "forge"),
        Some(Failure::IncompatibleVersion { id: String::new(), target: "1.19".to_string() })
    );
}

#[test]
fn command_without_words_is_usage() {
    assert_eq!(parse_command(&args(&[])), Command::Usage);
    assert_eq!(parse_command(&args(&["mdget"])), Command::Usage);
}

#[test]
fn version_commands() {
    assert_eq!(parse_command(&args(&["mdget", "version"])), Command::ShowVersion);
    assert_eq!(parse_command(&args(&["mdget", "version", "get"])), Command::GetVersion);
    assert_eq!(parse_command(&args(&["mdget", "version", "get", "x"])), Command::GetVersion);
    assert_eq!(parse_command(&args(&["mdget", "version", "set"])), Command::SetVersionUsage);
    assert_eq!(
        parse_command(&args(&["mdget", "version", "set", "1.20.1"])),
        Command::SetVersion { id: "1.20.1".to_string() }
    );
    assert_eq!(
        parse_command(&args(&["mdget", "version", "set", "1.20.1", "more"])),
        Command::SetVersion { id: "1.20.1".to_string() }
    );
    assert_eq!(parse_command(&args(&["mdget", "version", "list"])), Command::Nothing);
    assert_eq!(parse_command(&args(&["mdget", "version", "Set", "1"])), Command::Nothing);
}

#[test]
fn mod_commands() {
    assert_eq!(parse_command(&args(&["mdget", "mod"])), Command::ModsUsage);
    assert_eq!(parse_command(&args(&["mdget", "mod", "-v", "--all"])), Command::ModsUsage);
    assert_eq!(
        parse_command(&args(&["mdget", "mod", "sodium"])),
        Command::Mods { ids: args(&["sodium"]) }
    );
    assert_eq!(
        parse_command(&args(&["mdget", "mod", "-v", "sodium", "--x", "lithium", "a-b", ""])),
        Command::Mods { ids: args(&["sodium", "lithium", "a-b", ""]) }
    );
}

#[test]
fn unknown_commands() {
    assert_eq!(
        parse_command(&args(&["mdget", "mods", "sodium"])),
        Command::Invalid { name: "mods".to_string() }
    );
    assert_eq!(parse_command(&args(&["mdget", ""])), Command::Invalid { name: String::new() });
    assert_eq!(
        parse_command(&args(&["mdget", "Version"])),
        Command::Invalid { name: "Version".to_string() }
    );
}

#[test]
fn default_configuration() {
    let config = Config::default();
    assert_eq!(config.version, "1.16.5");
    assert_eq!(config.loader, "fabric");
    assert_eq!(config.to_text(), "1.16.5");
}

#[test]
fn configuration_from_fields() {
    let config = Config::from_fields(Some("1.20.1".to_string()), Some("forge".to_string()));
    assert_eq!((config.version.as_str(), config.loader.as_str()), ("1.20.1", "forge"));
    let config = Config::from_fields(None, Some("forge".to_string()));
    assert_eq!((config.version.as_str(), config.loader.as_str()), ("1.16.5", "forge"));
    let config = Config::from_fields(Some("1.20.1".to_string()), None);
    assert_eq!((config.version.as_str(), config.loader.as_str()), ("1.20.1", "fabric"));
    let config = Config::from_fields(Some(String::new()), Some(String::new()));
    assert_eq!((config.version.as_str(), config.loader.as_str()), ("1.16.5", "fabric"));
    let config = Config::from_fields(None, None);
    assert_eq!(config, Config::default());
}

#[test]
fn configuration_read_from_intact_text() {
    let reading = Config::read("version = \"1.20.1\"\nloader = \"quilt\"\n");
    assert!(reading.intact);
    assert_eq!(reading.config.version, "1.20.1");
    assert_eq!(reading.config.loader, "quilt");
    let reading = Config::read("loader = 'forge'\nextra = 3\nversion = '1.19'\n");
    assert!(reading.intact);
    assert_eq!(reading.config, Config { version: "1.19".to_string(), loader: "forge".to_string() });
}

#[test]
fn configuration_read_from_invalid_toml() {
    let reading = Config::read("version = \"1.20.1\nloader = = fabric");
    assert!(!reading.intact);
    assert_eq!(reading.config, Config::default());
    let reading = Config::read("\u{0}not toml at all [[[");
    assert!(!reading.intact);
    assert_eq!(reading.config, Config::default());
}

#[test]
fn configuration_read_field_by_field() {
    let reading = Config::read("version = \"1.20.1\"\n");
    assert!(!reading.intact);
    assert_eq!(reading.config.version, "1.20.1");
    assert_eq!(reading.config.loader, "fabric");
    let reading = Config::read("version = 5\nloader = \"forge\"\n");
    assert!(!reading.intact);
    assert_eq!(reading.config.version, "1.16.5");
    assert_eq!(reading.config.loader, "forge");
    let reading = Config::read("version = \"\"\nloader = \"forge\"\n");
    assert!(!reading.intact);
    assert_eq!(reading.config.version, "1.16.5");
    let reading = Config::read("");
    assert!(!reading.intact);
    assert_eq!(reading.config, Config::default());
    let reading = Config::read("[version]\nloader = \"forge\"\n");
    assert!(!reading.intact);
    assert_eq!(reading.config, Config::default());
}

#[test]
fn set_version_needs_a_known_version() {
    let known = manifest(&["1.20.1", "1.19", "1.20.1"]);
    let mut config = Config::default();
    assert!(config.set_version(&known, "1.19"));
    assert_eq!(config.version, "1.19");
    assert_eq!(config.loader, "fabric");
    assert!(!config.set_version(&known, "1.18"));
    assert_eq!(config.version, "1.19");
    assert!(!config.set_version(&known, ""));
    assert_eq!(config.version, "1.19");
    assert_eq!(known.find_version("1.20.1"), Some(0));
    assert_eq!(known.find_version("1.19"), Some(1));
    assert_eq!(known.find_version("1.2"), None);
    let with_empty = manifest(&[""]);
    assert_eq!(with_empty.find_version(""), None);
    assert!(!config.set_version(&with_empty, ""));
}

#[test]
fn only_the_kind_required_is_required() {
    let kind = |k: Option<&str>| Dependency {
        dependency_type: k.map(|s| s.to_string()),
        ..Default::default()
    };
    assert!(kind(Some("required")).is_required());
    assert!(!kind(Some("optional")).is_required());
    assert!(!kind(Some("Required")).is_required());
    assert!(!kind(Some("")).is_required());
    assert!(!kind(None).is_required());
}

#[test]
fn releases_are_a_vector() {
    let releases: ProjectVersions = vec![ProjectVersion::default()];
    assert_eq!(releases.len(), 1);
}
