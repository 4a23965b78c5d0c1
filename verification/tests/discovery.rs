use std::path::{Path, PathBuf};

use omp::discovery::{
    augmented_path, choose_config_dir, commands_dir, common_tool_dirs, count_workspace_commands,
    discover_omp, non_empty_path, omp_candidates, resolve_config_dir, resolve_discovery_binary,
    resolve_omp_binary, resolve_omp_binary_path, ConfigDirChoice, ConfigProbe, ConfiguredPath,
    OmpCommand, OmpDiscovery, OmpSettings, OmpSettingsContent, ProbedPath, SessionLaunch,
};

fn probed(path: &str, exists: bool) -> ProbedPath {
    ProbedPath { path: PathBuf::from(path), exists }
}

/// The `omp` section of a settings file.
fn settings_content(text: &str) -> Option<OmpSettingsContent> {
    let settings = serde_json::from_str::<serde_json::Value>(text).expect("settings");
    let section = settings.get("omp")?;
    let entry = |name: &str| section.get(name).and_then(|value| value.as_str()).map(str::to_string);
    Some(OmpSettingsContent {
        binary_path: entry("binary_path"),
        config_dir: entry("config_dir"),
    })
}

fn configured(path: &str, is_file: bool) -> Option<ConfiguredPath> {
    Some(ConfiguredPath { path: PathBuf::from(path), is_file })
}

#[test]
fn omp_discovery_status_is_visible_when_binary_missing() {
    let discovery = OmpDiscovery::default();
    assert!(!discovery.binary_available());
    assert!(!discovery.config_available());
    let label = discovery.status_label();
    assert!(!label.is_empty(), "status must be a visible message");
    assert!(
        label.contains("not found"),
        "a missing binary must surface a visible status, got: {label}"
    );
}

#[test]
fn omp_discovery_probes_empty_workspace_without_crashing() {
    let discovery = discover_omp(
        Some(probed("/workspace/nonexistent-omp", false)),
        None,
        &Vec::new(),
        None,
        &PathBuf::from("/workspace"),
        ConfigProbe { is_dir: false, commands: None },
    );
    assert!(!discovery.config_available());
    assert_eq!(discovery.command_count, 0);
    assert!(!discovery.status_label().is_empty());
}

#[test]
fn omp_discovery_finds_binary_and_workspace_config() {
    let discovery = discover_omp(
        Some(probed("/workspace/omp", true)),
        None,
        &Vec::new(),
        None,
        &PathBuf::from("/workspace"),
        ConfigProbe { is_dir: true, commands: Some(vec![Some(true), Some(true)]) },
    );
    assert!(discovery.binary_available());
    assert!(discovery.config_available());
    let config = discovery.config_dir.clone().expect("a directory");
    assert_eq!(config, Path::new("/workspace").join(".omp"));
    assert_eq!(commands_dir(&config), Path::new("/workspace/.omp/commands"));
    assert_eq!(discovery.command_count, 2);
    let label = discovery.status_label();
    assert!(label.contains("ready"), "got: {label}");
    assert!(label.contains("2 workspace commands"), "got: {label}");
}

#[test]
fn omp_discovery_honors_relative_config_override() {
    let custom = PathBuf::from("tools/omp-config");
    let discovery = discover_omp(
        Some(probed("/workspace/omp", true)),
        None,
        &Vec::new(),
        Some(&custom),
        &PathBuf::from("/workspace"),
        ConfigProbe { is_dir: true, commands: Some(vec![Some(true)]) },
    );
    assert!(discovery.config_available());
    assert_eq!(
        discovery.config_dir,
        Some(Path::new("/workspace").join("tools/omp-config"))
    );
    assert_eq!(discovery.command_count, 1);
}

#[test]
fn omp_settings_reload_preserves_workspace_defaults() {
    let omp_json =
        r#"{ "omp": { "binary_path": "/opt/omp/bin/omp", "config_dir": "workspace-omp" } }"#;
    let before = OmpSettings::from_settings(settings_content(omp_json));
    assert_eq!(before.binary_path, Some(PathBuf::from("/opt/omp/bin/omp")));
    assert_eq!(before.config_dir, Some(PathBuf::from("workspace-omp")));
    let after_reload = OmpSettings::from_settings(settings_content(omp_json));
    assert_eq!(after_reload.binary_path, before.binary_path);
    assert_eq!(after_reload.config_dir, before.config_dir);
    let after_unrelated = OmpSettings::from_settings(settings_content(
        r#"{ "omp": { "binary_path": "/opt/omp/bin/omp", "config_dir": "workspace-omp" }, "auto_update": false }"#,
    ));
    assert_eq!(
        after_unrelated.binary_path, before.binary_path,
        "workspace OMP binary default must be preserved across a settings reload"
    );
    assert_eq!(
        after_unrelated.config_dir, before.config_dir,
        "workspace OMP config default must be preserved across a settings reload"
    );
}

#[test]
fn what_is_no_directory_is_no_config() {
    let discovery = discover_omp(
        None,
        None,
        &Vec::new(),
        None,
        &PathBuf::from("/workspace"),
        ConfigProbe { is_dir: false, commands: Some(vec![Some(true)]) },
    );
    assert_eq!(discovery, OmpDiscovery::default());
}

#[test]
fn an_absolute_config_override_stands_alone() {
    let custom = PathBuf::from("/etc/omp");
    assert_eq!(
        resolve_config_dir(Some(&custom), &PathBuf::from("/workspace")),
        Some(custom.clone())
    );
    assert_eq!(
        choose_config_dir(Some(&custom), true),
        ConfigDirChoice::At(custom.clone())
    );
    assert_eq!(
        choose_config_dir(Some(&custom), false),
        ConfigDirChoice::Below(custom)
    );
    assert_eq!(
        choose_config_dir(None, true),
        ConfigDirChoice::Below(PathBuf::from(".omp"))
    );
}

#[test]
fn statuses_count_the_commands() {
    let mut discovery = OmpDiscovery {
        binary: Some(PathBuf::from("/bin/omp")),
        config_dir: None,
        command_count: 3,
    };
    assert_eq!(discovery.status_label(), "OMP ready · no workspace config");
    discovery.config_dir = Some(PathBuf::from("/w/.omp"));
    assert_eq!(discovery.status_label(), "OMP ready · 3 workspace commands");
    discovery.command_count = 1;
    assert_eq!(discovery.status_label(), "OMP ready · 1 workspace command");
    discovery.command_count = 0;
    assert_eq!(discovery.status_label(), "OMP ready · workspace config found");
    discovery.binary = None;
    assert_eq!(
        discovery.status_label(),
        "OMP binary not found — install omp or set its path in settings"
    );
}

#[test]
fn only_files_are_commands() {
    assert_eq!(count_workspace_commands(None), 0);
    assert_eq!(
        count_workspace_commands(Some(vec![Some(true), None, Some(false), Some(true)])),
        2
    );
}

#[test]
fn blank_settings_are_none() {
    assert_eq!(non_empty_path(None), None);
    assert_eq!(non_empty_path(Some("  \t".to_string())), None);
    assert_eq!(
        non_empty_path(Some("  /opt/omp \n".to_string())),
        Some(PathBuf::from("/opt/omp"))
    );
    assert_eq!(OmpSettings::from_settings(None), OmpSettings::default());
}

#[test]
fn binaries_are_looked_for_in_order() {
    let candidates = vec![probed("/a/omp", false), probed("/b/omp", true), probed("/c/omp", true)];
    assert_eq!(resolve_omp_binary(None, &candidates), PathBuf::from("/b/omp"));
    assert_eq!(
        resolve_omp_binary(Some(PathBuf::from("/env/omp")), &candidates),
        PathBuf::from("/env/omp")
    );
    assert_eq!(resolve_omp_binary(None, &Vec::new()), PathBuf::from("omp"));
    assert_eq!(
        resolve_omp_binary_path(None, &candidates),
        Some(PathBuf::from("/b/omp"))
    );
    assert_eq!(resolve_omp_binary_path(None, &Vec::new()), None);
    // A named binary that is missing is not replaced.
    assert_eq!(resolve_omp_binary_path(Some(probed("/env/omp", false)), &candidates), None);
    assert_eq!(
        resolve_discovery_binary(Some(probed("/set/omp", true)), None, &candidates),
        Some(PathBuf::from("/set/omp"))
    );
    assert_eq!(
        resolve_discovery_binary(Some(probed("/set/omp", false)), None, &candidates),
        Some(PathBuf::from("/b/omp"))
    );
}

#[test]
fn sessions_start_the_configured_binary() {
    let candidates = vec![probed("/b/omp", true)];
    let set = OmpCommand::from_settings(configured("/set/omp", true), None, &candidates);
    assert_eq!(set.program, PathBuf::from("/set/omp"));
    // A directory, or nothing at all, is no file.
    let missing = OmpCommand::from_settings(configured("/set/omp", false), None, &candidates);
    assert_eq!(missing.program, PathBuf::from("/b/omp"));
    assert!(missing.prefix_args.is_empty());
    assert_eq!(
        OmpCommand::from_settings(None, None, &Vec::new()).program,
        PathBuf::from("omp")
    );
}

#[test]
fn tools_are_looked_for_in_usual_places() {
    let home = PathBuf::from("/home/ada");
    assert_eq!(
        common_tool_dirs(Some(&home)),
        vec![
            PathBuf::from("/opt/homebrew/bin"),
            PathBuf::from("/usr/local/bin"),
            PathBuf::from("/home/ada/.bun/bin"),
            PathBuf::from("/home/ada/.local/bin"),
        ]
    );
    assert_eq!(
        omp_candidates(None),
        vec![
            PathBuf::from("/opt/homebrew/bin/omp"),
            PathBuf::from("/usr/local/bin/omp"),
        ]
    );
}

#[test]
fn the_search_path_grows_by_what_it_lacks() {
    let paths = vec![PathBuf::from("/usr/bin"), PathBuf::from("/usr/local/bin")];
    assert_eq!(
        augmented_path(paths, common_tool_dirs(None)),
        vec![
            PathBuf::from("/usr/bin"),
            PathBuf::from("/usr/local/bin"),
            PathBuf::from("/opt/homebrew/bin"),
        ]
    );
    assert_eq!(augmented_path(Vec::new(), common_tool_dirs(None)).len(), 2);
}

#[test]
fn children_search_the_usual_places_too() {
    let command = OmpCommand { program: PathBuf::from("/b/omp"), prefix_args: Vec::new() };
    let home = PathBuf::from("/home/ada");
    let launch = SessionLaunch::new(
        &command,
        &PathBuf::from("/w"),
        vec![PathBuf::from("/usr/local/bin"), PathBuf::from("/usr/bin")],
        Some(&home),
    );
    assert_eq!(
        launch.search_path,
        vec![
            PathBuf::from("/usr/local/bin"),
            PathBuf::from("/usr/bin"),
            PathBuf::from("/opt/homebrew/bin"),
            PathBuf::from("/home/ada/.bun/bin"),
            PathBuf::from("/home/ada/.local/bin"),
        ]
    );
}
