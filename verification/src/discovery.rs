//! Where the OMP binary and a workspace's OMP configuration are found.
use std::path::PathBuf;

use vstd::prelude::*;

use crate::terminal::TaskStream;
use crate::text::{concatenated, decimal, decimal_text, trim, trimmed};

verus! {

// ---------------------------------------------------------------------------
// Paths
// ---------------------------------------------------------------------------

/// `std::path::PathBuf`, of which only the identity matters here.
#[verifier::external_type_specification]
#[verifier::external_body]
pub struct ExPathBuf(PathBuf);

/// `<PathBuf as Clone>::clone` gives the same path.
pub assume_specification[ <PathBuf as Clone>::clone ](path: &PathBuf) -> (copy: PathBuf)
    ensures
        copy == *path,
;

/// The path that a text denotes.
pub uninterp spec fn text_path(text: Seq<char>) -> PathBuf;

/// `<PathBuf as From<String>>::from` takes the text over as it is: which path it
/// gives depends on the text alone.
#[verifier::external_body]
pub(crate) fn path_of(text: String) -> (path: PathBuf)
    ensures
        path == text_path(text@),
{
    PathBuf::from(text)
}

/// Whether a path stands on its own, on the platform the program is built for.
pub uninterp spec fn absolute_path(path: PathBuf) -> bool;

/// `std::path::Path::is_absolute`: the answer depends on the path alone. Which
/// paths are absolute is a matter of the platform the program is built for, and
/// is not said here.
#[verifier::external_body]
fn is_absolute(path: &PathBuf) -> (absolute: bool)
    ensures
        absolute == absolute_path(*path),
{
    path.is_absolute()
}

/// One path below another, on the platform the program is built for.
pub uninterp spec fn joined_path(base: PathBuf, rest: PathBuf) -> PathBuf;

/// `std::path::Path::join`: the result depends on the two paths alone. How they
/// are put together is a matter of the platform the program is built for, and is
/// not said here.
#[verifier::external_body]
pub(crate) fn join_path(base: &PathBuf, rest: &PathBuf) -> (path: PathBuf)
    ensures
        path == joined_path(*base, *rest),
{
    base.join(rest)
}

/// Whether two paths are the same, component by component, on the platform the
/// program is built for.
pub uninterp spec fn equal_paths(left: PathBuf, right: PathBuf) -> bool;

/// `<PathBuf as PartialEq>::eq`: the answer depends on the two paths alone. Which
/// spellings are the same path is a matter of the platform the program is built
/// for, and is not said here.
#[verifier::external_body]
fn same_path(left: &PathBuf, right: &PathBuf) -> (same: bool)
    ensures
        same == equal_paths(*left, *right),
{
    left.eq(right)
}

/// A borrowed path as one of its own.
pub open spec fn owned_path(path: Option<&PathBuf>) -> Option<PathBuf> {
    match path {
        Some(path) => Some(*path),
        None => None,
    }
}

/// A path, and whether something is there.
#[derive(Debug, PartialEq, Eq)]
pub struct ProbedPath {
    pub path: PathBuf,
    pub exists: bool,
}

/// The first path at which something is.
pub open spec fn first_existing(candidates: Seq<ProbedPath>) -> Option<PathBuf>
    decreases candidates.len(),
{
    if candidates.len() == 0 {
        None
    } else if candidates[0].exists {
        Some(candidates[0].path)
    } else {
        first_existing(candidates.drop_first())
    }
}

/// The first of `candidates` at which something is.
pub(crate) fn find_existing(candidates: &Vec<ProbedPath>) -> (found: Option<PathBuf>)
    ensures
        found == first_existing(candidates@),
{
    let mut i: usize = 0;
    assert(candidates@.skip(0) =~= candidates@);
    while i < candidates.len()
        invariant
            i <= candidates@.len(),
            first_existing(candidates@) == first_existing(candidates@.skip(i as int)),
        decreases candidates@.len() - i,
    {
        if candidates[i].exists {
            return Some(candidates[i].path.clone());
        }
        assert(candidates@.skip(i as int).drop_first() =~= candidates@.skip(i + 1));
        i = i + 1;
    }
    None
}

// ---------------------------------------------------------------------------
// Tool directories
// ---------------------------------------------------------------------------

/// A directory in which tools are usually installed.
#[derive(Debug, PartialEq, Eq)]
pub struct ToolDir {
    /// The directory lies under the user's home.
    pub under_home: bool,
    pub path: String,
}

/// The directories in which tools are usually installed, in the order in which
/// they are searched.
pub open spec fn tool_dirs(home: bool) -> Seq<(bool, Seq<char>)> {
    let shared = seq![(false, "/opt/homebrew/bin"@), (false, "/usr/local/bin"@)];
    if home {
        shared + seq![(true, ".bun/bin"@), (true, ".local/bin"@)]
    } else {
        shared
    }
}

/// A list of tool directories as what it stands for.
pub open spec fn tool_dir_views(dirs: Seq<ToolDir>) -> Seq<(bool, Seq<char>)> {
    Seq::new(dirs.len(), |i: int| (dirs[i].under_home, dirs[i].path@))
}

/// The directories in which tools are usually installed. Those under the user's
/// home are searched where the home is known.
pub fn tool_dir_list(home: bool) -> (dirs: Vec<ToolDir>)
    ensures
        tool_dir_views(dirs@) == tool_dirs(home),
{
    let mut dirs: Vec<ToolDir> = Vec::new();
    dirs.push(ToolDir { under_home: false, path: "/opt/homebrew/bin".to_owned() });
    dirs.push(ToolDir { under_home: false, path: "/usr/local/bin".to_owned() });
    if home {
        dirs.push(ToolDir { under_home: true, path: ".bun/bin".to_owned() });
        dirs.push(ToolDir { under_home: true, path: ".local/bin".to_owned() });
    }
    assert(tool_dir_views(dirs@) =~= tool_dirs(home));
    dirs
}

/// The directories in which tools are usually installed, as paths: those outside
/// the user's home as they are, those under it below the home.
pub open spec fn tool_dir_paths(home: Option<PathBuf>) -> Seq<PathBuf> {
    let dirs = tool_dirs(home is Some);
    Seq::new(
        dirs.len(),
        |i: int|
            if dirs[i].0 {
                joined_path(home->0, text_path(dirs[i].1))
            } else {
                text_path(dirs[i].1)
            },
    )
}

/// The directories in which tools are usually installed, as paths.
pub fn common_tool_dirs(home: Option<&PathBuf>) -> (dirs: Vec<PathBuf>)
    ensures
        dirs@ == tool_dir_paths(owned_path(home)),
{
    let list = tool_dir_list(home.is_some());
    let ghost views = tool_dir_views(list@);
    let ghost expected = tool_dir_paths(owned_path(home));
    let mut dirs: Vec<PathBuf> = Vec::new();
    for dir in iter: list
        invariant
            iter.seq() == list@,
            views == tool_dir_views(list@),
            views == tool_dirs(home is Some),
            expected == tool_dir_paths(owned_path(home)),
            dirs@.len() == iter.index(),
            forall|i: int| 0 <= i < dirs@.len() ==> #[trigger] dirs@[i] == expected[i],
    {
        assert(views[iter.index() as int] == (dir.under_home, dir.path@));
        let path = path_of(dir.path);
        match home {
            Some(home) if dir.under_home => {
                let under_home = join_path(home, &path);
                dirs.push(under_home);
            },
            _ => dirs.push(path),
        }
    }
    assert(dirs@ =~= expected);
    dirs
}

/// A name below each of some directories.
pub open spec fn below_each(dirs: Seq<PathBuf>, name: Seq<char>) -> Seq<PathBuf> {
    Seq::new(dirs.len(), |i: int| joined_path(dirs[i], text_path(name)))
}

/// `name` below each of `dirs`.
pub(crate) fn join_each(dirs: &Vec<PathBuf>, name: &str) -> (paths: Vec<PathBuf>)
    ensures
        paths@ == below_each(dirs@, name@),
{
    let name_path = path_of(name.to_owned());
    let mut paths: Vec<PathBuf> = Vec::new();
    let mut i: usize = 0;
    while i < dirs.len()
        invariant
            i <= dirs@.len(),
            name_path == text_path(name@),
            paths@.len() == i,
            forall|j: int|
                0 <= j < i ==> #[trigger] paths@[j] == joined_path(dirs@[j], text_path(name@)),
        decreases dirs@.len() - i,
    {
        paths.push(join_path(&dirs[i], &name_path));
        i = i + 1;
    }
    assert(paths@ =~= below_each(dirs@, name@));
    paths
}

/// Where the binary is looked for, in order: its name below each tool directory.
pub fn omp_candidates(home: Option<&PathBuf>) -> (candidates: Vec<PathBuf>)
    ensures
        candidates@ == below_each(tool_dir_paths(owned_path(home)), "omp"@),
{
    let dirs = common_tool_dirs(home);
    join_each(&dirs, "omp")
}

/// A directory is one of some paths.
pub open spec fn listed(paths: Seq<PathBuf>, dir: PathBuf) -> bool {
    exists|i: int| 0 <= i < paths.len() && equal_paths(#[trigger] paths[i], dir)
}

/// A search path with one more directory, unless it is listed already.
pub open spec fn with_dir(paths: Seq<PathBuf>, dir: PathBuf, is_listed: bool) -> Seq<PathBuf> {
    if is_listed {
        paths
    } else {
        paths.push(dir)
    }
}

/// A search path with those of `dirs` that are not listed already, one by one.
pub open spec fn with_dirs(paths: Seq<PathBuf>, dirs: Seq<PathBuf>) -> Seq<PathBuf>
    decreases dirs.len(),
{
    if dirs.len() == 0 {
        paths
    } else {
        let before = with_dirs(paths, dirs.drop_last());
        with_dir(before, dirs.last(), listed(before, dirs.last()))
    }
}

/// What the search path held stays in front, and no more than `dirs` are added.
pub proof fn augmenting_keeps_the_search_path(paths: Seq<PathBuf>, dirs: Seq<PathBuf>)
    ensures
        paths.is_prefix_of(with_dirs(paths, dirs)),
        with_dirs(paths, dirs).len() <= paths.len() + dirs.len(),
    decreases dirs.len(),
{
    if dirs.len() > 0 {
        augmenting_keeps_the_search_path(paths, dirs.drop_last());
    }
}

/// Adds `dir` to `paths`, unless it is listed already.
pub fn add_tool_dir(paths: Vec<PathBuf>, dir: PathBuf, is_listed: bool) -> (augmented: Vec<PathBuf>)
    ensures
        augmented@ == with_dir(paths@, dir, is_listed),
{
    let mut augmented = paths;
    if !is_listed {
        augmented.push(dir);
    }
    augmented
}

/// Whether `dir` is one of `paths`.
fn is_listed(paths: &Vec<PathBuf>, dir: &PathBuf) -> (found: bool)
    ensures
        found == listed(paths@, *dir),
{
    let mut i: usize = 0;
    while i < paths.len()
        invariant
            i <= paths@.len(),
            forall|j: int| 0 <= j < i ==> !equal_paths(#[trigger] paths@[j], *dir),
        decreases paths@.len() - i,
    {
        if same_path(&paths[i], dir) {
            assert(equal_paths(paths@[i as int], *dir));
            return true;
        }
        i = i + 1;
    }
    false
}

/// The search path for the child: `paths`, and those of `dirs` that are not
/// listed already.
pub fn augmented_path(paths: Vec<PathBuf>, dirs: Vec<PathBuf>) -> (augmented: Vec<PathBuf>)
    ensures
        augmented@ == with_dirs(paths@, dirs@),
{
    let ghost before = paths@;
    let mut augmented = paths;
    for dir in iter: dirs
        invariant
            iter.seq() == dirs@,
            augmented@ == with_dirs(before, dirs@.take(iter.index() as int)),
    {
        let found = is_listed(&augmented, &dir);
        proof {
            let index = iter.index() as int;
            assert(dirs@.take(index + 1).drop_last() =~= dirs@.take(index));
        }
        augmented = add_tool_dir(augmented, dir, found);
    }
    assert(dirs@.take(dirs@.len() as int) =~= dirs@);
    augmented
}

// ---------------------------------------------------------------------------
// The binary
// ---------------------------------------------------------------------------

/// The binary that is launched: the one that the environment names, else the
/// first candidate that is there, else the bare name.
pub open spec fn launched_binary(env: Option<PathBuf>, candidates: Seq<ProbedPath>) -> PathBuf {
    match env {
        Some(binary) => binary,
        None => match first_existing(candidates) {
            Some(binary) => binary,
            None => text_path("omp"@),
        },
    }
}

/// The binary that is launched. `env` is what the environment names, and
/// `candidates` where the binary was looked for.
pub fn resolve_omp_binary(env: Option<PathBuf>, candidates: &Vec<ProbedPath>) -> (binary: PathBuf)
    ensures
        binary == launched_binary(env, candidates@),
{
    match env {
        Some(binary) => binary,
        None => match find_existing(candidates) {
            Some(binary) => binary,
            None => path_of("omp".to_owned()),
        },
    }
}

/// The binary that really is there: the one that the environment names, else the
/// first candidate.
pub open spec fn present_binary(env: Option<ProbedPath>, candidates: Seq<ProbedPath>) -> Option<
    PathBuf,
> {
    match env {
        Some(binary) => if binary.exists {
            Some(binary.path)
        } else {
            None
        },
        None => first_existing(candidates),
    }
}

/// The binary that really is there.
pub fn resolve_omp_binary_path(env: Option<ProbedPath>, candidates: &Vec<ProbedPath>) -> (binary:
    Option<PathBuf>)
    ensures
        binary == present_binary(env, candidates@),
{
    match env {
        Some(binary) => if binary.exists {
            Some(binary.path)
        } else {
            None
        },
        None => find_existing(candidates),
    }
}

/// The binary that is shown: the configured one where it is there, else the one
/// that is found.
pub open spec fn discovered_binary(
    binary_override: Option<ProbedPath>,
    env: Option<ProbedPath>,
    candidates: Seq<ProbedPath>,
) -> Option<PathBuf> {
    match binary_override {
        Some(binary) => if binary.exists {
            Some(binary.path)
        } else {
            present_binary(env, candidates)
        },
        None => present_binary(env, candidates),
    }
}

/// The binary that is shown.
pub fn resolve_discovery_binary(
    binary_override: Option<ProbedPath>,
    env: Option<ProbedPath>,
    candidates: &Vec<ProbedPath>,
) -> (binary: Option<PathBuf>)
    ensures
        binary == discovered_binary(binary_override, env, candidates@),
{
    match binary_override {
        Some(binary) if binary.exists => Some(binary.path),
        _ => resolve_omp_binary_path(env, candidates),
    }
}

// ---------------------------------------------------------------------------
// Settings
// ---------------------------------------------------------------------------

/// Workspace-scoped defaults for the built-in OMP agent.
#[derive(Clone, Debug, PartialEq, Eq)]
pub struct OmpSettings {
    /// User-configured path to the `omp` binary, if any.
    pub binary_path: Option<PathBuf>,
    /// User-configured workspace config directory, if any.
    pub config_dir: Option<PathBuf>,
}

impl Default for OmpSettings {
    fn default() -> (settings: OmpSettings)
        ensures
            settings.binary_path is None,
            settings.config_dir is None,
    {
        OmpSettings { binary_path: None, config_dir: None }
    }
}

/// The path that a setting gives: its text without the white space around it. A
/// blank text gives none.
pub open spec fn setting_path(value: Option<String>) -> Option<PathBuf> {
    match value {
        Some(raw) => if trimmed(raw@).len() > 0 {
            Some(text_path(trimmed(raw@)))
        } else {
            None
        },
        None => None,
    }
}

/// The path that a setting gives.
pub fn non_empty_path(value: Option<String>) -> (path: Option<PathBuf>)
    ensures
        path == setting_path(value),
{
    match value {
        Some(raw) => {
            let inner = trim(raw.as_str());
            if inner.as_str().is_empty() {
                None
            } else {
                Some(path_of(inner))
            }
        },
        None => None,
    }
}

/// The `omp` section of the settings, as it is written.
#[derive(Clone, Debug, PartialEq, Eq)]
pub struct OmpSettingsContent {
    pub binary_path: Option<String>,
    pub config_dir: Option<String>,
}

impl OmpSettings {
    /// The settings that a section gives. A missing section is an empty one.
    pub fn from_settings(content: Option<OmpSettingsContent>) -> (settings: OmpSettings)
        ensures
            settings.binary_path == setting_path(
                match content {
                    Some(content) => content.binary_path,
                    None => None,
                },
            ),
            settings.config_dir == setting_path(
                match content {
                    Some(content) => content.config_dir,
                    None => None,
                },
            ),
    {
        match content {
            Some(content) => OmpSettings {
                binary_path: non_empty_path(content.binary_path),
                config_dir: non_empty_path(content.config_dir),
            },
            None => OmpSettings {
                binary_path: non_empty_path(None),
                config_dir: non_empty_path(None),
            },
        }
    }
}

// ---------------------------------------------------------------------------
// The workspace
// ---------------------------------------------------------------------------

/// The workspace's config directory, relative to its root, where none is set.
pub const DEFAULT_WORKSPACE_CONFIG_DIR: &'static str = ".omp";

/// How the workspace's config directory is found.
#[derive(Debug, PartialEq, Eq)]
pub enum ConfigDirChoice {
    /// At a path of its own.
    At(PathBuf),
    /// Below the workspace's root.
    Below(PathBuf),
}

/// How the workspace's config directory is found: at the configured path where
/// it is absolute, below the root at the configured path where it is not, and
/// below the root at the default path where none is configured.
pub open spec fn chosen_config_dir(config_override: Option<PathBuf>, absolute: bool) ->
    ConfigDirChoice {
    match config_override {
        Some(path) => if absolute {
            ConfigDirChoice::At(path)
        } else {
            ConfigDirChoice::Below(path)
        },
        None => ConfigDirChoice::Below(text_path(DEFAULT_WORKSPACE_CONFIG_DIR@)),
    }
}

/// How the workspace's config directory is found. `absolute` tells whether the
/// configured path is.
pub fn choose_config_dir(config_override: Option<&PathBuf>, absolute: bool) -> (choice:
    ConfigDirChoice)
    ensures
        choice == chosen_config_dir(owned_path(config_override), absolute),
{
    match config_override {
        Some(path) => if absolute {
            ConfigDirChoice::At(path.clone())
        } else {
            ConfigDirChoice::Below(path.clone())
        },
        None => ConfigDirChoice::Below(path_of(DEFAULT_WORKSPACE_CONFIG_DIR.to_owned())),
    }
}

/// The workspace's config directory.
pub open spec fn config_dir_path(config_override: Option<PathBuf>, work_dir: PathBuf) -> PathBuf {
    let absolute = config_override is Some && absolute_path(config_override->0);
    match chosen_config_dir(config_override, absolute) {
        ConfigDirChoice::At(path) => path,
        ConfigDirChoice::Below(path) => joined_path(work_dir, path),
    }
}

/// The workspace's config directory.
pub fn resolve_config_dir(config_override: Option<&PathBuf>, work_dir: &PathBuf) -> (dir: Option<
    PathBuf,
>)
    ensures
        dir == Some(config_dir_path(owned_path(config_override), *work_dir)),
{
    let absolute = match config_override {
        Some(path) => is_absolute(path),
        None => false,
    };
    match choose_config_dir(config_override, absolute) {
        ConfigDirChoice::At(path) => Some(path),
        ConfigDirChoice::Below(path) => Some(join_path(work_dir, &path)),
    }
}

/// What is known of an entry of a directory: nothing where it could not be read,
/// else whether it is a file.
pub open spec fn is_file_entry(entry: Option<bool>) -> bool {
    entry == Some(true)
}

/// The number of files among the entries of a directory.
pub open spec fn file_count(entries: Seq<Option<bool>>) -> nat
    decreases entries.len(),
{
    if entries.len() == 0 {
        0
    } else {
        file_count(entries.drop_last()) + (if is_file_entry(entries.last()) {
            1nat
        } else {
            0nat
        })
    }
}

/// The number of commands that a workspace has.
pub open spec fn command_count_of(entries: Option<Vec<Option<bool>>>) -> nat {
    match entries {
        Some(entries) => file_count(entries@),
        None => 0,
    }
}

/// The number of command files. `entries` are those of the commands directory,
/// nothing where it could not be read.
pub fn count_workspace_commands(entries: Option<Vec<Option<bool>>>) -> (count: usize)
    ensures
        count == command_count_of(entries),
{
    let entries = match entries {
        Some(entries) => entries,
        None => return 0,
    };
    let mut count: usize = 0;
    let mut i: usize = 0;
    while i < entries.len()
        invariant
            i <= entries@.len(),
            count <= i,
            count == file_count(entries@.take(i as int)),
        decreases entries@.len() - i,
    {
        assert(entries@.take(i + 1).drop_last() =~= entries@.take(i as int));
        if let Some(true) = entries[i] {
            count = count + 1;
        }
        i = i + 1;
    }
    assert(entries@.take(i as int) =~= entries@);
    count
}

/// The directory of the workspace's commands, below its config directory.
pub fn commands_dir(config_dir: &PathBuf) -> (dir: PathBuf)
    ensures
        dir == joined_path(*config_dir, text_path("commands"@)),
{
    join_path(config_dir, &path_of("commands".to_owned()))
}

/// What is found at the workspace's config directory.
#[derive(Debug, PartialEq, Eq)]
pub struct ConfigProbe {
    pub is_dir: bool,
    /// The entries of the commands directory, nothing where it could not be
    /// read.
    pub commands: Option<Vec<Option<bool>>>,
}

/// Result of probing a workspace for OMP. What is missing degrades to nothing, so
/// that it shows as a status rather than as a failure.
#[derive(Clone, Debug, PartialEq, Eq)]
pub struct OmpDiscovery {
    /// Resolved `omp` binary, when one was found.
    pub binary: Option<PathBuf>,
    /// Workspace config directory, when it exists.
    pub config_dir: Option<PathBuf>,
    /// Number of workspace command files found under `<config>/commands`.
    pub command_count: usize,
}

impl Default for OmpDiscovery {
    fn default() -> (discovery: OmpDiscovery)
        ensures
            discovery.binary is None,
            discovery.config_dir is None,
            discovery.command_count == 0,
    {
        OmpDiscovery { binary: None, config_dir: None, command_count: 0 }
    }
}

impl OmpDiscovery {
    /// A binary was found.
    pub fn binary_available(&self) -> (available: bool)
        ensures
            available == self.binary is Some,
    {
        self.binary.is_some()
    }

    /// A workspace config directory exists.
    pub fn config_available(&self) -> (available: bool)
        ensures
            available == self.config_dir is Some,
    {
        self.config_dir.is_some()
    }

    /// The status that the user sees.
    pub open spec fn status(self) -> Seq<char> {
        if self.binary is None {
            "OMP binary not found — install omp or set its path in settings"@
        } else if self.config_dir is None {
            "OMP ready · no workspace config"@
        } else if self.command_count == 0 {
            "OMP ready · workspace config found"@
        } else if self.command_count == 1 {
            "OMP ready · 1 workspace command"@
        } else {
            "OMP ready · "@ + decimal_text(self.command_count as nat) + " workspace commands"@
        }
    }

    /// A short, user-facing status line. It is never empty: what is missing is
    /// told.
    pub fn status_label(&self) -> (label: String)
        ensures
            label@ == self.status(),
            label@.len() > 0,
    {
        proof {
            self.status_is_never_empty();
        }
        if self.binary.is_none() {
            return "OMP binary not found — install omp or set its path in settings".to_owned();
        }
        if self.config_dir.is_none() {
            return "OMP ready · no workspace config".to_owned();
        }
        if self.command_count == 0 {
            "OMP ready · workspace config found".to_owned()
        } else if self.command_count == 1 {
            "OMP ready · 1 workspace command".to_owned()
        } else {
            let mut label = concatenated("OMP ready · ", decimal(self.command_count as u64).as_str());
            label.append(" workspace commands");
            label
        }
    }

    /// Whatever was found, there is a status to see.
    pub proof fn status_is_never_empty(self)
        ensures
            self.status().len() > 0,
    {
        reveal_strlit("OMP binary not found — install omp or set its path in settings");
        reveal_strlit("OMP ready · no workspace config");
        reveal_strlit("OMP ready · workspace config found");
        reveal_strlit("OMP ready · 1 workspace command");
        reveal_strlit("OMP ready · ");
    }
}

/// Puts together what was found of OMP in a workspace. `config` is what was found
/// at the workspace's config directory.
pub fn discover_omp(
    binary_override: Option<ProbedPath>,
    env: Option<ProbedPath>,
    candidates: &Vec<ProbedPath>,
    config_override: Option<&PathBuf>,
    work_dir: &PathBuf,
    config: ConfigProbe,
) -> (discovery: OmpDiscovery)
    ensures
        discovery.binary == discovered_binary(binary_override, env, candidates@),
        discovery.config_dir == (if config.is_dir {
            Some(config_dir_path(owned_path(config_override), *work_dir))
        } else {
            None
        }),
        discovery.command_count == (if config.is_dir {
            command_count_of(config.commands)
        } else {
            0
        }),
{
    let binary = resolve_discovery_binary(binary_override, env, candidates);
    if config.is_dir {
        OmpDiscovery {
            binary,
            config_dir: resolve_config_dir(config_override, work_dir),
            command_count: count_workspace_commands(config.commands),
        }
    } else {
        OmpDiscovery { binary, config_dir: None, command_count: 0 }
    }
}

// ---------------------------------------------------------------------------
// The launch
// ---------------------------------------------------------------------------

/// A path that the user configured, and whether a file is there.
#[derive(Debug, PartialEq, Eq)]
pub struct ConfiguredPath {
    pub path: PathBuf,
    pub is_file: bool,
}

/// How the child is started.
#[derive(Clone, Debug, PartialEq, Eq)]
pub struct OmpCommand {
    pub program: PathBuf,
    pub prefix_args: Vec<String>,
}

impl OmpCommand {
    /// The command for the binary that is found.
    pub fn resolved(env: Option<PathBuf>, candidates: &Vec<ProbedPath>) -> (command: OmpCommand)
        ensures
            command.program == launched_binary(env, candidates@),
            command.prefix_args@.len() == 0,
    {
        OmpCommand { program: resolve_omp_binary(env, candidates), prefix_args: Vec::new() }
    }

    /// The command for a new session: for the configured binary where one is set
    /// and a file is there, else for the one that is found.
    pub fn from_settings(
        configured: Option<ConfiguredPath>,
        env: Option<PathBuf>,
        candidates: &Vec<ProbedPath>,
    ) -> (command: OmpCommand)
        ensures
            command.program == (match configured {
                Some(binary) => if binary.is_file {
                    binary.path
                } else {
                    launched_binary(env, candidates@)
                },
                None => launched_binary(env, candidates@),
            }),
            command.prefix_args@.len() == 0,
    {
        match configured {
            Some(binary) if binary.is_file => OmpCommand {
                program: binary.path,
                prefix_args: Vec::new(),
            },
            _ => Self::resolved(env, candidates),
        }
    }
}

/// An argument of the child.
#[derive(Debug, PartialEq, Eq)]
pub enum LaunchArg {
    Text(String),
    Path(PathBuf),
}

/// What a [`LaunchArg`] stands for.
#[verifier::ext_equal]
pub enum LaunchArgView {
    Text(Seq<char>),
    Path(PathBuf),
}

impl View for LaunchArg {
    type V = LaunchArgView;

    open spec fn view(&self) -> LaunchArgView {
        match self {
            LaunchArg::Text(text) => LaunchArgView::Text(text@),
            LaunchArg::Path(path) => LaunchArgView::Path(*path),
        }
    }
}

/// The arguments of the child, as what they stand for.
pub open spec fn launch_arg_views(args: Seq<LaunchArg>) -> Seq<LaunchArgView> {
    Seq::new(args.len(), |i: int| args[i]@)
}

/// The arguments of the child: those of the command, and then the mode, the
/// workspace, and that every tool call is to be asked for.
pub open spec fn session_args(prefix: Seq<Seq<char>>, work_dir: PathBuf) -> Seq<LaunchArgView> {
    Seq::new(prefix.len(), |i: int| LaunchArgView::Text(prefix[i])) + seq![
        LaunchArgView::Text("--mode"@),
        LaunchArgView::Text("rpc-ui"@),
        LaunchArgView::Text("--cwd"@),
        LaunchArgView::Path(work_dir),
        LaunchArgView::Text("--approval-mode"@),
        LaunchArgView::Text("always-ask"@),
    ]
}

/// A child that is to be started for a session.
#[derive(Debug, PartialEq, Eq)]
pub struct SessionLaunch {
    pub program: PathBuf,
    pub args: Vec<LaunchArg>,
    pub current_dir: PathBuf,
    /// The directories in which the child searches for programs.
    pub search_path: Vec<PathBuf>,
    pub stdin: TaskStream,
    pub stdout: TaskStream,
    pub stderr: TaskStream,
}

impl SessionLaunch {
    /// The child of a session in `work_dir`, with all three standard streams
    /// piped. It searches `paths` and then the directories in which tools are
    /// usually installed.
    pub fn new(
        command: &OmpCommand,
        work_dir: &PathBuf,
        paths: Vec<PathBuf>,
        home: Option<&PathBuf>,
    ) -> (launch: SessionLaunch)
        ensures
            launch.program == command.program,
            launch_arg_views(launch.args@) == session_args(
                command.prefix_args.deep_view(),
                *work_dir,
            ),
            launch.current_dir == *work_dir,
            launch.search_path@ == with_dirs(paths@, tool_dir_paths(owned_path(home))),
            launch.stdin == TaskStream::Piped,
            launch.stdout == TaskStream::Piped,
            launch.stderr == TaskStream::Piped,
    {
        let mut args: Vec<LaunchArg> = Vec::new();
        let ghost prefix = command.prefix_args.deep_view();
        let mut i: usize = 0;
        while i < command.prefix_args.len()
            invariant
                i <= command.prefix_args@.len(),
                prefix == command.prefix_args.deep_view(),
                args@.len() == i,
                forall|j: int|
                    0 <= j < i ==> (#[trigger] args@[j])@ == LaunchArgView::Text(prefix[j]),
            decreases command.prefix_args@.len() - i,
        {
            args.push(LaunchArg::Text(command.prefix_args[i].clone()));
            i = i + 1;
        }
        args.push(LaunchArg::Text("--mode".to_owned()));
        args.push(LaunchArg::Text("rpc-ui".to_owned()));
        args.push(LaunchArg::Text("--cwd".to_owned()));
        args.push(LaunchArg::Path(work_dir.clone()));
        args.push(LaunchArg::Text("--approval-mode".to_owned()));
        args.push(LaunchArg::Text("always-ask".to_owned()));
        SessionLaunch {
            program: command.program.clone(),
            args,
            current_dir: work_dir.clone(),
            search_path: augmented_path(paths, common_tool_dirs(home)),
            stdin: TaskStream::Piped,
            stdout: TaskStream::Piped,
            stderr: TaskStream::Piped,
        }
    }
}

/// Every child is told to work in the workspace and to ask for approval, and runs
/// in the workspace.
pub proof fn sessions_always_ask(prefix: Seq<Seq<char>>, work_dir: PathBuf)
    ensures
        ({
            let args = session_args(prefix, work_dir);
            let count = prefix.len() as int;
            &&& args.len() == count + 6
            &&& args[count + 2] == LaunchArgView::Text("--cwd"@)
            &&& args[count + 3] == LaunchArgView::Path(work_dir)
            &&& args[count + 4] == LaunchArgView::Text("--approval-mode"@)
            &&& args[count + 5] == LaunchArgView::Text("always-ask"@)
        }),
{
}

// ---------------------------------------------------------------------------
// What is found
// ---------------------------------------------------------------------------

/// The first path at which something is has something, and none before it has;
/// where none is found, none has.
pub proof fn the_first_that_exists_is_found(candidates: Seq<ProbedPath>)
    ensures
        first_existing(candidates) is None <==> forall|i: int|
            0 <= i < candidates.len() ==> !(#[trigger] candidates[i]).exists,
        first_existing(candidates) matches Some(path) ==> exists|i: int|
            0 <= i < candidates.len() && (#[trigger] candidates[i]).exists && candidates[i].path
                == path && forall|j: int| 0 <= j < i ==> !(#[trigger] candidates[j]).exists,
    decreases candidates.len(),
{
    if candidates.len() > 0 && !candidates[0].exists {
        let rest = candidates.drop_first();
        the_first_that_exists_is_found(rest);
        if first_existing(rest) is None {
            assert forall|i: int| 0 <= i < candidates.len() implies !(
            #[trigger] candidates[i]).exists by {
                if i > 0 {
                    assert(rest[i - 1] == candidates[i]);
                }
            }
        } else {
            let path = first_existing(rest)->0;
            let i = choose|i: int|
                0 <= i < rest.len() && (#[trigger] rest[i]).exists && rest[i].path == path
                    && forall|j: int| 0 <= j < i ==> !(#[trigger] rest[j]).exists;
            assert(candidates[i + 1] == rest[i]);
            assert forall|j: int| 0 <= j < i + 1 implies !(#[trigger] candidates[j]).exists by {
                if j > 0 {
                    assert(rest[j - 1] == candidates[j]);
                }
            }
        }
    } else if candidates.len() > 0 {
        assert(candidates[0].exists);
    }
}

/// Tools are usually installed in two shared directories and, where the home is
/// known, in two below it.
pub proof fn tools_are_in_the_usual_places(home: PathBuf)
    ensures
        tool_dir_paths(None) == seq![text_path("/opt/homebrew/bin"@), text_path("/usr/local/bin"@)],
        tool_dir_paths(Some(home)) == seq![
            text_path("/opt/homebrew/bin"@),
            text_path("/usr/local/bin"@),
            joined_path(home, text_path(".bun/bin"@)),
            joined_path(home, text_path(".local/bin"@)),
        ],
{
    assert(tool_dir_paths(None) =~= seq![
        text_path("/opt/homebrew/bin"@),
        text_path("/usr/local/bin"@),
    ]);
    assert(tool_dir_paths(Some(home)) =~= seq![
        text_path("/opt/homebrew/bin"@),
        text_path("/usr/local/bin"@),
        joined_path(home, text_path(".bun/bin"@)),
        joined_path(home, text_path(".local/bin"@)),
    ]);
}

/// A name is looked for below each directory, in their order.
pub proof fn a_name_is_looked_for_in_each(dirs: Seq<PathBuf>, name: Seq<char>, i: int)
    ensures
        below_each(dirs, name).len() == dirs.len(),
        0 <= i < dirs.len() ==> below_each(dirs, name)[i] == joined_path(dirs[i], text_path(name)),
{
}

/// Every directory that was to be added is on the search path, itself or one that is
/// the same; what was added is one of those, and the same as none before it.
pub proof fn every_tool_dir_is_on_the_search_path(
    paths: Seq<PathBuf>,
    dirs: Seq<PathBuf>,
    i: int,
    j: int,
)
    ensures
        0 <= i < dirs.len() ==> exists|k: int|
            0 <= k < with_dirs(paths, dirs).len() && (#[trigger] with_dirs(paths, dirs)[k]
                == dirs[i] || equal_paths(with_dirs(paths, dirs)[k], dirs[i])),
        paths.len() <= j < with_dirs(paths, dirs).len() ==> dirs.contains(
            with_dirs(paths, dirs)[j],
        ) && forall|k: int|
            0 <= k < j ==> !equal_paths(
                #[trigger] with_dirs(paths, dirs)[k],
                with_dirs(paths, dirs)[j],
            ),
        0 <= j < paths.len() ==> with_dirs(paths, dirs)[j] == paths[j],
    decreases dirs.len(),
{
    augmenting_keeps_the_search_path(paths, dirs);
    let after = with_dirs(paths, dirs);
    if dirs.len() > 0 {
        let rest = dirs.drop_last();
        let before = with_dirs(paths, rest);
        augmenting_keeps_the_search_path(paths, rest);
        every_tool_dir_is_on_the_search_path(paths, rest, i, j);
        if 0 <= i < rest.len() {
            let k = choose|k: int|
                0 <= k < before.len() && (#[trigger] before[k] == rest[i] || equal_paths(
                    before[k],
                    rest[i],
                ));
            assert(after[k] == before[k]);
        } else if i == rest.len() {
            if listed(before, dirs.last()) {
                let k = choose|k: int|
                    0 <= k < before.len() && equal_paths(#[trigger] before[k], dirs.last());
                assert(after[k] == before[k]);
            } else {
                assert(after[before.len() as int] == dirs[i]);
            }
        }
        if paths.len() <= j < after.len() {
            if j < before.len() {
                assert(after[j] == before[j]);
                let at = choose|at: int| 0 <= at < rest.len() && rest[at] == before[j];
                assert(dirs[at] == after[j]);
                assert forall|k: int| 0 <= k < j implies !equal_paths(
                    #[trigger] after[k],
                    after[j],
                ) by {
                    assert(after[k] == before[k]);
                }
            } else {
                assert(after[j] == dirs[dirs.len() - 1]);
                assert forall|k: int| 0 <= k < j implies !equal_paths(
                    #[trigger] after[k],
                    after[j],
                ) by {
                    assert(after[k] == before[k]);
                }
            }
        }
    }
}

/// The binary that is launched is the one that the environment names, whether it is
/// there or not; else the first candidate that is there; else the bare name, which
/// the system looks for.
pub proof fn the_named_binary_is_launched(
    named: PathBuf,
    candidates: Seq<ProbedPath>,
    i: int,
)
    ensures
        launched_binary(Some(named), candidates) == named,
        (forall|j: int| 0 <= j < candidates.len() ==> !(#[trigger] candidates[j]).exists)
            ==> launched_binary(None, candidates) == text_path("omp"@),
        0 <= i < candidates.len() && candidates[i].exists && (forall|j: int|
            0 <= j < i ==> !(#[trigger] candidates[j]).exists) ==> launched_binary(None, candidates)
            == candidates[i].path,
{
    the_first_that_exists_is_found(candidates);
    if first_existing(candidates) is Some && 0 <= i < candidates.len() && candidates[i].exists && (
    forall|j: int| 0 <= j < i ==> !(#[trigger] candidates[j]).exists) {
        let path = first_existing(candidates)->0;
        let found = choose|found: int|
            0 <= found < candidates.len() && (#[trigger] candidates[found]).exists
                && candidates[found].path == path && forall|j: int|
                0 <= j < found ==> !(#[trigger] candidates[j]).exists;
        assert(found == i);
    }
}

/// A binary that is shown is there. The configured one comes first; one that the
/// environment names is not replaced where it is missing; else it is the first
/// candidate that is there.
pub proof fn only_what_is_there_is_shown(
    configured: Option<ProbedPath>,
    env: Option<ProbedPath>,
    candidates: Seq<ProbedPath>,
    i: int,
)
    ensures
        ({
            let found = discovered_binary(configured, env, candidates);
            let usable = configured is Some && configured->0.exists;
            &&& usable ==> found == Some(configured->0.path)
            &&& !usable && env is Some && env->0.exists ==> found == Some(env->0.path)
            &&& !usable && env is Some && !env->0.exists ==> found is None
            &&& !usable && env is None && (forall|j: int|
                0 <= j < candidates.len() ==> !(#[trigger] candidates[j]).exists) ==> found is None
            &&& !usable && env is None && 0 <= i < candidates.len() && candidates[i].exists && (
            forall|j: int| 0 <= j < i ==> !(#[trigger] candidates[j]).exists) ==> found == Some(
                candidates[i].path,
            )
        }),
        present_binary(env, candidates) == discovered_binary(None, env, candidates),
{
    the_first_that_exists_is_found(candidates);
    the_named_binary_is_launched(text_path("omp"@), candidates, i);
}

/// A setting gives the path that its text names, without the white space around it,
/// and none where it is not set or blank.
pub proof fn blank_settings_give_no_path(raw: String)
    ensures
        setting_path(None) is None,
        setting_path(Some(raw)) is None <==> forall|i: int|
            0 <= i < raw@.len() ==> crate::text::white_space(#[trigger] raw@[i]),
        setting_path(Some(raw)) matches Some(path) ==> path == text_path(trimmed(raw@)),
{
    crate::text::trimmed_is_empty_iff_blank(raw@);
}

/// The config directory is the configured one where it is absolute, else the
/// configured one below the workspace, else `.omp` below the workspace.
pub proof fn the_config_dir_is_where_it_is_configured(configured: PathBuf, work_dir: PathBuf)
    ensures
        absolute_path(configured) ==> config_dir_path(Some(configured), work_dir) == configured,
        !absolute_path(configured) ==> config_dir_path(Some(configured), work_dir) == joined_path(
            work_dir,
            configured,
        ),
        config_dir_path(None, work_dir) == joined_path(work_dir, text_path(".omp"@)),
        chosen_config_dir(Some(configured), true) == ConfigDirChoice::At(configured),
        chosen_config_dir(Some(configured), false) == ConfigDirChoice::Below(configured),
{
}

/// Files are counted one by one: an entry counts for one where it is known to be a
/// file, else for nothing, and two lists count for what they count for together.
pub proof fn files_are_counted_one_by_one(
    left: Seq<Option<bool>>,
    right: Seq<Option<bool>>,
)
    ensures
        file_count(Seq::empty()) == 0,
        file_count(seq![Some(true)]) == 1,
        file_count(seq![Some(false)]) == 0,
        file_count(seq![None::<bool>]) == 0,
        file_count(left + right) == file_count(left) + file_count(right),
    decreases right.len(),
{
    reveal_with_fuel(file_count, 2);
    assert(seq![Some(true)].drop_last() =~= Seq::empty());
    assert(seq![Some(false)].drop_last() =~= Seq::empty());
    assert(seq![None::<bool>].drop_last() =~= Seq::empty());
    if right.len() == 0 {
        assert(left + right =~= left);
    } else {
        files_are_counted_one_by_one(left, right.drop_last());
        assert((left + right).drop_last() =~= left + right.drop_last());
    }
}

/// A workspace has as many commands as there are files in its list, and none where
/// the list could not be read.
pub proof fn commands_are_files(entries: Vec<Option<bool>>)
    ensures
        command_count_of(None) == 0,
        command_count_of(Some(entries)) == file_count(entries@),
{
}

/// The status tells what is missing first: the binary, then the config, and else how
/// many commands there are.
pub proof fn the_status_tells_what_is_missing(discovery: OmpDiscovery)
    ensures
        discovery.binary is None ==> discovery.status()
            == "OMP binary not found — install omp or set its path in settings"@,
        discovery.binary is Some && discovery.config_dir is None ==> discovery.status()
            == "OMP ready · no workspace config"@,
        discovery.binary is Some && discovery.config_dir is Some && discovery.command_count == 0
            ==> discovery.status() == "OMP ready · workspace config found"@,
        discovery.binary is Some && discovery.config_dir is Some && discovery.command_count == 1
            ==> discovery.status() == "OMP ready · 1 workspace command"@,
        discovery.binary is Some && discovery.config_dir is Some && discovery.command_count > 1
            ==> discovery.status() == "OMP ready · "@ + decimal_text(
            discovery.command_count as nat,
        ) + " workspace commands"@,
{
}

/// A child is given the arguments of its command first, in their order, and then the
/// mode, the workspace and the approval that it is to ask for.
pub proof fn children_are_told_what_to_do(prefix: Seq<Seq<char>>, work_dir: PathBuf, i: int)
    ensures
        ({
            let args = session_args(prefix, work_dir);
            let count = prefix.len() as int;
            &&& args.len() == count + 6
            &&& 0 <= i < count ==> args[i] == LaunchArgView::Text(prefix[i])
            &&& args[count] == LaunchArgView::Text("--mode"@)
            &&& args[count + 1] == LaunchArgView::Text("rpc-ui"@)
            &&& args[count + 2] == LaunchArgView::Text("--cwd"@)
            &&& args[count + 3] == LaunchArgView::Path(work_dir)
            &&& args[count + 4] == LaunchArgView::Text("--approval-mode"@)
            &&& args[count + 5] == LaunchArgView::Text("always-ask"@)
        }),
{
}

/// Arguments stand for what they hold.
pub proof fn arguments_stand_for_what_they_hold(
    text: String,
    path: PathBuf,
    args: Seq<LaunchArg>,
    i: int,
)
    ensures
        LaunchArg::Text(text)@ == LaunchArgView::Text(text@),
        LaunchArg::Path(path)@ == LaunchArgView::Path(path),
        launch_arg_views(args).len() == args.len(),
        0 <= i < args.len() ==> launch_arg_views(args)[i] == args[i]@,
        owned_path(None) is None,
        owned_path(Some(&path)) == Some(path),
{
}

} // verus!
