//! Workspace configuration: the resolved home and working directory, the
//! command options, the reserved-name path validator, and the all-optional
//! manifest shape used as an in-memory default.
//!
//! Home and working directory are resolved by the caller at process start
//! and handed in as plain strings; the library never touches the
//! environment itself.

use vstd::prelude::*;

use crate::errors::{ConfigError, PathError};
use crate::manifest::{find_section_model, list_key, str_key};
use crate::parse::{
    doc_model, parse_manifest_doc, str_eq, strs_model, text_model, ManifestSection,
    SectionModel,
};

verus! {

// ---------------------------------------------------------------------------
// Path validation
// ---------------------------------------------------------------------------

/// The characters after the last `/` of a path; the whole path when it has
/// no `/`, empty when it ends with one.
pub open spec fn final_component(p: Seq<char>) -> Seq<char>
    decreases p.len(),
{
    if p.len() == 0 {
        p
    } else if p[p.len() - 1] == '/' {
        Seq::empty()
    } else {
        final_component(p.subrange(0, p.len() - 1)).push(p[p.len() - 1])
    }
}

/// Names reserved for the tool's own bookkeeping paths.
pub open spec fn reserved(s: Seq<char>) -> bool {
    ||| s == ".bifrost"@
    ||| s == "bifrost"@
    ||| s == ".config"@
    ||| s == "config"@
    ||| s == "container"@
    ||| s == "dockerfile"@
    ||| s == "Docker"@
    ||| s == "Dockerfile"@
    ||| s == "test"@
}

/// A path is acceptable when its final component is non-empty, is not a
/// reserved name, and does not begin with `.`.
pub open spec fn path_ok(p: Seq<char>) -> bool {
    let c = final_component(p);
    c.len() > 0 && !reserved(c) && c[0] != '.'
}

/// A position after the last `/`, with nothing but non-`/` behind it, pins
/// down the final component.
proof fn lemma_final_component_at(p: Seq<char>, k: int)
    requires
        0 <= k <= p.len(),
        forall|j: int| k <= j < p.len() ==> p[j] != '/',
        k > 0 ==> p[k - 1] == '/',
    ensures
        final_component(p) == p.subrange(k, p.len() as int),
    decreases p.len(),
{
    if k == p.len() {
        if p.len() == 0 {
            assert(p.subrange(0, 0) =~= p);
        } else {
            assert(p[p.len() - 1] == '/');
            assert(p.subrange(k, p.len() as int) =~= Seq::<char>::empty());
        }
    } else {
        assert(p[p.len() - 1] != '/');
        let prefix = p.subrange(0, p.len() - 1);
        lemma_final_component_at(prefix, k);
        assert(prefix.subrange(k, prefix.len() as int).push(p[p.len() - 1]) =~= p.subrange(
            k,
            p.len() as int,
        ));
    }
}

/// A path accepted by the validator: its final component avoids every
/// reserved bookkeeping name.
#[derive(Debug, Clone)]
pub struct BifrostPath {
    pub path: String,
}

impl BifrostPath {
    /// Validates a proposed destination path. `Empty` when the final
    /// component is empty, `Reserved` when it is a reserved name or
    /// begins with `.`.
    pub fn new(path: &str) -> (r: Result<BifrostPath, PathError>)
        ensures
            match r {
                Ok(b) => path_ok(path@) && b.path@ == path@,
                Err(PathError::Empty) => final_component(path@).len() == 0,
                Err(PathError::Reserved) => {
                    let c = final_component(path@);
                    c.len() > 0 && (reserved(c) || c[0] == '.')
                },
            },
    {
        let n = path.unicode_len();
        let mut k: usize = n;
        while k > 0 && path.get_char(k - 1) != '/'
            invariant
                k <= n,
                n == path@.len(),
                forall|j: int| k <= j < n ==> path@[j] != '/',
            decreases k,
        {
            k -= 1;
        }
        proof {
            lemma_final_component_at(path@, k as int);
        }
        let comp = path.substring_char(k, n);
        if comp.unicode_len() == 0 {
            return Err(PathError::Empty);
        }
        if str_eq(comp, ".bifrost") || str_eq(comp, "bifrost") || str_eq(comp, ".config")
            || str_eq(comp, "config") || str_eq(comp, "container") || str_eq(comp, "dockerfile")
            || str_eq(comp, "Docker") || str_eq(comp, "Dockerfile") || str_eq(comp, "test") {
            return Err(PathError::Reserved);
        }
        if comp.get_char(0) == '.' {
            return Err(PathError::Reserved);
        }
        Ok(BifrostPath { path: String::from_str(path) })
    }
}

// ---------------------------------------------------------------------------
// Command options
// ---------------------------------------------------------------------------

/// Options of the `load` subcommand: a source and a validated destination.
#[derive(Debug, Clone)]
pub struct LoadOptions {
    pub src: String,
    pub dst: BifrostPath,
}

/// Options of the `show` subcommand.
#[derive(Debug, Clone)]
pub struct ShowOptions {
    pub path: BifrostPath,
}

/// Options of the `run` subcommand.
#[derive(Debug, Clone)]
pub struct RunOptions {
    pub path: BifrostPath,
}

/// Options of the `unload` subcommand.
#[derive(Debug, Clone)]
pub struct UnloadOptions {
    pub path: BifrostPath,
}

/// The parsed subcommand, with its options.
#[derive(Debug, Clone)]
pub enum CommandOptions {
    Load(LoadOptions),
    Show(ShowOptions),
    Run(RunOptions),
    Unload(UnloadOptions),
}

// ---------------------------------------------------------------------------
// The all-optional manifest shape and its defaults
// ---------------------------------------------------------------------------

/// `[project]` with every key optional.
#[derive(Debug, Clone)]
pub struct ProjectSettings {
    pub name: Option<String>,
}

/// `[container]` with every key optional.
#[derive(Debug, Clone)]
pub struct ContainerSettings {
    pub name: Option<String>,
}

/// `[workspace]` with every key optional.
#[derive(Debug, Clone)]
pub struct WorkspaceSettings {
    pub name: Option<String>,
    pub ignore: Option<Vec<String>>,
}

/// `[command]` with every key optional.
#[derive(Debug, Clone)]
pub struct CommandSettings {
    pub cmd: Option<Vec<String>>,
}

/// A manifest in which every section and key may be absent; absence means
/// "use defaults". A key of the wrong shape counts as absent.
#[derive(Debug, Clone)]
pub struct BifrostManifest {
    pub project: Option<ProjectSettings>,
    pub container: Option<ContainerSettings>,
    pub workspace: Option<WorkspaceSettings>,
    pub command: Option<CommandSettings>,
}

/// The characters of an optional string.
pub open spec fn opt_str_model(o: Option<String>) -> Option<Seq<char>> {
    match o {
        Some(s) => Some(s@),
        None => None,
    }
}

/// The character sequences of an optional list of strings.
pub open spec fn opt_strs_model(o: Option<Vec<String>>) -> Option<Seq<Seq<char>>> {
    match o {
        Some(v) => Some(strs_model(v@)),
        None => None,
    }
}

/// How an all-optional manifest reflects a document: a section is present
/// exactly when the document has it, and each field holds the string or
/// list found under its key.
pub open spec fn manifest_matches_doc(m: BifrostManifest, d: Seq<SectionModel>) -> bool {
    &&& (m.project is Some) == (find_section_model(d, "project"@) is Some)
    &&& (m.project matches Some(p) ==> opt_str_model(p.name) == str_key(d, "project"@, "name"@))
    &&& (m.container is Some) == (find_section_model(d, "container"@) is Some)
    &&& (m.container matches Some(c) ==> opt_str_model(c.name) == str_key(
        d,
        "container"@,
        "name"@,
    ))
    &&& (m.workspace is Some) == (find_section_model(d, "workspace"@) is Some)
    &&& (m.workspace matches Some(w) ==> opt_str_model(w.name) == str_key(
        d,
        "workspace"@,
        "name"@,
    ) && opt_strs_model(w.ignore) == list_key(d, "workspace"@, "ignore"@))
    &&& (m.command is Some) == (find_section_model(d, "command"@) is Some)
    &&& (m.command matches Some(c) ==> opt_strs_model(c.cmd) == list_key(d, "command"@, "cmd"@))
}

impl BifrostManifest {
    /// Reads whatever sections and keys a parsed document offers.
    pub fn from_doc(d: &Vec<ManifestSection>) -> (m: BifrostManifest)
        ensures
            manifest_matches_doc(m, doc_model(d@)),
    {
        let project = match crate::manifest::find_section(d, "project") {
            Some(_) => Some(ProjectSettings { name: crate::manifest::get_str(d, "project", "name") }),
            None => None,
        };
        let container = match crate::manifest::find_section(d, "container") {
            Some(_) => Some(
                ContainerSettings { name: crate::manifest::get_str(d, "container", "name") },
            ),
            None => None,
        };
        let workspace = match crate::manifest::find_section(d, "workspace") {
            Some(_) => Some(
                WorkspaceSettings {
                    name: crate::manifest::get_str(d, "workspace", "name"),
                    ignore: crate::manifest::get_list(d, "workspace", "ignore"),
                },
            ),
            None => None,
        };
        let command = match crate::manifest::find_section(d, "command") {
            Some(_) => Some(
                CommandSettings { cmd: crate::manifest::get_list(d, "command", "cmd") },
            ),
            None => None,
        };
        BifrostManifest { project, container, workspace, command }
    }

    /// The manifest loader for the all-optional shape: `contents` is the
    /// text of the manifest file, or `None` when the file is absent.
    /// Absence yields `NotFound`, text that does not parse `Malformed`.
    pub fn load(contents: Option<&str>) -> (r: Result<BifrostManifest, ConfigError>)
        ensures
            match contents {
                None => r == Err::<BifrostManifest, ConfigError>(ConfigError::NotFound),
                Some(text) => match r {
                    Ok(m) => text_model(text@) is Some && manifest_matches_doc(
                        m,
                        text_model(text@)->Some_0,
                    ),
                    Err(e) => e == ConfigError::Malformed && text_model(text@) is None,
                },
            },
    {
        match contents {
            None => Err(ConfigError::NotFound),
            Some(text) => BifrostManifest::from_text(text),
        }
    }

    /// Parses a manifest text into the all-optional shape.
    pub fn from_text(text: &str) -> (r: Result<BifrostManifest, ConfigError>)
        ensures
            match r {
                Ok(m) => text_model(text@) is Some && manifest_matches_doc(
                    m,
                    text_model(text@)->Some_0,
                ),
                Err(e) => e == ConfigError::Malformed && text_model(text@) is None,
            },
    {
        match parse_manifest_doc(text) {
            Ok(d) => Ok(BifrostManifest::from_doc(&d)),
            Err(e) => Err(e),
        }
    }

    /// The documented default manifest, as a document text.
    pub fn default_text() -> (r: &'static str)
        ensures
            r@
                == "[project]\nname = \"project name\"\n\n[container]\nname = \"docker\"\n\n[workspace]\nname = \"name of current workspace\"\nignore = [\"target\", \".git\", \".gitignore\"]\n\n[command]\ncmd = [\"command string\"]\n"@,
    {
        "[project]\nname = \"project name\"\n\n[container]\nname = \"docker\"\n\n[workspace]\nname = \"name of current workspace\"\nignore = [\"target\", \".git\", \".gitignore\"]\n\n[command]\ncmd = [\"command string\"]\n"
    }

    /// The default manifest as an in-memory value, independent of any file:
    /// project "project name", container "docker", the documented ignore
    /// set, and a one-entry command list.
    pub fn default() -> (m: BifrostManifest)
        ensures
            m.project matches Some(p) && p.name matches Some(n) && (n@ == "project name"@),
            m.container matches Some(c) && c.name matches Some(n) && (n@ == "docker"@),
            m.workspace matches Some(w) && w.name matches Some(n) && w.ignore matches Some(v)
                && ((n@ == "name of current workspace"@) && (strs_model(v@) == seq![
                "target"@,
                ".git"@,
                ".gitignore"@,
            ])),
            m.command matches Some(c) && c.cmd matches Some(v) && (strs_model(v@) == seq![
                "command string"@,
            ]),
    {
        let mut ignore: Vec<String> = Vec::new();
        ignore.push(String::from_str("target"));
        ignore.push(String::from_str(".git"));
        ignore.push(String::from_str(".gitignore"));
        let mut cmd: Vec<String> = Vec::new();
        cmd.push(String::from_str("command string"));
        proof {
            assert(strs_model(ignore@) =~= seq!["target"@, ".git"@, ".gitignore"@]);
            assert(strs_model(cmd@) =~= seq!["command string"@]);
        }
        BifrostManifest {
            project: Some(ProjectSettings { name: Some(String::from_str("project name")) }),
            container: Some(ContainerSettings { name: Some(String::from_str("docker")) }),
            workspace: Some(
                WorkspaceSettings {
                    name: Some(String::from_str("name of current workspace")),
                    ignore: Some(ignore),
                },
            ),
            command: Some(CommandSettings { cmd: Some(cmd) }),
        }
    }
}

// ---------------------------------------------------------------------------
// The workspace configuration
// ---------------------------------------------------------------------------

/// The configuration captured once at process start: the resolved home
/// path and working directory, and whatever the command line supplied.
#[derive(Debug)]
pub struct Config {
    pub home_path: String,
    pub cwd: String,
    pub manifest: Option<BifrostManifest>,
    pub opts: Option<CommandOptions>,
    pub cli_args: Option<Vec<String>>,
    pub env_vars: Option<Vec<(String, String)>>,
}

impl Config {
    /// Builds a configuration from an already-resolved home path and
    /// working directory. Resolution happens at the process edge; a
    /// resolution failure is the caller's to report, so this constructor
    /// cannot fail.
    pub fn new(home_path: String, cwd: String) -> (c: Config)
        ensures
            c.home_path@ == home_path@,
            c.cwd@ == cwd@,
            c.manifest is None,
            c.opts is None,
            c.cli_args is None,
            c.env_vars is None,
    {
        Config { home_path, cwd, manifest: None, opts: None, cli_args: None, env_vars: None }
    }
}

/// The user's project root: its configuration, read-only after startup.
#[derive(Debug)]
pub struct WorkSpace {
    pub config: Config,
}

impl WorkSpace {
    /// Wraps a configuration as the workspace it describes.
    pub fn new(config: Config) -> (w: WorkSpace)
        ensures
            w.config == config,
    {
        WorkSpace { config }
    }
}

} // verus!
