//! Typed reading of a parsed manifest document.
//!
//! `ManifestConfig` is the shape the execution core consumes: every section
//! and key it names must be present, and a manifest text that lacks one is
//! malformed. Lookups take the first section or key of a given name; later
//! duplicates are ignored, as are unknown sections and keys.

use vstd::prelude::*;

use crate::errors::ConfigError;
use crate::parse::{
    doc_model, parse_manifest_doc, str_eq, strs_model, text_model, ManifestSection,
    ManifestValue, SectionModel, EntryModel, ValueModel,
};

verus! {

// ---------------------------------------------------------------------------
// Lookups over the document model
// ---------------------------------------------------------------------------

/// The first section of the given name, if any.
pub open spec fn find_section_model(d: Seq<SectionModel>, name: Seq<char>) -> Option<SectionModel>
    decreases d.len(),
{
    if d.len() == 0 {
        None
    } else if d[0].name == name {
        Some(d[0])
    } else {
        find_section_model(d.subrange(1, d.len() as int), name)
    }
}

/// The first value under the given key, if any.
pub open spec fn find_value_model(entries: Seq<EntryModel>, key: Seq<char>) -> Option<ValueModel>
    decreases entries.len(),
{
    if entries.len() == 0 {
        None
    } else if entries[0].key == key {
        Some(entries[0].value)
    } else {
        find_value_model(entries.subrange(1, entries.len() as int), key)
    }
}

/// The string under `sec.key`, if that section and key exist and the value
/// is a quoted string.
pub open spec fn str_key(d: Seq<SectionModel>, sec: Seq<char>, key: Seq<char>) -> Option<
    Seq<char>,
> {
    match find_section_model(d, sec) {
        Some(s) => match find_value_model(s.entries, key) {
            Some(ValueModel::Str(v)) => Some(v),
            _ => None,
        },
        None => None,
    }
}

/// The list under `sec.key`, if that section and key exist and the value
/// is a list.
pub open spec fn list_key(d: Seq<SectionModel>, sec: Seq<char>, key: Seq<char>) -> Option<
    Seq<Seq<char>>,
> {
    match find_section_model(d, sec) {
        Some(s) => match find_value_model(s.entries, key) {
            Some(ValueModel::List(v)) => Some(v),
            _ => None,
        },
        None => None,
    }
}

/// First section of the given name in a parsed document.
pub fn find_section<'a>(d: &'a Vec<ManifestSection>, name: &str) -> (r: Option<
    &'a ManifestSection,
>)
    ensures
        match r {
            Some(s) => find_section_model(doc_model(d@), name@) == Some(s.model()),
            None => find_section_model(doc_model(d@), name@) is None,
        },
{
    let n = d.len();
    let mut i: usize = 0;
    proof {
        assert(doc_model(d@).subrange(0, doc_model(d@).len() as int) =~= doc_model(d@));
    }
    while i < n
        invariant
            i <= n,
            n == d@.len(),
            find_section_model(doc_model(d@), name@) == find_section_model(
                doc_model(d@).subrange(i as int, n as int),
                name@,
            ),
        decreases n - i,
    {
        let ghost sub = doc_model(d@).subrange(i as int, n as int);
        proof {
            assert(sub[0] == d@[i as int].model());
        }
        if str_eq(d[i].name.as_str(), name) {
            return Some(&d[i]);
        }
        proof {
            assert(sub.subrange(1, sub.len() as int) =~= doc_model(d@).subrange(
                i + 1,
                n as int,
            ));
        }
        i += 1;
    }
    proof {
        assert(doc_model(d@).subrange(n as int, n as int) =~= Seq::<SectionModel>::empty());
    }
    None
}

/// First value under the given key in a section.
pub fn find_value<'a>(entries: &'a Vec<crate::parse::ManifestEntry>, key: &str) -> (r: Option<
    &'a ManifestValue,
>)
    ensures
        (match r {
            Some(v) => find_value_model(
                entries@.map_values(|e: crate::parse::ManifestEntry| e.model()),
                key@,
            ) == Some(v.model()),
            None => find_value_model(
                entries@.map_values(|e: crate::parse::ManifestEntry| e.model()),
                key@,
            ) is None,
        }),
{
    let ghost em = entries@.map_values(|e: crate::parse::ManifestEntry| e.model());
    let n = entries.len();
    let mut i: usize = 0;
    proof {
        assert(em.subrange(0, em.len() as int) =~= em);
    }
    while i < n
        invariant
            i <= n,
            n == entries@.len(),
            em == entries@.map_values(|e: crate::parse::ManifestEntry| e.model()),
            find_value_model(em, key@) == find_value_model(
                em.subrange(i as int, n as int),
                key@,
            ),
        decreases n - i,
    {
        let ghost sub = em.subrange(i as int, n as int);
        proof {
            assert(sub[0] == entries@[i as int].model());
        }
        if str_eq(entries[i].key.as_str(), key) {
            return Some(&entries[i].value);
        }
        proof {
            assert(sub.subrange(1, sub.len() as int) =~= em.subrange(i + 1, n as int));
        }
        i += 1;
    }
    proof {
        assert(em.subrange(n as int, n as int) =~= Seq::<EntryModel>::empty());
    }
    None
}

/// Copies a vector of strings.
pub fn clone_strings(v: &Vec<String>) -> (r: Vec<String>)
    ensures
        r@ == v@,
{
    let r = v.clone();
    proof {
        assert(r@ =~= v@);
    }
    r
}

/// The string under `sec.key` of a parsed document, if present.
pub fn get_str(d: &Vec<ManifestSection>, sec: &str, key: &str) -> (r: Option<String>)
    ensures
        match r {
            Some(s) => str_key(doc_model(d@), sec@, key@) == Some(s@),
            None => str_key(doc_model(d@), sec@, key@) is None,
        },
{
    match find_section(d, sec) {
        Some(s) => match find_value(&s.entries, key) {
            Some(val) => match val {
                ManifestValue::Str(v) => Some(v.clone()),
                ManifestValue::List(_) => None,
            },
            None => None,
        },
        None => None,
    }
}

/// The list under `sec.key` of a parsed document, if present.
pub fn get_list(d: &Vec<ManifestSection>, sec: &str, key: &str) -> (r: Option<Vec<String>>)
    ensures
        match r {
            Some(v) => list_key(doc_model(d@), sec@, key@) == Some(strs_model(v@)),
            None => list_key(doc_model(d@), sec@, key@) is None,
        },
{
    match find_section(d, sec) {
        Some(s) => match find_value(&s.entries, key) {
            Some(val) => match val {
                ManifestValue::Str(_) => None,
                ManifestValue::List(v) => Some(clone_strings(v)),
            },
            None => None,
        },
        None => None,
    }
}

// ---------------------------------------------------------------------------
// The typed manifest the execution core consumes
// ---------------------------------------------------------------------------

/// The `[project]` section: the project's name.
#[derive(Debug, Clone)]
pub struct ProjectConfig {
    pub name: String,
}

/// The `[container]` section: the container runtime reference.
#[derive(Debug, Clone)]
pub struct ContainerConfig {
    pub name: String,
}

/// The `[workspace]` section: the workspace name and its ignore globs.
#[derive(Debug, Clone)]
pub struct WorkspaceConfig {
    pub name: String,
    pub ignore: Vec<String>,
}

/// The `[command]` section: the shell commands to run, in order.
#[derive(Debug, Clone)]
pub struct CommandConfig {
    pub cmds: Vec<String>,
}

/// A fully resolved manifest: every section the execution core reads is
/// present.
#[derive(Debug, Clone)]
pub struct ManifestConfig {
    pub project: ProjectConfig,
    pub container: ContainerConfig,
    pub workspace: WorkspaceConfig,
    pub command: CommandConfig,
}

/// Model of a fully resolved manifest.
pub struct ManifestConfigModel {
    pub project_name: Seq<char>,
    pub container_name: Seq<char>,
    pub workspace_name: Seq<char>,
    pub ignore: Seq<Seq<char>>,
    pub cmds: Seq<Seq<char>>,
}

impl ManifestConfig {
    pub open spec fn model(self) -> ManifestConfigModel {
        ManifestConfigModel {
            project_name: self.project.name@,
            container_name: self.container.name@,
            workspace_name: self.workspace.name@,
            ignore: strs_model(self.workspace.ignore@),
            cmds: strs_model(self.command.cmds@),
        }
    }
}

/// The resolved manifest a document yields, or `None` when a section or
/// key the execution core needs is absent or of the wrong shape.
pub open spec fn typed_model(d: Seq<SectionModel>) -> Option<ManifestConfigModel> {
    let pn = str_key(d, "project"@, "name"@);
    let cn = str_key(d, "container"@, "name"@);
    let wn = str_key(d, "workspace"@, "name"@);
    let ig = list_key(d, "workspace"@, "ignore"@);
    let cm = list_key(d, "command"@, "cmds"@);
    if pn is Some && cn is Some && wn is Some && ig is Some && cm is Some {
        Some(ManifestConfigModel {
            project_name: pn->Some_0,
            container_name: cn->Some_0,
            workspace_name: wn->Some_0,
            ignore: ig->Some_0,
            cmds: cm->Some_0,
        })
    } else {
        None
    }
}

/// The resolved manifest a whole document text yields, if it parses and
/// holds everything required.
pub open spec fn manifest_model(text: Seq<char>) -> Option<ManifestConfigModel> {
    match text_model(text) {
        Some(d) => typed_model(d),
        None => None,
    }
}

impl ManifestConfig {
    /// Reads the required sections and keys out of a parsed document.
    pub fn from_doc(d: &Vec<ManifestSection>) -> (r: Result<ManifestConfig, ConfigError>)
        ensures
            match r {
                Ok(m) => typed_model(doc_model(d@)) == Some(m.model()),
                Err(e) => e == ConfigError::Malformed && typed_model(doc_model(d@)) is None,
            },
    {
        let pn = get_str(d, "project", "name");
        let cn = get_str(d, "container", "name");
        let wn = get_str(d, "workspace", "name");
        let ig = get_list(d, "workspace", "ignore");
        let cm = get_list(d, "command", "cmds");
        match (pn, cn, wn, ig, cm) {
            (Some(project_name), Some(container_name), Some(workspace_name), Some(ignore), Some(
                cmds,
            )) => Ok(
                ManifestConfig {
                    project: ProjectConfig { name: project_name },
                    container: ContainerConfig { name: container_name },
                    workspace: WorkspaceConfig { name: workspace_name, ignore },
                    command: CommandConfig { cmds },
                },
            ),
            _ => Err(ConfigError::Malformed),
        }
    }

    /// The manifest loader: `contents` is the text of the manifest file,
    /// or `None` when the file is absent. Absence yields `NotFound`; text
    /// that does not parse, or lacks a required section or key, yields
    /// `Malformed`.
    pub fn load(contents: Option<&str>) -> (r: Result<ManifestConfig, ConfigError>)
        ensures
            match contents {
                None => r == Err::<ManifestConfig, ConfigError>(ConfigError::NotFound),
                Some(text) => match r {
                    Ok(m) => manifest_model(text@) == Some(m.model()),
                    Err(e) => e == ConfigError::Malformed && manifest_model(text@) is None,
                },
            },
    {
        match contents {
            None => Err(ConfigError::NotFound),
            Some(text) => match parse_manifest_doc(text) {
                Ok(d) => ManifestConfig::from_doc(&d),
                Err(e) => Err(e),
            },
        }
    }
}

} // verus!
