//! The `run` operation: from the manifest file's text to a ready execution
//! session. The caller at the process edge reads the file (handing `None`
//! when it is absent), drives the returned session against the container
//! runtime, and prints the rendered result; everything decided in between
//! is here.

use vstd::prelude::*;

use crate::config::WorkSpace;
use crate::docker::{
    composed_command, mount_spec, DockerEnv, ExecPhase, ExecSession,
};
use crate::errors::ConfigError;
use crate::manifest::{manifest_model, ManifestConfig};
use crate::parse::strs_model;

verus! {

/// Where the manifest of a workspace is expected: `Bifrost.toml` in the
/// working directory.
pub fn manifest_path(ws: &WorkSpace) -> (r: String)
    ensures
        r@ == ws.config.cwd@ + "/Bifrost.toml"@,
{
    let mut r = ws.config.cwd.clone();
    r.append("/Bifrost.toml");
    r
}

/// Prepares one container execution for this workspace from the text of
/// its manifest file (`None` when the file is absent). An absent file is
/// `NotFound` and text that yields no usable manifest is `Malformed`; an
/// empty command list is a configuration error, since the execution core
/// requires commands to run. On success the session is in its initial
/// phase and carries exactly the invocation composed from the workspace's
/// home path and the manifest's commands.
pub fn run(ws: &WorkSpace, manifest_text: Option<&str>) -> (r: Result<ExecSession, ConfigError>)
    ensures
        match r {
            Ok(s) => {
                &&& manifest_text matches Some(t)
                &&& manifest_model(t@) matches Some(m)
                &&& m.cmds.len() > 0
                &&& s.phase == ExecPhase::Created
                &&& s.invocation.mounted_dir@ == mount_spec(ws.config.home_path@)
                &&& s.invocation.command_line@ == composed_command(m.cmds)
            },
            Err(ConfigError::NotFound) => manifest_text is None,
            Err(ConfigError::Malformed) => manifest_text matches Some(t) && (manifest_model(t@)
                is None || manifest_model(t@)->Some_0.cmds.len() == 0),
        },
{
    let m = match ManifestConfig::load(manifest_text) {
        Ok(m) => m,
        Err(e) => {
            return Err(e);
        },
    };
    if m.command.cmds.len() == 0 {
        return Err(ConfigError::Malformed);
    }
    let mut env = DockerEnv::new(ws);
    let ghost m_model = m.model();
    env.collect_commands(m);
    proof {
        assert(strs_model(env.cmds@) =~= m_model.cmds);
    }
    let invocation = env.compose_invocation();
    Ok(ExecSession::new(invocation))
}

} // verus!
