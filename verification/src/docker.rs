//! The workspace execution core.
//!
//! `DockerEnv` turns a workspace and a resolved manifest into one container
//! invocation: the bind-mount specification composed from the home path,
//! and a single shell command line that changes into the mounted directory
//! and runs the manifest's commands joined with `&&`. Joining with `&&` is
//! deliberate: when a command fails, the ones after it do not run, and the
//! failure surfaces only through the captured streams.
//!
//! `ExecSession` is the protocol of one execution: the driver at the
//! process edge spawns the child, writes the composed command line, drains
//! both streams, and reports each observation as an `ExecEvent`; every
//! decision — what to write, what to deliver, which error to return — is
//! taken here and verified.

use vstd::prelude::*;

use crate::config::WorkSpace;
use crate::errors::ExecError;
use crate::manifest::ManifestConfig;
use crate::parse::strs_model;

verus! {

// ---------------------------------------------------------------------------
// Composition
// ---------------------------------------------------------------------------

/// The bind-mount specification composed from a home path: the tool's
/// container directory under the home, mapped to the fixed in-container
/// working directory.
pub open spec fn mount_spec(home: Seq<char>) -> Seq<char> {
    home + "/.bifrost/container:/test"@
}

/// `" && "` and the remaining commands, one such piece per command.
pub open spec fn join_tail(cmds: Seq<Seq<char>>) -> Seq<char>
    decreases cmds.len(),
{
    if cmds.len() == 0 {
        Seq::empty()
    } else {
        " && "@ + cmds[0] + join_tail(cmds.subrange(1, cmds.len() as int))
    }
}

/// The commands joined with `" && "`.
pub open spec fn join_cmds(cmds: Seq<Seq<char>>) -> Seq<char> {
    if cmds.len() == 0 {
        Seq::empty()
    } else {
        cmds[0] + join_tail(cmds.subrange(1, cmds.len() as int))
    }
}

/// The single shell command line submitted to the child: change into the
/// mounted directory, then run the joined commands.
pub open spec fn composed_command(cmds: Seq<Seq<char>>) -> Seq<char> {
    "bash -c \"cd /test/; "@ + join_cmds(cmds) + "; \""@
}

/// One ephemeral container invocation: recomputed per run, never stored.
#[derive(Debug, Clone)]
pub struct ContainerInvocation {
    pub mounted_dir: String,
    pub command_line: String,
}

impl ContainerInvocation {
    /// The argument vector of the container runtime: an ephemeral,
    /// interactive, piped run with the workspace mounted.
    pub fn argv(&self) -> (r: Vec<String>)
        ensures
            strs_model(r@) == seq![
                "docker"@,
                "run"@,
                "--rm"@,
                "-i"@,
                "-v"@,
                self.mounted_dir@,
                "bifrost:0.1"@,
            ],
    {
        let mut r: Vec<String> = Vec::new();
        r.push(String::from_str("docker"));
        r.push(String::from_str("run"));
        r.push(String::from_str("--rm"));
        r.push(String::from_str("-i"));
        r.push(String::from_str("-v"));
        r.push(self.mounted_dir.clone());
        r.push(String::from_str("bifrost:0.1"));
        proof {
            assert(strs_model(r@) =~= seq![
                "docker"@,
                "run"@,
                "--rm"@,
                "-i"@,
                "-v"@,
                self.mounted_dir@,
                "bifrost:0.1"@,
            ]);
        }
        r
    }
}

/// Whether `inv` is the invocation composed from this workspace and
/// manifest. Composition is a function of the two alone.
pub open spec fn composes(ws: WorkSpace, m: ManifestConfig, inv: ContainerInvocation) -> bool {
    &&& inv.mounted_dir@ == mount_spec(ws.config.home_path@)
    &&& inv.command_line@ == composed_command(m.model().cmds)
}

/// Composition is deterministic: two invocations composed from the same
/// home path and the same command list are identical in content, whoever
/// composed them and however often.
pub proof fn lemma_compose_deterministic(
    ws1: WorkSpace,
    m1: ManifestConfig,
    a: ContainerInvocation,
    ws2: WorkSpace,
    m2: ManifestConfig,
    b: ContainerInvocation,
)
    requires
        ws1.config.home_path@ == ws2.config.home_path@,
        m1.model().cmds == m2.model().cmds,
        composes(ws1, m1, a),
        composes(ws2, m2, b),
    ensures
        a.mounted_dir@ == b.mounted_dir@,
        a.command_line@ == b.command_line@,
{
}

// ---------------------------------------------------------------------------
// The execution environment
// ---------------------------------------------------------------------------

/// The state gathered for one container execution: the mount
/// specification, the commands to run, and the streams captured so far.
#[derive(Debug)]
pub struct DockerEnv {
    pub mounted_dir: String,
    pub cmds: Vec<String>,
    pub stdout: Vec<String>,
    pub stderr: Vec<String>,
}

impl DockerEnv {
    /// A fresh environment for this workspace: the mount specification is
    /// composed from the home path, and nothing is collected yet.
    pub fn new(ws: &WorkSpace) -> (d: DockerEnv)
        ensures
            d.mounted_dir@ == mount_spec(ws.config.home_path@),
            d.cmds@ == Seq::<String>::empty(),
            d.stdout@ == Seq::<String>::empty(),
            d.stderr@ == Seq::<String>::empty(),
    {
        let mut mounted_dir = ws.config.home_path.clone();
        mounted_dir.append("/.bifrost/container:/test");
        DockerEnv { mounted_dir, cmds: Vec::new(), stdout: Vec::new(), stderr: Vec::new() }
    }

    /// Appends the manifest's commands, in order, to the ones to run.
    pub fn collect_commands(&mut self, config: ManifestConfig)
        ensures
            final(self).cmds@ == old(self).cmds@ + config.command.cmds@,
            final(self).mounted_dir == old(self).mounted_dir,
            final(self).stdout == old(self).stdout,
            final(self).stderr == old(self).stderr,
    {
        let n = config.command.cmds.len();
        let mut i: usize = 0;
        proof {
            assert(old(self).cmds@ + config.command.cmds@.subrange(0, 0) =~= old(self).cmds@);
        }
        while i < n
            invariant
                i <= n,
                n == config.command.cmds@.len(),
                self.cmds@ == old(self).cmds@ + config.command.cmds@.subrange(0, i as int),
                self.mounted_dir == old(self).mounted_dir,
                self.stdout == old(self).stdout,
                self.stderr == old(self).stderr,
            decreases n - i,
        {
            let ghost prev = self.cmds@;
            let c = config.command.cmds[i].clone();
            self.cmds.push(c);
            proof {
                assert(self.cmds@ =~= old(self).cmds@ + config.command.cmds@.subrange(
                    0,
                    i + 1,
                ));
            }
            i += 1;
        }
        proof {
            assert(config.command.cmds@.subrange(0, n as int) =~= config.command.cmds@);
        }
    }

    /// Composes the container invocation: the mount specification as it
    /// stands, and the shell command line built from the collected
    /// commands.
    pub fn compose_invocation(&self) -> (inv: ContainerInvocation)
        ensures
            inv.mounted_dir@ == self.mounted_dir@,
            inv.command_line@ == composed_command(strs_model(self.cmds@)),
    {
        let ghost all = strs_model(self.cmds@);
        let n = self.cmds.len();
        let mut joined = String::new();
        if n > 0 {
            joined.append(self.cmds[0].as_str());
            proof {
                assert(all[0] == self.cmds@[0]@);
                assert(strs_model(self.cmds@.subrange(1, n as int)) =~= all.subrange(
                    1,
                    n as int,
                ));
            }
            let mut i: usize = 1;
            while i < n
                invariant
                    1 <= i <= n,
                    n == self.cmds@.len(),
                    all == strs_model(self.cmds@),
                    joined@ + join_tail(all.subrange(i as int, n as int)) == join_cmds(all),
                decreases n - i,
            {
                let ghost sub = all.subrange(i as int, n as int);
                joined.append(" && ");
                joined.append(self.cmds[i].as_str());
                proof {
                    assert(sub[0] == self.cmds@[i as int]@);
                    assert(sub.subrange(1, sub.len() as int) =~= all.subrange(i + 1, n as int));
                }
                i += 1;
            }
            proof {
                assert(all.subrange(n as int, n as int) =~= Seq::<Seq<char>>::empty());
                assert(joined@ + Seq::<char>::empty() =~= joined@);
            }
        }
        proof {
            assert(joined@ == join_cmds(all));
        }
        let mut command_line = String::from_str("bash -c \"cd /test/; ");
        command_line.append(joined.as_str());
        command_line.append("; \"");
        proof {
            assert(command_line@ =~= composed_command(all));
        }
        ContainerInvocation { mounted_dir: self.mounted_dir.clone(), command_line }
    }

    /// Appends captured output and error text, dropping empty buffers:
    /// an empty capture leaves its sequence untouched rather than adding
    /// an empty entry.
    pub fn process_output(&mut self, stdout: String, stderr: String)
        ensures
            final(self).stdout@ == if stdout@.len() == 0 {
                old(self).stdout@
            } else {
                old(self).stdout@.push(stdout)
            },
            final(self).stderr@ == if stderr@.len() == 0 {
                old(self).stderr@
            } else {
                old(self).stderr@.push(stderr)
            },
            final(self).mounted_dir == old(self).mounted_dir,
            final(self).cmds == old(self).cmds,
    {
        if !stderr.as_str().is_empty() {
            self.stderr.push(stderr);
        }
        if !stdout.as_str().is_empty() {
            self.stdout.push(stdout);
        }
    }
}

// ---------------------------------------------------------------------------
// Results
// ---------------------------------------------------------------------------

/// The outcome of one execution: ordered captured output chunks and
/// ordered captured error chunks. The run counts as a success exactly
/// when the error sequence is empty.
#[derive(Debug, Clone)]
pub struct ExecutionResult {
    pub stdout: Vec<String>,
    pub stderr: Vec<String>,
}

impl ExecutionResult {
    /// The captured output chunks.
    pub open spec fn out_model(self) -> Seq<Seq<char>> {
        strs_model(self.stdout@)
    }

    /// The captured error chunks.
    pub open spec fn err_model(self) -> Seq<Seq<char>> {
        strs_model(self.stderr@)
    }

    /// Success means nothing was captured on the error stream.
    pub open spec fn success(self) -> bool {
        self.stderr@.len() == 0
    }

    /// Whether the run succeeded.
    pub fn succeeded(&self) -> (r: bool)
        ensures
            r == self.success(),
    {
        self.stderr.len() == 0
    }
}

/// What one captured stream contributes to a result: nothing when the
/// child gave no text or an empty one, else the text as a single chunk.
pub open spec fn collected(s: Option<String>) -> Seq<Seq<char>> {
    match s {
        Some(text) => if text@.len() == 0 {
            Seq::empty()
        } else {
            seq![text@]
        },
        None => Seq::empty(),
    }
}

/// Builds a result from the two captured streams, dropping empty buffers.
pub fn collect(stdout: Option<String>, stderr: Option<String>) -> (r: ExecutionResult)
    ensures
        r.out_model() == collected(stdout),
        r.err_model() == collected(stderr),
{
    let mut out: Vec<String> = Vec::new();
    let mut err: Vec<String> = Vec::new();
    match stdout {
        Some(text) => {
            if !text.as_str().is_empty() {
                out.push(text);
            }
        },
        None => {},
    }
    match stderr {
        Some(text) => {
            if !text.as_str().is_empty() {
                err.push(text);
            }
        },
        None => {},
    }
    let r = ExecutionResult { stdout: out, stderr: err };
    proof {
        assert(r.out_model() =~= collected(stdout));
        assert(r.err_model() =~= collected(stderr));
    }
    r
}

// ---------------------------------------------------------------------------
// The execution session protocol
// ---------------------------------------------------------------------------

/// The phases of one execution. Only `Terminated` is terminal; no phase
/// in between is observable outside the driver loop.
#[derive(Debug, Clone, Copy, PartialEq, Eq, Structural)]
pub enum ExecPhase {
    Created,
    Launched,
    InputSent,
    Draining,
    Terminated,
}

/// What the driver observed of the child process.
#[derive(Debug)]
pub enum ExecEvent {
    Spawned,
    SpawnFailed,
    InputWritten,
    DrainStarted,
    Drained(Option<String>, Option<String>),
    ChannelBroken,
}

/// What the driver must do next.
#[derive(Debug)]
pub enum ExecDirective {
    WriteInput(String),
    AwaitOutput,
    Deliver(ExecutionResult),
    Abort(ExecError),
}

/// Which events a phase can take.
pub open spec fn admissible(phase: ExecPhase, event: ExecEvent) -> bool {
    match phase {
        ExecPhase::Created => event is Spawned || event is SpawnFailed,
        ExecPhase::Launched => event is InputWritten || event is ChannelBroken,
        ExecPhase::InputSent => event is DrainStarted || event is ChannelBroken,
        ExecPhase::Draining => event is Drained || event is ChannelBroken,
        ExecPhase::Terminated => false,
    }
}

/// One container execution in progress: the composed invocation and the
/// phase reached so far.
#[derive(Debug)]
pub struct ExecSession {
    pub invocation: ContainerInvocation,
    pub phase: ExecPhase,
}

impl ExecSession {
    /// A session ready to be driven, in its initial phase.
    pub fn new(invocation: ContainerInvocation) -> (s: ExecSession)
        ensures
            s.invocation == invocation,
            s.phase == ExecPhase::Created,
    {
        ExecSession { invocation, phase: ExecPhase::Created }
    }

    /// Takes one observed event and decides the next step: a failed spawn
    /// aborts with `LaunchFailed` and nothing is ever delivered; a spawned
    /// child is sent the composed command line; a broken channel aborts
    /// with `CommunicationFailed`; drained streams are collected — empty
    /// buffers dropped — and delivered. Termination is reached on every
    /// abort and on delivery, and a terminated session takes no event.
    pub fn step(&mut self, event: ExecEvent) -> (r: ExecDirective)
        requires
            admissible(old(self).phase, event),
        ensures
            final(self).invocation == old(self).invocation,
            match event {
                ExecEvent::Spawned => {
                    &&& final(self).phase == ExecPhase::Launched
                    &&& r matches ExecDirective::WriteInput(line) && line@ == old(
                        self,
                    ).invocation.command_line@
                },
                ExecEvent::SpawnFailed => {
                    &&& final(self).phase == ExecPhase::Terminated
                    &&& r == ExecDirective::Abort(ExecError::LaunchFailed)
                },
                ExecEvent::InputWritten => {
                    &&& final(self).phase == ExecPhase::InputSent
                    &&& r == ExecDirective::AwaitOutput
                },
                ExecEvent::DrainStarted => {
                    &&& final(self).phase == ExecPhase::Draining
                    &&& r == ExecDirective::AwaitOutput
                },
                ExecEvent::Drained(out, err) => {
                    &&& final(self).phase == ExecPhase::Terminated
                    &&& r matches ExecDirective::Deliver(res) && res.out_model() == collected(
                        out,
                    ) && res.err_model() == collected(err)
                },
                ExecEvent::ChannelBroken => {
                    &&& final(self).phase == ExecPhase::Terminated
                    &&& r == ExecDirective::Abort(ExecError::CommunicationFailed)
                },
            },
    {
        match event {
            ExecEvent::Spawned => {
                self.phase = ExecPhase::Launched;
                ExecDirective::WriteInput(self.invocation.command_line.clone())
            },
            ExecEvent::SpawnFailed => {
                self.phase = ExecPhase::Terminated;
                ExecDirective::Abort(ExecError::LaunchFailed)
            },
            ExecEvent::InputWritten => {
                self.phase = ExecPhase::InputSent;
                ExecDirective::AwaitOutput
            },
            ExecEvent::DrainStarted => {
                self.phase = ExecPhase::Draining;
                ExecDirective::AwaitOutput
            },
            ExecEvent::Drained(out, err) => {
                self.phase = ExecPhase::Terminated;
                ExecDirective::Deliver(collect(out, err))
            },
            ExecEvent::ChannelBroken => {
                self.phase = ExecPhase::Terminated;
                ExecDirective::Abort(ExecError::CommunicationFailed)
            },
        }
    }
}

} // verus!
