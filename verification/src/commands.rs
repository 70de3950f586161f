//! The external tool invocations and the error taxonomy around them.
//!
//! Every build, check and upload step runs an external tool as a child
//! process. The orchestration logic here decides *which* tool with *which*
//! arguments — a plain command plan — and how each raw outcome maps into the
//! error taxonomy; running the process and streaming its output is the
//! caller's business.

use vstd::prelude::*;
use crate::artifact::{no_wheel, is_latest_wheel, latest_artifact, ArtifactEntry};
use crate::backend::BackendKind;

verus! {

/// A planned invocation of an external tool: the program and its arguments.
pub struct CommandPlan {
    pub program: String,
    pub args: Vec<String>,
}

/// The views of a list of argument strings.
pub open spec fn args_view(args: Seq<String>) -> Seq<Seq<char>> {
    args.map_values(|s: String| s@)
}

/// How running a planned command went, as the caller reports it back.
#[derive(Clone, Copy, PartialEq, Eq, Structural, Debug)]
pub enum SpawnOutcome {
    /// The process could not be started at all.
    SpawnFailed,
    /// The process ran to completion, successfully or not.
    Exited { success: bool },
}

/// Why a build step failed.
#[derive(Clone, Copy, PartialEq, Eq, Structural, Debug)]
pub enum BuildError {
    /// The required build tool is not invocable; nothing was attempted.
    ToolNotFound,
    /// The build tool ran and reported failure.
    BuildFailed,
    /// The build tool could not be started.
    SpawnError,
}

/// Why a publish step failed.
#[derive(Clone, Copy, PartialEq, Eq, Structural, Debug)]
pub enum PublishError {
    /// No built artifact is there to upload.
    NoArtifacts,
    /// The upload tool ran and reported failure.
    PublishFailed,
    /// The upload tool could not be started.
    SpawnError,
}

/// Why an artifact check failed.
#[derive(Clone, Copy, PartialEq, Eq, Structural, Debug)]
pub enum CheckError {
    /// No build output directory is there to check.
    NoArtifacts,
    /// The check tool ran and reported failure.
    CheckFailed,
    /// The check tool could not be started.
    SpawnError,
}

/// The availability probe for a tool: `<tool> --version`.
pub fn probe_command(tool: &str) -> (r: CommandPlan)
    ensures
        r.program@ == tool@,
        args_view(r.args@) =~= seq!["--version"@],
{
    let mut args: Vec<String> = Vec::new();
    args.push(String::from_str("--version"));
    let r = CommandPlan { program: String::from_str(tool), args };
    proof {
        assert(args_view(r.args@) =~= seq!["--version"@]);
    }
    r
}

/// The build invocation for a backend: the native toolchain builds a release
/// artifact; the source toolchain builds without isolation.
pub fn build_command(kind: BackendKind) -> (r: CommandPlan)
    ensures
        kind == BackendKind::Native ==> r.program@ == "maturin"@ && args_view(r.args@)
            =~= seq!["build"@, "--release"@],
        kind == BackendKind::Source ==> r.program@ == "python"@ && args_view(r.args@)
            =~= seq!["-m"@, "build"@, "--no-isolation"@],
{
    let mut args: Vec<String> = Vec::new();
    match kind {
        BackendKind::Native => {
            args.push(String::from_str("build"));
            args.push(String::from_str("--release"));
            let r = CommandPlan { program: String::from_str("maturin"), args };
            proof {
                assert(args_view(r.args@) =~= seq!["build"@, "--release"@]);
            }
            r
        },
        BackendKind::Source => {
            args.push(String::from_str("-m"));
            args.push(String::from_str("build"));
            args.push(String::from_str("--no-isolation"));
            let r = CommandPlan { program: String::from_str("python"), args };
            proof {
                assert(args_view(r.args@) =~= seq!["-m"@, "build"@, "--no-isolation"@]);
            }
            r
        },
    }
}

/// The upload invocation for a backend: the fixed username sentinel
/// `__token__` with the token as the secret, and the artifact path.
pub fn upload_command(kind: BackendKind, token: &str, artifact: &str) -> (r: CommandPlan)
    ensures
        kind == BackendKind::Native ==> r.program@ == "maturin"@ && args_view(r.args@)
            =~= seq!["upload"@, "-u"@, "__token__"@, "-p"@, token@, artifact@],
        kind == BackendKind::Source ==> r.program@ == "twine"@ && args_view(r.args@)
            =~= seq!["upload"@, artifact@, "--username"@, "__token__"@, "--password"@, token@],
{
    let mut args: Vec<String> = Vec::new();
    match kind {
        BackendKind::Native => {
            args.push(String::from_str("upload"));
            args.push(String::from_str("-u"));
            args.push(String::from_str("__token__"));
            args.push(String::from_str("-p"));
            args.push(String::from_str(token));
            args.push(String::from_str(artifact));
            let r = CommandPlan { program: String::from_str("maturin"), args };
            proof {
                assert(args_view(r.args@) =~= seq![
                    "upload"@,
                    "-u"@,
                    "__token__"@,
                    "-p"@,
                    token@,
                    artifact@,
                ]);
            }
            r
        },
        BackendKind::Source => {
            args.push(String::from_str("upload"));
            args.push(String::from_str(artifact));
            args.push(String::from_str("--username"));
            args.push(String::from_str("__token__"));
            args.push(String::from_str("--password"));
            args.push(String::from_str(token));
            let r = CommandPlan { program: String::from_str("twine"), args };
            proof {
                assert(args_view(r.args@) =~= seq![
                    "upload"@,
                    artifact@,
                    "--username"@,
                    "__token__"@,
                    "--password"@,
                    token@,
                ]);
            }
            r
        },
    }
}

/// The artifact check invocation: the generic distribution directory is
/// checked when it exists, else the native build output directory; with
/// neither there is nothing to check.
pub fn check_command(dist_exists: bool, wheels_dir_exists: bool) -> (r: Result<
    CommandPlan,
    CheckError,
>)
    ensures
        dist_exists ==> (r matches Ok(p) && p.program@ == "uv"@ && args_view(p.args@)
            =~= seq!["run"@, "twine"@, "check"@, "dist/*"@]),
        !dist_exists && wheels_dir_exists ==> (r matches Ok(p) && p.program@ == "uv"@
            && args_view(p.args@) =~= seq!["run"@, "twine"@, "check"@, "target/wheels/*"@]),
        !dist_exists && !wheels_dir_exists ==> (r matches Err(e) && e == CheckError::NoArtifacts),
{
    if !dist_exists && !wheels_dir_exists {
        return Err(CheckError::NoArtifacts);
    }
    let target = if dist_exists {
        "dist/*"
    } else {
        "target/wheels/*"
    };
    let mut args: Vec<String> = Vec::new();
    args.push(String::from_str("run"));
    args.push(String::from_str("twine"));
    args.push(String::from_str("check"));
    args.push(String::from_str(target));
    let p = CommandPlan { program: String::from_str("uv"), args };
    proof {
        assert(args_view(p.args@) =~= seq!["run"@, "twine"@, "check"@, target@]);
    }
    Ok(p)
}

/// The build preflight: with the required tool not invocable the step fails
/// fast, before anything is attempted; otherwise the build invocation for
/// the backend is planned.
pub fn build_preflight(tool_available: bool, kind: BackendKind) -> (r: Result<
    CommandPlan,
    BuildError,
>)
    ensures
        !tool_available ==> (r matches Err(e) && e == BuildError::ToolNotFound),
        tool_available ==> (r matches Ok(p) && {
            &&& kind == BackendKind::Native ==> p.program@ == "maturin"@ && args_view(p.args@)
                =~= seq!["build"@, "--release"@]
            &&& kind == BackendKind::Source ==> p.program@ == "python"@ && args_view(p.args@)
                =~= seq!["-m"@, "build"@, "--no-isolation"@]
        }),
{
    if !tool_available {
        Err(BuildError::ToolNotFound)
    } else {
        Ok(build_command(kind))
    }
}

/// Maps the raw outcome of the build invocation into the taxonomy: a process
/// that could not start is a spawn error, a non-zero exit is a recoverable
/// build failure, a zero exit is success.
pub fn build_report(outcome: SpawnOutcome) -> (r: Result<(), BuildError>)
    ensures
        match outcome {
            SpawnOutcome::SpawnFailed => r matches Err(e) && e == BuildError::SpawnError,
            SpawnOutcome::Exited { success } => if success {
                r is Ok
            } else {
                r matches Err(e) && e == BuildError::BuildFailed
            },
        },
{
    match outcome {
        SpawnOutcome::SpawnFailed => Err(BuildError::SpawnError),
        SpawnOutcome::Exited { success } => if success {
            Ok(())
        } else {
            Err(BuildError::BuildFailed)
        },
    }
}

/// Maps the raw outcome of the upload invocation into the taxonomy.
pub fn publish_report(outcome: SpawnOutcome) -> (r: Result<(), PublishError>)
    ensures
        match outcome {
            SpawnOutcome::SpawnFailed => r matches Err(e) && e == PublishError::SpawnError,
            SpawnOutcome::Exited { success } => if success {
                r is Ok
            } else {
                r matches Err(e) && e == PublishError::PublishFailed
            },
        },
{
    match outcome {
        SpawnOutcome::SpawnFailed => Err(PublishError::SpawnError),
        SpawnOutcome::Exited { success } => if success {
            Ok(())
        } else {
            Err(PublishError::PublishFailed)
        },
    }
}

/// Maps the raw outcome of the check invocation into the taxonomy.
pub fn check_report(outcome: SpawnOutcome) -> (r: Result<(), CheckError>)
    ensures
        match outcome {
            SpawnOutcome::SpawnFailed => r matches Err(e) && e == CheckError::SpawnError,
            SpawnOutcome::Exited { success } => if success {
                r is Ok
            } else {
                r matches Err(e) && e == CheckError::CheckFailed
            },
        },
{
    match outcome {
        SpawnOutcome::SpawnFailed => Err(CheckError::SpawnError),
        SpawnOutcome::Exited { success } => if success {
            Ok(())
        } else {
            Err(CheckError::CheckFailed)
        },
    }
}

/// Picks the artifact to upload from the listing of the backend's output
/// directory: a missing directory or a listing without a wheel means the
/// project has not been built, surfaced as `NoArtifacts`; otherwise the name
/// of the latest wheel is handed back.
pub fn select_artifact(dir_exists: bool, entries: &Vec<ArtifactEntry>) -> (r: Result<
    String,
    PublishError,
>)
    ensures
        !dir_exists ==> (r matches Err(e) && e == PublishError::NoArtifacts),
        dir_exists && no_wheel(entries@) ==> (r matches Err(e) && e == PublishError::NoArtifacts),
        dir_exists && !no_wheel(entries@) ==> (r matches Ok(name) && exists|i: int|
            #[trigger] is_latest_wheel(entries@, i) && name@ == entries@[i].name@),
{
    if !dir_exists {
        return Err(PublishError::NoArtifacts);
    }
    match latest_artifact(entries) {
        None => Err(PublishError::NoArtifacts),
        Some(i) => Ok(entries[i].name.clone()),
    }
}

} // verus!
