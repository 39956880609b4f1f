//! The session launcher's contract: the exact command line that starts a
//! detached interactive session against an instance, and the result type the
//! surrounding process-spawning code reports back. The spawn itself is
//! outside the library.

use vstd::prelude::*;

verus! {

/// Outcome of one launch attempt, reported by the process-spawning code.
/// A failed launch is recoverable: the interactive loop continues.
#[derive(Debug, PartialEq, Eq)]
pub enum LaunchResult {
    /// The external session process was created.
    Started,
    /// The external command could not be spawned; the reason text is shown
    /// as a dismissible notice.
    LaunchFailed(String),
}

/// The command line that starts a detached session: a terminal emulator
/// running the session client against `instance_id` under `profile`.
pub open spec fn spec_session_command(instance_id: Seq<char>, profile: Seq<char>) -> Seq<
    Seq<char>,
> {
    seq![
        "gnome-terminal"@,
        "--"@,
        "aws"@,
        "ssm"@,
        "start-session"@,
        "--target"@,
        instance_id,
        "--profile"@,
        profile,
    ]
}

/// Builds the launch command line: program name first, then its arguments,
/// with the instance identifier after `--target` and the credential profile
/// after `--profile`.
pub fn session_command(instance_id: &str, profile: &str) -> (argv: Vec<String>)
    ensures
        argv@.map_values(|s: String| s@) =~= spec_session_command(instance_id@, profile@),
{
    let mut argv: Vec<String> = Vec::new();
    argv.push("gnome-terminal".to_owned());
    argv.push("--".to_owned());
    argv.push("aws".to_owned());
    argv.push("ssm".to_owned());
    argv.push("start-session".to_owned());
    argv.push("--target".to_owned());
    argv.push(instance_id.to_owned());
    argv.push("--profile".to_owned());
    argv.push(profile.to_owned());
    argv
}

} // verus!
