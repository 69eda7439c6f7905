//! The optional build step that runs once before the cases.

use crate::case::{Command, CommandModel};
use crate::layout::{join, join_path};
use crate::manifest::{Manifest, ManifestModel};
use crate::suite::Suite;
use vstd::prelude::*;

verus! {

/// The build script of a manifest, resolved against the workspace: the one
/// the manifest names, else `scripts/build_stub.sh`.
pub open spec fn build_script_of(manifest: ManifestModel, workspace: Seq<char>) -> Seq<char> {
    match manifest.build_script {
        Some(script) => join(workspace, script),
        None => join(workspace, "scripts/build_stub.sh"@),
    }
}

/// The notice that the build step was skipped for want of its script.
pub open spec fn skip_line(script: Seq<char>) -> Seq<char> {
    "[build] skipped build step because "@ + script + " does not exist"@
}

/// The notice that the build script is about to run.
pub open spec fn start_line(script: Seq<char>, suite: Suite) -> Seq<char> {
    "[build] executing "@ + script + " for "@ + suite.display_name_text()
}

/// The command of the build step: the script with the suite's directory name
/// as its one argument, run in the workspace with no added variables.
pub open spec fn build_command_of(script: Seq<char>, suite: Suite, workspace: Seq<char>) -> CommandModel {
    CommandModel {
        program: script,
        args: seq![suite.dir_name_text()],
        cwd: workspace,
        env: Seq::empty(),
    }
}

/// The build script of `manifest`, resolved against `workspace`.
pub fn build_script(manifest: &Manifest, workspace: &str) -> (script: String)
    ensures
        script@ == build_script_of(manifest@, workspace@),
{
    match &manifest.build_script {
        Some(script) => join_path(workspace, script.as_str()),
        None => join_path(workspace, "scripts/build_stub.sh"),
    }
}

/// The notice that the build step was skipped for want of its script.
pub fn skip_message(script: &str) -> (line: String)
    ensures
        line@ == skip_line(script@),
{
    let mut line = String::from_str("[build] skipped build step because ");
    line.append(script);
    line.append(" does not exist");
    line
}

/// The notice that the build script is about to run.
pub fn start_message(script: &str, suite: Suite) -> (line: String)
    ensures
        line@ == start_line(script@, suite),
{
    let mut line = String::from_str("[build] executing ");
    line.append(script);
    line.append(" for ");
    line.append(suite.display_name());
    line
}

/// The command of the build step.
pub fn build_command(script: &str, suite: Suite, workspace: &str) -> (command: Command)
    ensures
        command@ == build_command_of(script@, suite, workspace@),
{
    let mut args: Vec<String> = Vec::new();
    args.push(String::from_str(suite.dir_name()));
    let env: Vec<(String, String)> = Vec::new();
    proof {
        assert(args.deep_view() =~= seq![suite.dir_name_text()]);
        assert(env.deep_view() =~= Seq::<(Seq<char>, Seq<char>)>::empty());
    }
    Command { program: String::from_str(script), args, cwd: String::from_str(workspace), env }
}

} // verus!
