//! The command that a run executes.

use vstd::prelude::*;
use std::path::PathBuf;

verus! {

/// A command line, over plain text.
pub struct CommandLine {
    pub program: Seq<char>,
    pub args: Seq<Seq<char>>,
}

/// Each argument with a blank before it, in order.
pub open spec fn spaced(args: Seq<Seq<char>>) -> Seq<char>
    decreases args.len(),
{
    if args.len() == 0 {
        Seq::empty()
    } else {
        spaced(args.drop_last()) + " "@ + args.last()
    }
}

/// The line that echoes the invoked command at the head of the log.
pub open spec fn echo_line(command: CommandLine) -> Seq<char> {
    "$ "@ + command.program + spaced(command.args)
}

/// The text that reports a command that could not be started.
pub open spec fn spawn_error_text(command: CommandLine, reason: Seq<char>) -> Seq<char> {
    "Failed to start "@ + command.program + ": "@ + reason
}

/// The text that reports an exit status that could not be observed.
pub open spec fn process_error_text(reason: Seq<char>) -> Seq<char> {
    "Process error: "@ + reason
}

/// The command line that builds the configuration of `host` from the flake
/// in the working directory.
pub open spec fn nixos_rebuild_line(host: Seq<char>) -> CommandLine {
    CommandLine {
        program: "nixos-rebuild"@,
        args: seq!["build"@, "--flake"@, ".#"@ + host],
    }
}

/// A fully resolved command: what to run, with which arguments, and where.
#[derive(Debug, PartialEq, Eq)]
pub struct CommandSpec {
    pub program: String,
    pub args: Vec<String>,
    pub working_dir: PathBuf,
}

impl View for CommandSpec {
    type V = CommandLine;

    open spec fn view(&self) -> CommandLine {
        CommandLine { program: self.program@, args: self.args.deep_view() }
    }
}

impl CommandSpec {
    /// `nixos-rebuild build --flake .#host`, run in the repository.
    pub fn nixos_rebuild(host_name: &str, repo_path: PathBuf) -> (spec: CommandSpec)
        ensures
            spec@ == nixos_rebuild_line(host_name@),
            spec.working_dir == repo_path,
    {
        let mut flake_ref = String::from_str(".#");
        flake_ref.append(host_name);
        let mut args: Vec<String> = Vec::new();
        args.push(String::from_str("build"));
        args.push(String::from_str("--flake"));
        args.push(flake_ref);
        let spec = CommandSpec {
            program: String::from_str("nixos-rebuild"),
            args,
            working_dir: repo_path,
        };
        assert(spec.args.deep_view() =~= nixos_rebuild_line(host_name@).args);
        spec
    }

    /// The line that echoes this command at the head of the log.
    pub fn echo_line(&self) -> (line: String)
        ensures
            line@ == echo_line(self@),
    {
        let mut line = String::from_str("$ ");
        line.append(self.program.as_str());
        let mut next: usize = 0;
        while next < self.args.len()
            invariant
                next <= self.args.len(),
                line@ == "$ "@ + self.program@ + spaced(self.args.deep_view().take(next as int)),
            decreases self.args.len() - next,
        {
            let ghost done = self.args.deep_view().take(next as int);
            let ghost more = self.args.deep_view().take(next + 1);
            assert(more.drop_last() =~= done);
            assert(more.last() == self.args[next as int]@);
            line.append(" ");
            line.append(self.args[next].as_str());
            assert(line@ =~= "$ "@ + self.program@ + spaced(more));
            next = next + 1;
        }
        assert(self.args.deep_view().take(next as int) =~= self.args.deep_view());
        line
    }
}

} // verus!
