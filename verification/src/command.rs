//! Command lines for child processes.

use vstd::prelude::*;

verus! {

/// The families of systems that commands differ on.
#[derive(Debug, Clone, Copy, PartialEq, Eq, Structural)]
pub enum Platform {
    Unix,
    Windows,
}

/// A child process to start. Its output and error streams are read by the installer; its input
/// stream is written by the installer where `pipe_stdin` is set.
#[derive(Debug, PartialEq, Eq)]
pub struct CommandLine {
    pub program: String,
    pub args: Vec<String>,
    /// Variables to set in the environment that the process inherits.
    pub env: Vec<(String, String)>,
    pub pipe_stdin: bool,
}

/// The texts of a [`CommandLine`].
#[verifier::ext_equal]
pub struct CommandLineView {
    pub program: Seq<char>,
    pub args: Seq<Seq<char>>,
    pub env: Seq<(Seq<char>, Seq<char>)>,
    pub pipe_stdin: bool,
}

impl View for CommandLine {
    type V = CommandLineView;

    open spec fn view(&self) -> CommandLineView {
        CommandLineView {
            program: self.program@,
            args: self.args.deep_view(),
            env: self.env.deep_view(),
            pipe_stdin: self.pipe_stdin,
        }
    }
}

/// The model of a command is what it is started with: the program, each argument and each
/// variable.
pub proof fn law_command_is_its_texts(command: CommandLine)
    ensures
        command@.program == command.program@,
        command@.args.len() == command.args@.len(),
        forall|k: int|
            0 <= k < command.args@.len() ==> #[trigger] command@.args[k] == command.args@[k]@,
        command@.env.len() == command.env@.len(),
        forall|k: int|
            0 <= k < command.env@.len() ==> (#[trigger] command@.env[k]).0 == command.env@[k].0@
                && command@.env[k].1 == command.env@[k].1@,
        command@.pipe_stdin == command.pipe_stdin,
{
}

} // verus!
