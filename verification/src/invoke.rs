//! Running the resource compiler: the command to spawn and the verdict on
//! how it ended.

use vstd::prelude::*;
use vstd::string::*;
use crate::path::ProbePath;

verus! {

/// The resource compiler of the Windows SDK.
#[derive(Debug, Clone, Hash, PartialEq, Eq, PartialOrd, Ord)]
pub struct ResourceCompiler;

/// The program to spawn.
#[derive(Debug, Clone, PartialEq, Eq)]
pub enum Program {
    /// The tool at the place where discovery found it.
    Located(ProbePath),
    /// The bare file name, left to the search path of the process.
    Unqualified(String),
}

/// A command line of the resource compiler.
#[derive(Debug, Clone, PartialEq, Eq)]
pub struct Invocation {
    pub program: Program,
    pub arguments: Vec<String>,
}

/// How an attempt to run the tool ended.
#[derive(Debug, Clone, Copy, PartialEq, Eq, Structural)]
pub enum Spawn {
    /// The tool could not be started at all.
    NotStarted,
    /// The tool ran and ended with this exit code, if it had one.
    Exited(Option<i32>),
}

/// Why a resource was not compiled.
#[derive(Debug, Clone, Copy, PartialEq, Eq, Structural)]
pub enum InvocationFailure {
    /// The tool could not be started.
    NotStarted,
    /// The tool ran and reported failure.
    Failed(Option<i32>),
}

/// The file name of the resource compiler.
pub open spec fn tool_name() -> Seq<char> {
    "rc.exe"@
}

/// The argument list for compiling `resource` into `<out_dir>/<prefix>.lib`
/// with `out_dir` on the include path.
pub open spec fn rc_arguments(out_dir: Seq<char>, prefix: Seq<char>, resource: Seq<char>) -> Seq<
    Seq<char>,
> {
    seq!["/fo"@, out_dir + "/"@ + prefix + ".lib"@, "/I"@, out_dir, resource]
}

/// Mathematical value of an argument list.
pub open spec fn arguments_view(arguments: Vec<String>) -> Seq<Seq<char>> {
    arguments@.map_values(|s: String| s@)
}

/// The verdict on an attempt to run the tool: success is exit code zero.
pub open spec fn verdict(spawn: Spawn) -> Result<(), InvocationFailure> {
    match spawn {
        Spawn::NotStarted => Err(InvocationFailure::NotStarted),
        Spawn::Exited(Some(code)) if code == 0 => Ok(()),
        Spawn::Exited(code) => Err(InvocationFailure::Failed(code)),
    }
}

impl ResourceCompiler {
    /// The resource compiler; it carries no state.
    pub fn new() -> ResourceCompiler {
        ResourceCompiler
    }

    /// The resource compiler is always taken to be usable.
    pub fn is_supported(&self) -> (supported: bool)
        ensures
            supported,
    {
        true
    }

    /// The command that compiles `resource`: the located tool, or the bare
    /// `rc.exe` where discovery found none, with the five arguments of
    /// [`rc_arguments`].
    pub fn compile_resource(
        &self,
        located: Option<ProbePath>,
        out_dir: &str,
        prefix: &str,
        resource: &str,
    ) -> (command: Invocation)
        ensures
            match located {
                Some(path) => command.program == Program::Located(path),
                None => command.program matches Program::Unqualified(name) && name@ == tool_name(),
            },
            arguments_view(command.arguments) == rc_arguments(out_dir@, prefix@, resource@),
    {
        let program = match located {
            Some(path) => Program::Located(path),
            None => Program::Unqualified("rc.exe".to_owned()),
        };
        let output = out_dir.to_owned().concat("/").concat(prefix).concat(".lib");
        let mut arguments: Vec<String> = Vec::new();
        arguments.push("/fo".to_owned());
        arguments.push(output);
        arguments.push("/I".to_owned());
        arguments.push(out_dir.to_owned());
        arguments.push(resource.to_owned());
        proof {
            assert(arguments_view(arguments) =~= rc_arguments(out_dir@, prefix@, resource@));
        }
        Invocation { program, arguments }
    }

    /// Judges how the tool ended: only a tool that ran and returned zero
    /// has compiled the resource; a tool that did not start and a tool that
    /// reported failure are told apart.
    pub fn check(&self, spawn: Spawn) -> (result: Result<(), InvocationFailure>)
        ensures
            result == verdict(spawn),
    {
        match spawn {
            Spawn::NotStarted => Err(InvocationFailure::NotStarted),
            Spawn::Exited(Some(code)) => {
                if code == 0 {
                    Ok(())
                } else {
                    Err(InvocationFailure::Failed(Some(code)))
                }
            },
            Spawn::Exited(None) => Err(InvocationFailure::Failed(None)),
        }
    }
}

impl InvocationFailure {
    /// The message with which the build is aborted.
    pub open spec fn message_spec(self) -> Seq<char> {
        match self {
            InvocationFailure::NotStarted => "Are you sure you have RC.EXE in your $PATH?"@,
            InvocationFailure::Failed(_) => "RC.EXE failed to compile specified resource file"@,
        }
    }

    /// The message with which the build is aborted.
    pub fn message(&self) -> (text: String)
        ensures
            text@ == self.message_spec(),
    {
        match self {
            InvocationFailure::NotStarted => "Are you sure you have RC.EXE in your $PATH?".to_owned(),
            InvocationFailure::Failed(_) => "RC.EXE failed to compile specified resource file".to_owned(),
        }
    }
}

} // verus!
