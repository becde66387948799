use vstd::prelude::*;

use crate::endpoint::{decimal, loopback_host, Endpoint};
use crate::interpreter::{Interpreter, InterpreterModel};
use crate::path::{FsPath, PathModel};

verus! {

/// What is executed: a binary at a path, or a command looked up by name.
pub enum Program {
    Path(FsPath),
    Command(String),
}

/// What a [`Program`] stands for.
pub enum ProgramModel {
    Path(PathModel),
    Command(Seq<char>),
}

impl View for Program {
    type V = ProgramModel;

    open spec fn view(&self) -> ProgramModel {
        match self {
            Program::Path(p) => ProgramModel::Path(p@),
            Program::Command(c) => ProgramModel::Command(c@),
        }
    }
}

/// One command-line argument: plain text, or a path.
pub enum LaunchArg {
    Text(String),
    Path(FsPath),
}

/// What a [`LaunchArg`] stands for.
pub enum LaunchArgModel {
    Text(Seq<char>),
    Path(PathModel),
}

impl View for LaunchArg {
    type V = LaunchArgModel;

    open spec fn view(&self) -> LaunchArgModel {
        match self {
            LaunchArg::Text(t) => LaunchArgModel::Text(t@),
            LaunchArg::Path(p) => LaunchArgModel::Path(p@),
        }
    }
}

/// How the backend process is to be started.
pub struct LaunchPlan {
    pub program: Program,
    pub args: Vec<LaunchArg>,
    pub working_dir: FsPath,
}

/// What a [`LaunchPlan`] stands for.
pub struct LaunchPlanModel {
    pub program: ProgramModel,
    pub args: Seq<LaunchArgModel>,
    pub working_dir: PathModel,
}

impl View for LaunchPlan {
    type V = LaunchPlanModel;

    open spec fn view(&self) -> LaunchPlanModel {
        LaunchPlanModel {
            program: self.program@,
            args: self.args@.map_values(|a: LaunchArg| a@),
            working_dir: self.working_dir@,
        }
    }
}

/// The backend's source directory, where it runs.
pub open spec fn backend_dir(root: PathModel) -> PathModel {
    root.child("src"@)
}

/// The backend's entry-point script.
pub open spec fn backend_script(root: PathModel) -> PathModel {
    backend_dir(root).child("bridge.py"@)
}

/// The program that runs the chosen interpreter.
pub open spec fn planned_program(choice: InterpreterModel) -> ProgramModel {
    match choice {
        InterpreterModel::Managed(p) => ProgramModel::Path(p),
        InterpreterModel::Launcher => ProgramModel::Command("py"@),
        InterpreterModel::System => ProgramModel::Command("python3"@),
    }
}

/// The arguments the chosen interpreter needs before the script.
pub open spec fn interpreter_args(choice: InterpreterModel) -> Seq<LaunchArgModel> {
    match choice {
        InterpreterModel::Launcher => seq![LaunchArgModel::Text("-3"@)],
        _ => Seq::empty(),
    }
}

/// The full argument list: interpreter arguments, the script, then the
/// endpoint's host and port flags.
pub open spec fn planned_args(root: PathModel, port: nat, choice: InterpreterModel) -> Seq<
    LaunchArgModel,
> {
    interpreter_args(choice) + seq![
        LaunchArgModel::Path(backend_script(root)),
        LaunchArgModel::Text("--host"@),
        LaunchArgModel::Text(loopback_host()),
        LaunchArgModel::Text("--port"@),
        LaunchArgModel::Text(decimal(port)),
    ]
}

/// `<interpreter> <root>/src/bridge.py --host 127.0.0.1 --port <port>`, run in `<root>/src`.
pub open spec fn planned_launch(root: PathModel, port: nat, choice: InterpreterModel) -> LaunchPlanModel {
    LaunchPlanModel {
        program: planned_program(choice),
        args: planned_args(root, port, choice),
        working_dir: backend_dir(root),
    }
}

/// The command line and working directory that start the backend for this
/// root, endpoint and interpreter.
pub fn bridge_command(root: &FsPath, endpoint: &Endpoint, choice: &Interpreter) -> (r: LaunchPlan)
    ensures
        r@ == planned_launch(root@, endpoint.port as nat, choice@),
{
    let dir = root.join("src");
    let script = dir.join("bridge.py");
    let mut args: Vec<LaunchArg> = Vec::new();
    let program = match choice {
        Interpreter::Managed(p) => Program::Path(p.duplicate()),
        Interpreter::Launcher => {
            args.push(LaunchArg::Text(String::from_str("-3")));
            Program::Command(String::from_str("py"))
        },
        Interpreter::System => Program::Command(String::from_str("python3")),
    };
    args.push(LaunchArg::Path(script));
    args.push(LaunchArg::Text(String::from_str("--host")));
    args.push(LaunchArg::Text(Endpoint::host()));
    args.push(LaunchArg::Text(String::from_str("--port")));
    args.push(LaunchArg::Text(endpoint.port_text()));
    let r = LaunchPlan { program, args, working_dir: dir };
    assert(r@.args =~= planned_args(root@, endpoint.port as nat, choice@));
    r
}

} // verus!
