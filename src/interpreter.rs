use vstd::prelude::*;

use crate::path::{FsPath, PathModel};

verus! {

/// The operating system family, which decides where a managed interpreter
/// lives and which system interpreter stands in for it.
#[derive(PartialEq, Eq, Structural, Clone, Copy, Debug)]
pub enum OsFamily {
    Windows,
    Other,
}

/// A source an interpreter may be taken from, tried in order.
#[derive(PartialEq, Eq, Structural, Clone, Copy, Debug)]
pub enum Candidate {
    /// The project's own virtual environment; usable only where its binary exists.
    ManagedVenv,
    /// The Windows launcher `py`, asked for major version 3; always usable.
    WindowsLauncher,
    /// The system-wide `python3` command; always usable.
    SystemPython,
}

/// The interpreter chosen to run the backend.
pub enum Interpreter {
    /// The managed interpreter binary at this path.
    Managed(FsPath),
    /// The Windows launcher `py -3`.
    Launcher,
    /// The system-wide `python3` command.
    System,
}

/// What an [`Interpreter`] stands for.
pub enum InterpreterModel {
    Managed(PathModel),
    Launcher,
    System,
}

impl View for Interpreter {
    type V = InterpreterModel;

    open spec fn view(&self) -> InterpreterModel {
        match self {
            Interpreter::Managed(p) => InterpreterModel::Managed(p@),
            Interpreter::Launcher => InterpreterModel::Launcher,
            Interpreter::System => InterpreterModel::System,
        }
    }
}

/// Where the managed interpreter lives under the project root.
pub open spec fn managed_interpreter_path(root: PathModel, os: OsFamily) -> PathModel {
    match os {
        OsFamily::Windows => root.child(".venv"@).child("Scripts"@).child("python.exe"@),
        OsFamily::Other => root.child(".venv"@).child("bin"@).child("python"@),
    }
}

/// The order in which interpreter sources are tried.
pub open spec fn candidate_order(os: OsFamily) -> Seq<Candidate> {
    match os {
        OsFamily::Windows => seq![Candidate::ManagedVenv, Candidate::WindowsLauncher],
        OsFamily::Other => seq![Candidate::ManagedVenv, Candidate::SystemPython],
    }
}

/// The interpreter chosen: the managed one where it exists, else the
/// system's own for this family.
pub open spec fn located(root: PathModel, os: OsFamily, managed_present: bool) -> InterpreterModel {
    if managed_present {
        InterpreterModel::Managed(managed_interpreter_path(root, os))
    } else {
        match os {
            OsFamily::Windows => InterpreterModel::Launcher,
            OsFamily::Other => InterpreterModel::System,
        }
    }
}

/// The path where the managed interpreter would be, whether or not it exists.
pub fn venv_python_path(root: &FsPath, os: OsFamily) -> (r: FsPath)
    ensures
        r@ == managed_interpreter_path(root@, os),
{
    let venv = root.join(".venv");
    match os {
        OsFamily::Windows => venv.join("Scripts").join("python.exe"),
        OsFamily::Other => venv.join("bin").join("python"),
    }
}

/// The managed interpreter, where `present` says that its binary exists.
pub fn venv_python(root: &FsPath, os: OsFamily, present: bool) -> (r: Option<FsPath>)
    ensures
        match r {
            Some(p) => present && p@ == managed_interpreter_path(root@, os),
            None => !present,
        },
{
    if present {
        Some(venv_python_path(root, os))
    } else {
        None
    }
}

/// The interpreter sources for this family, in the order they are tried.
pub fn candidates(os: OsFamily) -> (r: Vec<Candidate>)
    ensures
        r@ == candidate_order(os),
{
    let r = match os {
        OsFamily::Windows => vec![Candidate::ManagedVenv, Candidate::WindowsLauncher],
        OsFamily::Other => vec![Candidate::ManagedVenv, Candidate::SystemPython],
    };
    assert(r@ =~= candidate_order(os));
    r
}

/// Chooses the interpreter: the first candidate that is usable wins.
/// `managed_present` says whether the managed interpreter's binary exists.
pub fn locate(root: &FsPath, os: OsFamily, managed_present: bool) -> (r: Interpreter)
    ensures
        r@ == located(root@, os, managed_present),
{
    let order = candidates(os);
    let mut i: usize = 0;
    while i < order.len()
        invariant
            order@ == candidate_order(os),
            i <= order@.len(),
            forall|j: int| 0 <= j < i ==> #[trigger] order@[j] == Candidate::ManagedVenv,
            i > 0 ==> !managed_present,
        decreases order.len() - i,
    {
        match order[i] {
            Candidate::ManagedVenv => {
                if let Some(p) = venv_python(root, os, managed_present) {
                    return Interpreter::Managed(p);
                }
            },
            Candidate::WindowsLauncher => {
                return Interpreter::Launcher;
            },
            Candidate::SystemPython => {
                return Interpreter::System;
            },
        }
        i = i + 1;
    }
    assert(order@[1] == Candidate::ManagedVenv);
    Interpreter::System
}

/// The managed interpreter is chosen whenever it exists, on every family; only
/// where it does not is the system interpreter chosen.
pub proof fn lemma_managed_interpreter_preferred(root: PathModel, os: OsFamily)
    ensures
        located(root, os, true) == InterpreterModel::Managed(managed_interpreter_path(root, os)),
        !(located(root, os, false) is Managed),
        os == OsFamily::Windows ==> located(root, os, false) == InterpreterModel::Launcher,
        os == OsFamily::Other ==> located(root, os, false) == InterpreterModel::System,
{
}

} // verus!
