//! Supervision of a companion backend process: where the project lives, which
//! interpreter runs the backend, how it is launched, the address the user
//! interface is told, and the single handle that shutdown terminates.
pub mod endpoint;
pub mod interpreter;
pub mod launch;
pub mod path;
pub mod root;
pub mod supervisor;

pub use endpoint::{decimal_text, Endpoint};
pub use interpreter::{
    candidates, locate, venv_python, venv_python_path, Candidate, Interpreter, OsFamily,
};
pub use launch::{bridge_command, LaunchArg, LaunchPlan, Program};
pub use path::{FsPath, PathModel};
pub use root::{find_project_root, RootError};
pub use supervisor::{HostEvent, Lifecycle, SpawnError, StartOutcome, Supervisor};
