//! The startup failures that the shell reports to the user.

use vstd::prelude::*;

verus! {

/// A startup failure of the backend launch sequence. Either the interpreter
/// command could not be resolved on the executable search path, or the OS
/// spawn call itself failed with the given error text. Both are reported as a
/// blocking error dialog and neither is retried; the shell keeps running
/// without a backend.
#[derive(Debug, Clone, PartialEq, Eq)]
pub enum Failure {
    InterpreterNotFound,
    SpawnFailed(String),
}

impl Failure {
    /// The title of the error dialog that reports this failure.
    pub fn title(&self) -> (t: String)
        ensures
            self is InterpreterNotFound ==> t@ == "Python not found"@,
            self is SpawnFailed ==> t@ == "Failed to start Python"@,
    {
        match self {
            Failure::InterpreterNotFound => "Python not found".to_owned(),
            Failure::SpawnFailed(_) => "Failed to start Python".to_owned(),
        }
    }

    /// The body text of the error dialog that reports this failure: a fixed
    /// instruction for a missing interpreter, the OS error text for a failed
    /// spawn.
    pub fn message(&self) -> (m: String)
        ensures
            self is InterpreterNotFound ==> m@
                == "Install Python or set the PYTHON_PATH environment variable."@,
            self matches Failure::SpawnFailed(err) ==> m@ == err@,
    {
        match self {
            Failure::InterpreterNotFound => "Install Python or set the PYTHON_PATH environment variable.".to_owned(),
            Failure::SpawnFailed(err) => err.clone(),
        }
    }
}

} // verus!
