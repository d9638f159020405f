//! Choosing what to launch: the interpreter command, the script path, and
//! whether a spawn may be attempted at all.

use vstd::prelude::*;

verus! {

/// The interpreter command chosen for a given override value: the override
/// itself when it is set and non-empty, otherwise the fixed default command.
pub open spec fn spec_interpreter_command(override_value: Option<String>) -> Seq<char> {
    match override_value {
        Some(v) => if v@.len() == 0 {
            "python"@
        } else {
            v@
        },
        None => "python"@,
    }
}

/// Determines the interpreter command from the override environment variable's
/// value, if any: an absent or empty override yields the default command.
pub fn interpreter_command(override_value: Option<String>) -> (cmd: String)
    ensures
        cmd@ == spec_interpreter_command(override_value),
{
    match override_value {
        Some(v) => {
            if v.as_str().is_empty() {
                "python".to_owned()
            } else {
                v
            }
        },
        None => "python".to_owned(),
    }
}

/// The script path used for a given resource-resolution result: the resolved
/// path when resolution succeeded, otherwise the fixed relative fallback.
pub open spec fn spec_resolved_script(resource_path: Option<String>) -> Seq<char> {
    match resource_path {
        Some(p) => p@,
        None => "../server/main.py"@,
    }
}

/// Determines the backend script path from the outcome of resolving it under
/// the bundled-resource root. A failed resolution falls back to a fixed
/// relative path rather than aborting the launch.
pub fn resolve_script(resource_path: Option<String>) -> (script: String)
    ensures
        script@ == spec_resolved_script(resource_path),
{
    match resource_path {
        Some(p) => p,
        None => "../server/main.py".to_owned(),
    }
}

/// What the launch sequence does after the interpreter command has been
/// checked against the executable search path: either spawn the interpreter
/// with the script path as its sole argument, or report that the interpreter
/// is missing and spawn nothing.
#[derive(Debug, Clone, PartialEq, Eq)]
pub enum LaunchPlan {
    Spawn { command: String, argument: String },
    ReportInterpreterNotFound,
}

impl View for LaunchPlan {
    type V = Option<(Seq<char>, Seq<char>)>;

    /// The spawn call a plan asks for: the command and its sole argument, or
    /// nothing at all.
    open spec fn view(&self) -> Option<(Seq<char>, Seq<char>)> {
        match self {
            LaunchPlan::Spawn { command, argument } => Some((command@, argument@)),
            LaunchPlan::ReportInterpreterNotFound => None,
        }
    }
}

/// The spawn call planned for an interpreter, a script, and the result of the
/// search-path check: exactly one spawn of the interpreter with the script as
/// sole argument when the interpreter resolves, none otherwise.
pub open spec fn spec_launch_plan(
    interpreter: Seq<char>,
    script: Seq<char>,
    interpreter_resolvable: bool,
) -> Option<(Seq<char>, Seq<char>)> {
    if interpreter_resolvable {
        Some((interpreter, script))
    } else {
        None
    }
}

/// Decides whether to spawn. `interpreter_resolvable` is the result of looking
/// the interpreter command up on the OS executable search path; nothing else
/// is pre-validated, in particular the script path's existence is not.
pub fn plan_launch(interpreter: String, script: String, interpreter_resolvable: bool) -> (plan:
    LaunchPlan)
    ensures
        plan@ == spec_launch_plan(interpreter@, script@, interpreter_resolvable),
{
    if interpreter_resolvable {
        LaunchPlan::Spawn { command: interpreter, argument: script }
    } else {
        LaunchPlan::ReportInterpreterNotFound
    }
}

/// Whatever the override names, if it does not resolve on the executable
/// search path the launch sequence reports a missing interpreter and plans no
/// spawn call.
pub proof fn lemma_unresolvable_interpreter_never_spawned(
    override_value: Option<String>,
    script: Seq<char>,
)
    ensures
        spec_launch_plan(spec_interpreter_command(override_value), script, false) is None,
{
}

/// Whatever the override names, if it resolves on the executable search path
/// the launch sequence plans exactly one spawn call: the chosen interpreter
/// with the script path as its sole argument. A set, non-empty override is
/// itself the chosen interpreter.
pub proof fn lemma_resolvable_interpreter_spawned_once(
    override_value: Option<String>,
    script: Seq<char>,
)
    ensures
        spec_launch_plan(spec_interpreter_command(override_value), script, true) == Some(
            (spec_interpreter_command(override_value), script),
        ),
        override_value matches Some(v) ==> (v@.len() > 0 ==> spec_interpreter_command(
            override_value,
        ) == v@),
{
}

} // verus!
