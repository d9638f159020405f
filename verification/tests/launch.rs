use backend_supervisor::launch::{interpreter_command, plan_launch, resolve_script, LaunchPlan};

#[test]
fn default_interpreter_when_override_unset() {
    assert_eq!(interpreter_command(None), "python");
}

#[test]
fn default_interpreter_when_override_empty() {
    assert_eq!(interpreter_command(Some(String::new())), "python");
}

#[test]
fn override_interpreter_when_set() {
    assert_eq!(
        interpreter_command(Some("/usr/local/bin/python3".to_string())),
        "/usr/local/bin/python3"
    );
}

#[test]
fn resolved_script_is_used() {
    assert_eq!(
        resolve_script(Some("/app/resources/server/main.py".to_string())),
        "/app/resources/server/main.py"
    );
}

#[test]
fn failed_resolution_falls_back_to_relative_path() {
    assert_eq!(resolve_script(None), "../server/main.py");
}

#[test]
fn resolvable_interpreter_plans_one_spawn() {
    let plan = plan_launch("python".to_string(), "../server/main.py".to_string(), true);
    assert_eq!(
        plan,
        LaunchPlan::Spawn {
            command: "python".to_string(),
            argument: "../server/main.py".to_string(),
        }
    );
}

#[test]
fn unresolvable_interpreter_plans_no_spawn() {
    let plan = plan_launch(
        "/nonexistent/bin".to_string(),
        "../server/main.py".to_string(),
        false,
    );
    assert_eq!(plan, LaunchPlan::ReportInterpreterNotFound);
}

#[test]
fn missing_script_does_not_stop_the_spawn() {
    // Script existence is never pre-validated: a resolvable interpreter is
    // spawned even when the script path points nowhere.
    let plan = plan_launch("python".to_string(), "/no/such/script.py".to_string(), true);
    assert_eq!(
        plan,
        LaunchPlan::Spawn {
            command: "python".to_string(),
            argument: "/no/such/script.py".to_string(),
        }
    );
}
