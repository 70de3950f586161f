use hajime::backend::{artifact_dir, is_rust_python_project, select_backend};
use hajime::commands::{
    build_command, build_preflight, build_report, check_command, check_report, probe_command,
    publish_report, upload_command,
};
use hajime::registry::interpret_registry_response;
use hajime::{
    BackendKind, BuildError, CheckError, PublishError, RegistryLookupResult, SpawnOutcome,
    to_snake_case,
};

#[test]
fn native_needs_both_markers() {
    assert!(is_rust_python_project(true, true));
    assert!(!is_rust_python_project(true, false));
    assert!(!is_rust_python_project(false, true));
    assert!(!is_rust_python_project(false, false));
}

#[test]
fn hint_forces_native_backend() {
    assert_eq!(select_backend(true, false, false), BackendKind::Native);
    assert_eq!(select_backend(false, true, true), BackendKind::Native);
    assert_eq!(select_backend(false, true, false), BackendKind::Source);
}

#[test]
fn artifact_directory_follows_backend() {
    assert_eq!(artifact_dir(BackendKind::Native), "target/wheels");
    assert_eq!(artifact_dir(BackendKind::Source), "dist");
}

#[test]
fn probe_asks_for_the_version() {
    let plan = probe_command("maturin");
    assert_eq!(plan.program, "maturin");
    assert_eq!(plan.args, vec!["--version".to_string()]);
}

#[test]
fn build_commands_match_the_backend() {
    let native = build_command(BackendKind::Native);
    assert_eq!(native.program, "maturin");
    assert_eq!(native.args, vec!["build".to_string(), "--release".to_string()]);
    let source = build_command(BackendKind::Source);
    assert_eq!(source.program, "python");
    assert_eq!(
        source.args,
        vec!["-m".to_string(), "build".to_string(), "--no-isolation".to_string()]
    );
}

#[test]
fn upload_commands_pass_the_token_sentinel() {
    let native = upload_command(BackendKind::Native, "tok", "target/wheels/pkg.whl");
    assert_eq!(native.program, "maturin");
    assert_eq!(
        native.args,
        vec!["upload", "-u", "__token__", "-p", "tok", "target/wheels/pkg.whl"]
            .into_iter()
            .map(String::from)
            .collect::<Vec<_>>()
    );
    let source = upload_command(BackendKind::Source, "tok", "dist/pkg.whl");
    assert_eq!(source.program, "twine");
    assert_eq!(
        source.args,
        vec!["upload", "dist/pkg.whl", "--username", "__token__", "--password", "tok"]
            .into_iter()
            .map(String::from)
            .collect::<Vec<_>>()
    );
}

#[test]
fn check_prefers_dist_then_wheels_then_fails() {
    let plan = check_command(true, true).unwrap();
    assert_eq!(plan.program, "uv");
    assert_eq!(
        plan.args,
        vec!["run", "twine", "check", "dist/*"].into_iter().map(String::from).collect::<Vec<_>>()
    );
    let plan = check_command(false, true).unwrap();
    assert_eq!(
        plan.args,
        vec!["run", "twine", "check", "target/wheels/*"]
            .into_iter()
            .map(String::from)
            .collect::<Vec<_>>()
    );
    assert!(matches!(check_command(false, false), Err(CheckError::NoArtifacts)));
}

#[test]
fn preflight_fails_fast_without_the_tool() {
    assert!(matches!(
        build_preflight(false, BackendKind::Native),
        Err(BuildError::ToolNotFound)
    ));
    let plan = build_preflight(true, BackendKind::Native).unwrap();
    assert_eq!(plan.program, "maturin");
}

#[test]
fn reports_map_outcomes_to_the_taxonomy() {
    assert_eq!(build_report(SpawnOutcome::SpawnFailed), Err(BuildError::SpawnError));
    assert_eq!(build_report(SpawnOutcome::Exited { success: false }), Err(BuildError::BuildFailed));
    assert_eq!(build_report(SpawnOutcome::Exited { success: true }), Ok(()));
    assert_eq!(publish_report(SpawnOutcome::SpawnFailed), Err(PublishError::SpawnError));
    assert_eq!(
        publish_report(SpawnOutcome::Exited { success: false }),
        Err(PublishError::PublishFailed)
    );
    assert_eq!(publish_report(SpawnOutcome::Exited { success: true }), Ok(()));
    assert_eq!(check_report(SpawnOutcome::SpawnFailed), Err(CheckError::SpawnError));
    assert_eq!(check_report(SpawnOutcome::Exited { success: false }), Err(CheckError::CheckFailed));
    assert_eq!(check_report(SpawnOutcome::Exited { success: true }), Ok(()));
}

#[test]
fn registry_answer_with_version_is_found() {
    let body = b"{\"info\":{\"version\":\"1.4.2\"}}";
    match interpret_registry_response(true, body) {
        RegistryLookupResult::Found(v) => assert_eq!(v, "1.4.2"),
        _ => panic!("the version was there to find"),
    }
}

#[test]
fn registry_answer_without_version_is_not_found() {
    assert!(matches!(
        interpret_registry_response(true, b"{\"message\":\"who?\"}"),
        RegistryLookupResult::NotFound
    ));
    assert!(matches!(
        interpret_registry_response(true, b"not json at all"),
        RegistryLookupResult::NotFound
    ));
    assert!(matches!(
        interpret_registry_response(true, b"{\"info\":{\"version\":7}}"),
        RegistryLookupResult::NotFound
    ));
}

#[test]
fn no_answer_is_unreachable_not_not_found() {
    assert!(matches!(
        interpret_registry_response(false, b""),
        RegistryLookupResult::Unreachable
    ));
}

#[test]
fn kebab_names_become_snake_names() {
    assert_eq!(to_snake_case("my-new-project"), "my_new_project");
    assert_eq!(to_snake_case("plain"), "plain");
    assert_eq!(to_snake_case("--"), "__");
}
