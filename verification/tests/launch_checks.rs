use sombra_service::codes::LaunchFailure;
use sombra_service::launch::resolution_outcome;
use sombra_service::launch::validate_arguments;

#[test]
fn no_arguments_at_all() {
    let args: Vec<Option<String>> = Vec::new();
    let r = validate_arguments(&args);
    assert_eq!(r, Err(LaunchFailure::TooFewArguments));
    assert_eq!(LaunchFailure::TooFewArguments.code(), 6);
}

#[test]
fn only_the_service_name() {
    let args = vec![Some(String::from("svc"))];
    let r = validate_arguments(&args);
    assert_eq!(r, Err(LaunchFailure::TooFewArguments));
}

#[test]
fn undecodable_path_argument() {
    let args = vec![Some(String::from("svc")), None];
    let r = validate_arguments(&args);
    assert_eq!(r, Err(LaunchFailure::ArgumentNotText));
    assert_eq!(LaunchFailure::ArgumentNotText.code(), 5);
}

#[test]
fn an_undecodable_service_name_does_not_matter() {
    let args = vec![None, Some(String::from("C:\\target.exe"))];
    let r = validate_arguments(&args);
    assert_eq!(r, Ok(String::from("C:\\target.exe")));
}

#[test]
fn the_path_argument_is_extracted() {
    let args = vec![
        Some(String::from("svc")),
        Some(String::from("C:\\target.exe")),
        Some(String::from("ignored extra")),
    ];
    let r = validate_arguments(&args);
    assert_eq!(r, Ok(String::from("C:\\target.exe")));
}

#[test]
fn an_unresolved_path_is_target_not_found() {
    let r = resolution_outcome(None);
    assert_eq!(r, Err(LaunchFailure::TargetNotFound));
    assert_eq!(LaunchFailure::TargetNotFound.code(), 4);
}

#[test]
fn a_resolved_path_passes_through() {
    let r = resolution_outcome(Some(String::from("C:\\resolved\\target.exe")));
    assert_eq!(r, Ok(String::from("C:\\resolved\\target.exe")));
}

#[test]
fn spawn_failure_maps_to_child_process_error() {
    assert_eq!(LaunchFailure::SpawnFailed.code(), 2);
}
