use nixos_conjurer::app::{build_phases, parse_arguments, BuildPhase, Error, ErrorCode};
use nixos_conjurer::text::join_path;

#[test]
fn one_configuration_path() {
    let args = vec!["nixos-conjurer".to_string(), "conf.yaml".to_string()];
    assert_eq!(parse_arguments(&args).ok(), Some("conf.yaml".to_string()));
}

#[test]
fn wrong_argument_count_is_a_usage_error() {
    let none = vec!["nixos-conjurer".to_string()];
    assert_eq!(parse_arguments(&none).err().unwrap().code(), ErrorCode::CommandLineParserError);
    let many = vec!["a".to_string(), "b".to_string(), "c".to_string()];
    assert_eq!(parse_arguments(&many).err().unwrap().code(), ErrorCode::CommandLineParserError);
    assert!(parse_arguments(&Vec::new()).is_err());
}

#[test]
fn exit_statuses_are_distinct() {
    assert_eq!(ErrorCode::CommandLineParserError.value(), 1);
    assert_eq!(ErrorCode::ConfigurationLoaderError.value(), 2);
    assert_eq!(ErrorCode::InitializationError.value(), 3);
    assert_eq!(ErrorCode::RuntimeError.value(), 4);
}

#[test]
fn error_report() {
    let e = Error::new(ErrorCode::RuntimeError, "Build failed.");
    assert_eq!(e.code(), ErrorCode::RuntimeError);
    assert_eq!(e.to_text(), "Build failed. (4)");
}

#[test]
fn phases_in_order() {
    assert_eq!(
        build_phases(),
        vec![
            BuildPhase::CreateRoot,
            BuildPhase::StageConfiguration,
            BuildPhase::DownloadBaseSystem,
            BuildPhase::ExtractBaseSystem,
            BuildPhase::IsolatedBuild,
            BuildPhase::PullImage,
        ]
    );
    assert_eq!(BuildPhase::PullImage.name(), "Pulling the resulting image from the temporary root");
}

#[test]
fn paths_are_joined() {
    assert_eq!(join_path("/tmp/a", "new_root"), "/tmp/a/new_root");
    assert_eq!(join_path("/tmp/a/", "new_root"), "/tmp/a/new_root");
    assert_eq!(join_path("", "x"), "/x");
}
