use apk_bridge::error::AppError;
use apk_bridge::install::{
    already_installed_message, install_decision, install_result, resolve_candidate,
    InstallDecision,
};
use apk_bridge::reconcile::check_if_package_installed;

const BADGING: &str = "package: name='com.example' versionCode='42' versionName='2.0'\napplication-label:'Example'";

#[test]
fn resolves_name_and_version_from_badging() {
    let candidate = resolve_candidate(BADGING).unwrap();
    assert_eq!(candidate.name, "com.example");
    assert_eq!(candidate.version, "2.0");
}

#[test]
fn missing_name_is_package_name_not_found() {
    match resolve_candidate("application-label:'Example'") {
        Err(AppError::PackageNameNotFound) => {}
        other => panic!("expected the missing-name error, got {other:?}"),
    }
}

#[test]
fn missing_version_is_an_install_error() {
    let dump = "package: name='com.example' versionCode='42' versionName=''";
    match resolve_candidate(dump) {
        Err(AppError::InstallError(m)) => assert_eq!(m, "Package Version not found"),
        other => panic!("expected an install error, got {other:?}"),
    }
}

#[test]
fn scenario_installed_at_same_version_skips_install() {
    // The device lists the package and reports it installed at "2.0".
    let candidate = resolve_candidate(BADGING).unwrap();
    let listing = "package:com.example\npackage:com.other";
    let dump = "    versionName=2.0";
    let outcome =
        check_if_package_installed(listing, Some(dump), &candidate.name, &candidate.version);
    assert!(outcome.already_satisfied);
    match install_decision(outcome.already_satisfied, &candidate.name, &candidate.version) {
        InstallDecision::SkipAlreadyInstalled(message) => {
            assert!(message.contains("com.example"));
            assert!(message.contains("2.0"));
        }
        InstallDecision::ProceedWithInstall => panic!("the install must be skipped"),
    }
}

#[test]
fn scenario_no_matching_entry_proceeds_and_zero_exit_succeeds() {
    // The device has no entry for the package: the install subcommand runs
    // with the APK's path, and a zero exit hands back the tool's output.
    let candidate = resolve_candidate(BADGING).unwrap();
    let listing = "package:com.other";
    let outcome = check_if_package_installed(listing, None, &candidate.name, &candidate.version);
    assert!(!outcome.already_satisfied);
    let decision =
        install_decision(outcome.already_satisfied, &candidate.name, &candidate.version);
    assert_eq!(decision, InstallDecision::ProceedWithInstall);
    let result = install_result(true, "Success".to_string(), String::new());
    assert_eq!(result.unwrap(), "Success");
}

#[test]
fn scenario_non_zero_exit_is_an_install_error_with_stderr() {
    let result = install_result(
        false,
        String::new(),
        "adb: failed to install: INSTALL_FAILED".to_string(),
    );
    match result {
        Err(AppError::InstallError(m)) => {
            assert_eq!(m, "adb: failed to install: INSTALL_FAILED")
        }
        other => panic!("expected an install error, got {other:?}"),
    }
}

#[test]
fn skip_message_names_package_and_version() {
    let message = already_installed_message("com.example", "2.0");
    assert_eq!(message, "Package already installed: com.example version: 2.0");
}
