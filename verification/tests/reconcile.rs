use apk_bridge::reconcile::{
    check_if_package_in_app_list, check_if_package_installed, get_installed_package_version,
};

const LISTING: &str = "package:com.other\npackage:com.x\npackage:com.x.helper";

fn version_dump(version: &str) -> String {
    format!("Packages:\n  Package [com.x]\n    versionCode=3\n    versionName={version}\n    flags=[]")
}

#[test]
fn presence_needs_the_exact_line() {
    assert!(check_if_package_in_app_list(LISTING, "com.x"));
    assert!(check_if_package_in_app_list(LISTING, "com.other"));
    // A substring of a listed name is not listed itself.
    assert!(!check_if_package_in_app_list(LISTING, "com"));
    assert!(!check_if_package_in_app_list(LISTING, "com.x.h"));
    assert!(!check_if_package_in_app_list(LISTING, "com.missing"));
}

#[test]
fn installed_version_is_the_trimmed_token_after_the_equals_sign() {
    assert_eq!(
        get_installed_package_version(&version_dump(" 1.2 ")),
        Some("1.2".to_string())
    );
    assert_eq!(get_installed_package_version("no assignments"), None);
}

#[test]
fn version_line_without_equals_sign_is_passed_over() {
    let dump = "versionName missing here\n    versionName=2.0";
    assert_eq!(get_installed_package_version(dump), Some("2.0".to_string()));
}

#[test]
fn absent_package_is_never_satisfied() {
    // Whatever the version query would say, an unlisted package needs an install.
    let outcome = check_if_package_installed(
        LISTING,
        Some(&version_dump("1.2")),
        "com.missing",
        "1.2",
    );
    assert!(!outcome.already_satisfied);
    assert_eq!(outcome.installed_version, None);
}

#[test]
fn matching_version_after_trimming_is_satisfied() {
    let outcome =
        check_if_package_installed(LISTING, Some(&version_dump("1.2")), "com.x", " 1.2 ");
    assert!(outcome.already_satisfied);
    assert_eq!(outcome.installed_version, Some("1.2".to_string()));
}

#[test]
fn any_other_character_difference_is_not_satisfied() {
    for candidate in ["1.20", "v1.2", "1.2-beta", "1·2", ""] {
        let outcome =
            check_if_package_installed(LISTING, Some(&version_dump("1.2")), "com.x", candidate);
        assert!(!outcome.already_satisfied, "candidate {candidate:?}");
        assert_eq!(outcome.installed_version, Some("1.2".to_string()));
    }
}

#[test]
fn failed_version_query_is_not_satisfied() {
    let outcome = check_if_package_installed(LISTING, None, "com.x", "1.2");
    assert!(!outcome.already_satisfied);
    assert_eq!(outcome.installed_version, None);

    let outcome = check_if_package_installed(LISTING, Some("garbage output"), "com.x", "1.2");
    assert!(!outcome.already_satisfied);
    assert_eq!(outcome.installed_version, None);
}
