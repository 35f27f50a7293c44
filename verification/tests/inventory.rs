use apk_bridge::error::AppError;
use apk_bridge::files::list_apk_files;
use apk_bridge::inventory::{get_all_third_party_package_info, list_third_party_packages};
use apk_bridge::parser::PackageInfo;

fn record(name: &str) -> PackageInfo {
    PackageInfo {
        name: name.to_string(),
        version_name: "1.0".to_string(),
        version_code: "1".to_string(),
        label: name.to_string(),
    }
}

#[test]
fn listing_yields_base_apk_paths_in_order() {
    let output = [
        "package:/data/app/com.a-1/base.apk=com.a",
        "package:/data/app/com.b-2/base.apk=com.b",
        "package:/data/app/com.c-3/split_config.apk=com.c",
        "junk line",
    ]
    .join("\n");
    let paths = list_third_party_packages(true, &output).unwrap();
    assert_eq!(
        paths,
        vec![
            "/data/app/com.a-1/base.apk".to_string(),
            "/data/app/com.b-2/base.apk".to_string(),
        ]
    );
}

#[test]
fn failed_listing_command_fails_the_batch() {
    match list_third_party_packages(false, "") {
        Err(AppError::OtherError(m)) => assert_eq!(m, "Failed to execute adb command."),
        other => panic!("expected a wrapped failure, got {other:?}"),
    }
}

#[test]
fn batch_of_ten_with_three_failures_yields_seven() {
    // Metadata lookup fails for three of ten packages: the batch neither
    // aborts nor reports an error, and exactly the seven successes remain.
    let mut results: Vec<Option<PackageInfo>> = Vec::new();
    for i in 0..10 {
        if i == 2 || i == 5 || i == 9 {
            results.push(None);
        } else {
            results.push(Some(record(&format!("com.pkg{i}"))));
        }
    }
    let collected = get_all_third_party_package_info(results);
    assert_eq!(collected.len(), 7);
    let names: Vec<&str> = collected.iter().map(|p| p.name.as_str()).collect();
    assert_eq!(
        names,
        vec!["com.pkg0", "com.pkg1", "com.pkg3", "com.pkg4", "com.pkg6", "com.pkg7", "com.pkg8"]
    );
}

#[test]
fn batch_keeps_listing_order_without_dedup() {
    let results = vec![Some(record("com.b")), Some(record("com.a")), Some(record("com.b"))];
    let collected = get_all_third_party_package_info(results);
    let names: Vec<&str> = collected.iter().map(|p| p.name.as_str()).collect();
    assert_eq!(names, vec!["com.b", "com.a", "com.b"]);
}

#[test]
fn apk_filter_is_case_sensitive_on_the_extension() {
    let entries = vec![
        "game.apk".to_string(),
        "notes.txt".to_string(),
        "dir/app.apk".to_string(),
        "upper.APK".to_string(),
        ".apk".to_string(),
        "archive.apk.bak".to_string(),
        "c:\\files\\tool.apk".to_string(),
    ];
    assert_eq!(
        list_apk_files(entries),
        vec![
            "game.apk".to_string(),
            "dir/app.apk".to_string(),
            "c:\\files\\tool.apk".to_string(),
        ]
    );
}
