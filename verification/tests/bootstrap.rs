use apk_bridge::bootstrap::{
    check_aapt_arm_pie_exists, permission_result, plan_bootstrap, transfer_result, RemoteCommand,
};
use apk_bridge::error::AppError;

const HELPER: &str = "aapt-arm-pie";
const LS_WITH_HELPER: &str = "cache\naapt-arm-pie\nsomething.txt";
const LS_WITHOUT_HELPER: &str = "cache\nsomething.txt\naapt-arm-pie.bak";

#[test]
fn presence_is_an_exact_trimmed_match() {
    assert!(check_aapt_arm_pie_exists(LS_WITH_HELPER, HELPER));
    assert!(check_aapt_arm_pie_exists("  aapt-arm-pie  \n", HELPER));
    assert!(!check_aapt_arm_pie_exists(LS_WITHOUT_HELPER, HELPER));
    assert!(!check_aapt_arm_pie_exists("aapt-arm", HELPER));
    assert!(!check_aapt_arm_pie_exists("", HELPER));
}

#[test]
fn absent_helper_plans_transfer_then_permission() {
    let plan = plan_bootstrap(LS_WITHOUT_HELPER, HELPER);
    assert_eq!(plan, vec![RemoteCommand::Transfer, RemoteCommand::SetPermission]);
}

#[test]
fn second_call_with_helper_present_issues_zero_commands() {
    // First call: helper absent, both commands planned and (say) performed.
    let first = plan_bootstrap(LS_WITHOUT_HELPER, HELPER);
    assert_eq!(first.len(), 2);
    // Second call: the live listing now shows the helper; the plan is empty,
    // so zero transfer and zero permission commands run.
    let second = plan_bootstrap(LS_WITH_HELPER, HELPER);
    assert_eq!(second, Vec::<RemoteCommand>::new());
}

#[test]
fn transfer_failure_is_fatal_with_install_error() {
    assert!(transfer_result(true).is_ok());
    match transfer_result(false) {
        Err(AppError::InstallError(m)) => {
            assert_eq!(m, "Failed to push aapt-arm-pie to the device.")
        }
        other => panic!("expected an install error, got {other:?}"),
    }
}

#[test]
fn permission_failure_is_fatal_with_other_error() {
    assert!(permission_result(true).is_ok());
    match permission_result(false) {
        Err(AppError::OtherError(m)) => {
            assert_eq!(m, "Failed to set permissions for aapt-arm-pie on the device.")
        }
        other => panic!("expected a wrapped failure, got {other:?}"),
    }
}
