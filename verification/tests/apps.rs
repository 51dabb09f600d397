use holochain_runtime::apps::{
    apps_to_disable, apps_to_reenable, is_listed, AppInfo, AppStatus, DisabledAppReason,
    NETWORK_SHUTDOWN_DISABLED_APP_REASON,
};

fn app(id: &str, status: AppStatus) -> AppInfo {
    AppInfo { installed_app_id: id.to_string(), status }
}

fn disabled(reason: &str) -> AppStatus {
    AppStatus::Disabled(DisabledAppReason::Error(reason.to_string()))
}

#[test]
fn shutdown_reason_is_exact() {
    assert_eq!(NETWORK_SHUTDOWN_DISABLED_APP_REASON, "holochain_runtime/network_shutdown");
}

#[test]
fn only_apps_disabled_by_shutdown_are_enabled_again() {
    let apps = vec![
        app("a", disabled("holochain_runtime/network_shutdown")),
        app("b", disabled("out of memory")),
        app("c", AppStatus::Disabled(DisabledAppReason::User)),
        app("d", AppStatus::Disabled(DisabledAppReason::NeverStarted)),
        app("e", AppStatus::Disabled(DisabledAppReason::NotStartedAfterProvidingMemproofs)),
        app("f", AppStatus::AwaitingMemproofs),
        app("g", AppStatus::Enabled),
        app("h", disabled("holochain_runtime/network_shutdown")),
    ];
    assert_eq!(apps_to_reenable(&apps), ["a", "h"]);
    assert!(apps_to_reenable(&vec![]).is_empty());
}

#[test]
fn every_listed_app_is_disabled_for_shutdown() {
    let apps = vec![app("a", AppStatus::Enabled), app("b", AppStatus::Enabled)];
    let requests = apps_to_disable(&apps);
    assert_eq!(requests.len(), 2);
    for (request, id) in requests.iter().zip(["a", "b"]) {
        assert_eq!(request.app_id, id);
        assert_eq!(
            request.reason,
            DisabledAppReason::Error("holochain_runtime/network_shutdown".to_string())
        );
    }
    assert!(apps_to_disable(&vec![]).is_empty());
}

#[test]
fn launch_undoes_shutdown() {
    let before = vec![
        app("a", AppStatus::Enabled),
        app("b", AppStatus::Disabled(DisabledAppReason::User)),
        app("c", AppStatus::Enabled),
        app("d", AppStatus::AwaitingMemproofs),
    ];
    let enabled = vec![app("a", AppStatus::Enabled), app("c", AppStatus::Enabled)];
    let requests = apps_to_disable(&enabled);
    // Disabling "c" fails.
    let mut stopped = vec![
        app("a", AppStatus::Disabled(DisabledAppReason::User)),
        app("b", AppStatus::Disabled(DisabledAppReason::User)),
        app("c", AppStatus::Enabled),
        app("d", AppStatus::AwaitingMemproofs),
    ];
    for request in requests {
        if request.app_id == "a" {
            stopped[0].status = AppStatus::Disabled(request.reason);
        }
    }
    let listed = vec![
        app("a", disabled(NETWORK_SHUTDOWN_DISABLED_APP_REASON)),
        app("b", AppStatus::Disabled(DisabledAppReason::User)),
    ];
    assert_eq!(stopped[0], listed[0]);
    for id in apps_to_reenable(&listed) {
        for app in stopped.iter_mut() {
            if app.installed_app_id == id {
                app.status = AppStatus::Enabled;
            }
        }
    }
    assert_eq!(stopped, before);
}

#[test]
fn listed_apps_are_found_by_id() {
    let apps = vec![app("a", AppStatus::Enabled), app("b", AppStatus::AwaitingMemproofs)];
    assert!(is_listed(&apps, &"b".to_string()));
    assert!(!is_listed(&apps, &"ab".to_string()));
    assert!(!is_listed(&vec![], &"a".to_string()));
}
