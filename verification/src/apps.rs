//! Installed apps, and which of them a shutdown disables and a launch enables again.
use vstd::prelude::*;

verus! {

/// The reason that a shutdown gives for disabling an app.
pub const NETWORK_SHUTDOWN_DISABLED_APP_REASON: &'static str = "holochain_runtime/network_shutdown";

/// Why an app is disabled.
#[derive(Debug, PartialEq, Eq)]
pub enum DisabledAppReason {
    /// It was installed and never started.
    NeverStarted,
    /// Its membrane proofs came late, and it was not enabled after that.
    NotStartedAfterProvidingMemproofs,
    /// The user disabled it.
    User,
    /// It was disabled with the error given.
    Error(String),
}

/// The state of an app.
#[derive(Debug, PartialEq, Eq)]
pub enum AppStatus {
    Enabled,
    Disabled(DisabledAppReason),
    /// It is installed, and its membrane proofs are still to come.
    AwaitingMemproofs,
}

/// An installed app.
#[derive(Debug, PartialEq, Eq)]
pub struct AppInfo {
    pub installed_app_id: String,
    pub status: AppStatus,
}

/// Which apps to list.
#[derive(Clone, Copy, Debug, PartialEq, Eq)]
pub enum AppStatusFilter {
    Enabled,
    Disabled,
}

/// One app to disable, and the reason to give.
#[derive(Debug, PartialEq, Eq)]
pub struct DisableApp {
    pub app_id: String,
    pub reason: DisabledAppReason,
}

/// The reason is the one that a shutdown gives.
pub open spec fn is_network_shutdown(reason: DisabledAppReason) -> bool {
    reason matches DisabledAppReason::Error(text) && text@ == NETWORK_SHUTDOWN_DISABLED_APP_REASON@
}

/// The app was disabled by a shutdown.
pub open spec fn disabled_by_shutdown(status: AppStatus) -> bool {
    status matches AppStatus::Disabled(reason) && is_network_shutdown(reason)
}

/// The ids of the apps with a status that `keep` accepts, in the order of the list.
pub open spec fn ids_where(apps: Seq<AppInfo>, keep: spec_fn(AppStatus) -> bool) -> Seq<String> {
    apps.filter_map(
        |app: AppInfo|
            if keep(app.status) {
                Some(app.installed_app_id)
            } else {
                None
            },
    )
}

/// The ids of the apps that a shutdown disabled, in the order of the list.
pub open spec fn reenabled_ids(apps: Seq<AppInfo>) -> Seq<String> {
    ids_where(apps, |status: AppStatus| disabled_by_shutdown(status))
}

/// Some app of the list has the id.
pub open spec fn lists_app(apps: Seq<AppInfo>, app_id: Seq<char>) -> bool {
    exists|i: int| 0 <= i < apps.len() && (#[trigger] apps[i]).installed_app_id@ == app_id
}

/// Every app of the list is to be disabled for the network shutdown, in the order of the list.
pub open spec fn disables_all(requests: Seq<DisableApp>, apps: Seq<AppInfo>) -> bool {
    &&& requests.len() == apps.len()
    &&& forall|i: int|
        0 <= i < apps.len() ==> (#[trigger] requests[i]).app_id == apps[i].installed_app_id
            && is_network_shutdown(requests[i].reason)
}

fn was_disabled_by_shutdown(status: &AppStatus) -> (yes: bool)
    ensures
        yes == disabled_by_shutdown(*status),
{
    match status {
        AppStatus::Disabled(DisabledAppReason::Error(reason)) => {
            let expected: String = NETWORK_SHUTDOWN_DISABLED_APP_REASON.to_owned();
            *reason == expected
        },
        _ => false,
    }
}

/// The apps that a launch has to enable again: those that a shutdown disabled.
pub fn apps_to_reenable(apps: &Vec<AppInfo>) -> (app_ids: Vec<String>)
    ensures
        app_ids@ == reenabled_ids(apps@),
{
    let mut app_ids: Vec<String> = Vec::new();
    let mut i: usize = 0;
    assert(apps@.take(0) =~= Seq::<AppInfo>::empty());
    while i < apps.len()
        invariant
            i <= apps.len(),
            app_ids@ == reenabled_ids(apps@.take(i as int)),
        decreases apps.len() - i,
    {
        assert(apps@.take(i + 1).drop_last() =~= apps@.take(i as int));
        assert(apps@.take(i + 1).last() == apps@[i as int]);
        if was_disabled_by_shutdown(&apps[i].status) {
            app_ids.push(apps[i].installed_app_id.clone());
        }
        assert(app_ids@ =~= reenabled_ids(apps@.take(i + 1)));
        i = i + 1;
    }
    assert(apps@.take(i as int) =~= apps@);
    app_ids
}

/// The requests by which a shutdown takes the listed apps off their networks.
pub fn apps_to_disable(apps: &Vec<AppInfo>) -> (requests: Vec<DisableApp>)
    ensures
        disables_all(requests@, apps@),
{
    let mut requests: Vec<DisableApp> = Vec::new();
    let mut i: usize = 0;
    while i < apps.len()
        invariant
            i <= apps.len(),
            disables_all(requests@, apps@.take(i as int)),
        decreases apps.len() - i,
    {
        let reason = DisabledAppReason::Error(NETWORK_SHUTDOWN_DISABLED_APP_REASON.to_owned());
        requests.push(DisableApp { app_id: apps[i].installed_app_id.clone(), reason });
        i = i + 1;
    }
    assert(apps@.take(i as int) =~= apps@);
    requests
}

/// Whether an app with the id is among those listed.
pub fn is_listed(apps: &Vec<AppInfo>, app_id: &String) -> (yes: bool)
    ensures
        yes == lists_app(apps@, app_id@),
{
    let mut i: usize = 0;
    while i < apps.len()
        invariant
            i <= apps.len(),
            forall|j: int| 0 <= j < i ==> (#[trigger] apps@[j]).installed_app_id@ != app_id@,
        decreases apps.len() - i,
    {
        if apps[i].installed_app_id == *app_id {
            return true;
        }
        i = i + 1;
    }
    false
}

/// `after` is what becomes of `before` when every enabled app is disabled for the network
/// shutdown, and nothing else happens.
pub open spec fn after_shutdown(before: Seq<AppInfo>, after: Seq<AppInfo>) -> bool {
    &&& before.len() == after.len()
    &&& forall|i: int|
        #![trigger after[i]]
        0 <= i < before.len() ==> {
            &&& after[i].installed_app_id == before[i].installed_app_id
            &&& if before[i].status is Enabled {
                disabled_by_shutdown(after[i].status)
            } else {
                after[i].status == before[i].status
            }
        }
}

/// The id is one of `app_ids`.
pub open spec fn names_app(app_ids: Seq<String>, app_id: Seq<char>) -> bool {
    exists|k: int| 0 <= k < app_ids.len() && (#[trigger] app_ids[k])@ == app_id
}

/// An id is picked exactly where an app with that id has a status that is kept.
proof fn lemma_ids_where_names(
    apps: Seq<AppInfo>,
    keep: spec_fn(AppStatus) -> bool,
    app_id: Seq<char>,
)
    ensures
        names_app(ids_where(apps, keep), app_id) <==> exists|i: int|
            0 <= i < apps.len() && keep((#[trigger] apps[i]).status) && apps[i].installed_app_id@
                == app_id,
    decreases apps.len(),
{
    if apps.len() > 0 {
        let rest = apps.drop_last();
        let last = apps.last();
        lemma_ids_where_names(rest, keep, app_id);
        let ids = ids_where(apps, keep);
        let rest_ids = ids_where(rest, keep);
        if keep(last.status) {
            assert(ids == rest_ids + seq![last.installed_app_id]);
            assert(ids[ids.len() - 1] == last.installed_app_id);
        } else {
            assert(ids == rest_ids);
        }
        if names_app(ids, app_id) {
            let k = choose|k: int| 0 <= k < ids.len() && (#[trigger] ids[k])@ == app_id;
            if keep(last.status) && k == ids.len() - 1 {
                assert(apps[apps.len() - 1] == last);
            } else {
                assert(rest_ids[k]@ == app_id);
                let i = choose|i: int|
                    0 <= i < rest.len() && keep((#[trigger] rest[i]).status)
                        && rest[i].installed_app_id@ == app_id;
                assert(apps[i] == rest[i]);
            }
        }
        if exists|i: int|
            0 <= i < apps.len() && keep((#[trigger] apps[i]).status) && apps[i].installed_app_id@
                == app_id {
            let i = choose|i: int|
                0 <= i < apps.len() && keep((#[trigger] apps[i]).status)
                    && apps[i].installed_app_id@ == app_id;
            if i < rest.len() {
                assert(rest[i] == apps[i]);
                let k = choose|k: int|
                    0 <= k < rest_ids.len() && (#[trigger] rest_ids[k])@ == app_id;
                assert(ids[k]@ == app_id);
            }
        }
    }
}

/// What one list keeps by one rule is what the other keeps by another, where the rules agree on
/// each pair of apps.
proof fn lemma_ids_where_agree(
    these: Seq<AppInfo>,
    keep_these: spec_fn(AppStatus) -> bool,
    those: Seq<AppInfo>,
    keep_those: spec_fn(AppStatus) -> bool,
)
    requires
        these.len() == those.len(),
        forall|i: int|
            #![trigger these[i]]
            #![trigger those[i]]
            0 <= i < these.len() ==> these[i].installed_app_id == those[i].installed_app_id
                && keep_these(these[i].status) == keep_those(those[i].status),
    ensures
        ids_where(these, keep_these) == ids_where(those, keep_those),
    decreases these.len(),
{
    if these.len() > 0 {
        assert(these.last() == these[these.len() - 1]);
        assert(those.last() == those[those.len() - 1]);
        assert forall|i: int|
            #![trigger these.drop_last()[i]]
            #![trigger those.drop_last()[i]]
            0 <= i < these.drop_last().len() implies these.drop_last()[i].installed_app_id
            == those.drop_last()[i].installed_app_id && keep_these(these.drop_last()[i].status)
            == keep_those(those.drop_last()[i].status) by {
            assert(these.drop_last()[i] == these[i]);
            assert(those.drop_last()[i] == those[i]);
        }
        lemma_ids_where_agree(these.drop_last(), keep_these, those.drop_last(), keep_those);
    }
}

/// A launch after a shutdown enables again the apps that were enabled before the shutdown, and
/// beside them only those that an earlier shutdown had left disabled, in the order of the list.
pub proof fn law_launch_reenables_what_shutdown_disabled(
    before: Seq<AppInfo>,
    after: Seq<AppInfo>,
)
    requires
        after_shutdown(before, after),
    ensures
        reenabled_ids(after) == ids_where(
            before,
            |status: AppStatus| status is Enabled || disabled_by_shutdown(status),
        ),
        (forall|i: int|
            0 <= i < before.len() ==> !disabled_by_shutdown((#[trigger] before[i]).status))
            ==> reenabled_ids(after) == ids_where(before, |status: AppStatus| status is Enabled),
{
    let by_shutdown = |status: AppStatus| disabled_by_shutdown(status);
    let either = |status: AppStatus| status is Enabled || disabled_by_shutdown(status);
    let enabled = |status: AppStatus| status is Enabled;
    lemma_ids_where_agree(after, by_shutdown, before, either);
    if forall|i: int|
        0 <= i < before.len() ==> !disabled_by_shutdown((#[trigger] before[i]).status) {
        lemma_ids_where_agree(after, by_shutdown, before, enabled);
    }
}

/// The status passes the filter.
pub open spec fn passes(filter: AppStatusFilter, status: AppStatus) -> bool {
    match filter {
        AppStatusFilter::Enabled => status is Enabled,
        AppStatusFilter::Disabled => status is Disabled,
    }
}

/// The list holds exactly the apps that pass the filter, of the apps by their ids, in any order.
pub open spec fn lists_by_id(
    listed: Seq<AppInfo>,
    apps: Map<Seq<char>, AppStatus>,
    filter: AppStatusFilter,
) -> bool {
    &&& forall|i: int|
        0 <= i < listed.len() ==> passes(filter, (#[trigger] listed[i]).status)
            && apps.contains_pair(listed[i].installed_app_id@, listed[i].status)
    &&& forall|app_id: Seq<char>| #[trigger]
        apps.contains_key(app_id) && passes(filter, apps[app_id]) ==> lists_app(listed, app_id)
}

/// A shutdown followed by a launch leaves every app as it was, of the apps that a conductor keeps
/// by their ids, whatever other apps there are, and also where some apps could not be disabled: an
/// app that was enabled is enabled, and one that was disabled for another reason, or waits for its
/// membrane proofs, is as it was. Only an app that an earlier shutdown had left disabled is enabled
/// by the launch. `enabled` is what the conductor lists at the shutdown, and `disabled` what it
/// lists at the launch.
pub proof fn law_launch_undoes_shutdown(
    before: Map<Seq<char>, AppStatus>,
    enabled: Seq<AppInfo>,
    requests: Seq<DisableApp>,
    stopped: Map<Seq<char>, AppStatus>,
    disabled: Seq<AppInfo>,
    launched: Map<Seq<char>, AppStatus>,
)
    requires
        lists_by_id(enabled, before, AppStatusFilter::Enabled),
        disables_all(requests, enabled),
        stopped.dom() == before.dom(),
        forall|app_id: Seq<char>| #[trigger]
            stopped.contains_key(app_id) ==> stopped[app_id] == before[app_id] || exists|k: int|
                0 <= k < requests.len() && (#[trigger] requests[k]).app_id@ == app_id
                    && stopped[app_id] == AppStatus::Disabled(requests[k].reason),
        lists_by_id(disabled, stopped, AppStatusFilter::Disabled),
        launched.dom() == stopped.dom(),
        forall|app_id: Seq<char>| #[trigger]
            launched.contains_key(app_id) ==> launched[app_id] == if names_app(
                reenabled_ids(disabled),
                app_id,
            ) {
                AppStatus::Enabled
            } else {
                stopped[app_id]
            },
    ensures
        launched.dom() == before.dom(),
        forall|app_id: Seq<char>| #[trigger]
            before.contains_key(app_id) ==> launched[app_id] == if disabled_by_shutdown(
                before[app_id],
            ) {
                AppStatus::Enabled
            } else {
                before[app_id]
            },
        (forall|app_id: Seq<char>| #[trigger]
            before.contains_key(app_id) ==> !disabled_by_shutdown(before[app_id])) ==> launched
            == before,
{
    let by_shutdown = |status: AppStatus| disabled_by_shutdown(status);
    assert forall|app_id: Seq<char>| #[trigger] before.contains_key(app_id) implies launched[app_id]
        == if disabled_by_shutdown(before[app_id]) {
        AppStatus::Enabled
    } else {
        before[app_id]
    } by {
        assert(stopped.contains_key(app_id) && launched.contains_key(app_id));
        lemma_ids_where_names(disabled, by_shutdown, app_id);
        if disabled_by_shutdown(stopped[app_id]) {
            assert(lists_app(disabled, app_id));
            let i = choose|i: int|
                0 <= i < disabled.len() && (#[trigger] disabled[i]).installed_app_id@ == app_id;
            assert(by_shutdown(disabled[i].status));
        } else if names_app(reenabled_ids(disabled), app_id) {
            let i = choose|i: int|
                0 <= i < disabled.len() && by_shutdown((#[trigger] disabled[i]).status)
                    && disabled[i].installed_app_id@ == app_id;
            assert(disabled_by_shutdown(stopped[app_id]));
        }
        if stopped[app_id] != before[app_id] {
            let k = choose|k: int|
                0 <= k < requests.len() && (#[trigger] requests[k]).app_id@ == app_id
                    && stopped[app_id] == AppStatus::Disabled(requests[k].reason);
            assert(enabled[k].installed_app_id@ == app_id);
        }
    }
    if forall|app_id: Seq<char>| #[trigger]
        before.contains_key(app_id) ==> !disabled_by_shutdown(before[app_id]) {
        assert(launched =~= before);
    }
}

/// The app is disabled with the error that stands for the shutdown of the network.
pub open spec fn is_left_by_shutdown(app: AppInfo) -> bool {
    &&& app.status matches AppStatus::Disabled(reason)
    &&& reason matches DisabledAppReason::Error(text)
    &&& text@ == "holochain_runtime/network_shutdown"@
}

/// The ids are those of the apps at the places `at` of the list, in its order.
pub open spec fn are_ids_at(app_ids: Seq<String>, apps: Seq<AppInfo>, at: Seq<int>) -> bool {
    &&& app_ids.len() == at.len()
    &&& forall|k: int|
        0 <= k < at.len() ==> 0 <= #[trigger] at[k] < apps.len() && app_ids[k]
            == apps[at[k]].installed_app_id
    &&& forall|k: int, m: int| 0 <= k < m < at.len() ==> #[trigger] at[k] < #[trigger] at[m]
}

/// The apps that a launch enables again are the apps of the list that are disabled with the error
/// of a shutdown, each once and in the order of the list, and no others.
pub proof fn law_launch_enables_what_is_left_by_a_shutdown(apps: Seq<AppInfo>)
    ensures
        exists|at: Seq<int>|
            {
                &&& #[trigger] are_ids_at(reenabled_ids(apps), apps, at)
                &&& forall|k: int| 0 <= k < at.len() ==> is_left_by_shutdown(apps[#[trigger] at[k]])
                &&& forall|i: int|
                    0 <= i < apps.len() && is_left_by_shutdown(#[trigger] apps[i]) ==> at.contains(
                        i,
                    )
            },
        reenabled_ids(apps).len() == 0 <==> forall|i: int|
            0 <= i < apps.len() ==> !is_left_by_shutdown(#[trigger] apps[i]),
    decreases apps.len(),
{
    if apps.len() == 0 {
        assert(are_ids_at(reenabled_ids(apps), apps, Seq::<int>::empty()));
    } else {
        let rest = apps.drop_last();
        let last = apps.last();
        law_launch_enables_what_is_left_by_a_shutdown(rest);
        let before = choose|at: Seq<int>|
            {
                &&& #[trigger] are_ids_at(reenabled_ids(rest), rest, at)
                &&& forall|k: int| 0 <= k < at.len() ==> is_left_by_shutdown(rest[#[trigger] at[k]])
                &&& forall|i: int|
                    0 <= i < rest.len() && is_left_by_shutdown(#[trigger] rest[i]) ==> at.contains(
                        i,
                    )
            };
        let at = if is_left_by_shutdown(last) {
            before.push(apps.len() - 1)
        } else {
            before
        };
        if is_left_by_shutdown(last) {
            assert(reenabled_ids(apps) == reenabled_ids(rest) + seq![last.installed_app_id]);
        } else {
            assert(reenabled_ids(apps) == reenabled_ids(rest));
        }
        assert forall|k: int| 0 <= k < at.len() implies 0 <= #[trigger] at[k] < apps.len()
            && reenabled_ids(apps)[k] == apps[at[k]].installed_app_id && is_left_by_shutdown(
            apps[at[k]],
        ) by {
            if k < before.len() {
                assert(at[k] == before[k]);
                assert(rest[before[k]] == apps[before[k]]);
            }
        }
        assert(are_ids_at(reenabled_ids(apps), apps, at));
        assert forall|i: int|
            0 <= i < apps.len() && is_left_by_shutdown(#[trigger] apps[i]) implies at.contains(
            i,
        ) by {
            if i < rest.len() {
                assert(rest[i] == apps[i]);
                let k = choose|k: int| 0 <= k < before.len() && before[k] == i;
                assert(at[k] == i);
            } else {
                assert(at[at.len() - 1] == i);
            }
        }
        if reenabled_ids(apps).len() == 0 {
            assert forall|i: int| 0 <= i < apps.len() implies !is_left_by_shutdown(
                #[trigger] apps[i],
            ) by {
                if is_left_by_shutdown(apps[i]) {
                    assert(at.contains(i));
                }
            }
        } else {
            assert(is_left_by_shutdown(apps[at[0]]));
        }
    }
}

/// A shutdown has each listed app disabled, once and in the order of the list, so that it is left
/// as one that a launch enables again, and no other app.
pub proof fn law_shutdown_leaves_apps_for_the_next_launch(
    requests: Seq<DisableApp>,
    apps: Seq<AppInfo>,
)
    requires
        disables_all(requests, apps),
    ensures
        requests.len() == apps.len(),
        forall|i: int| #![trigger requests[i]]
            0 <= i < requests.len() ==> requests[i].app_id == apps[i].installed_app_id
                && is_left_by_shutdown(
                AppInfo {
                    installed_app_id: requests[i].app_id,
                    status: AppStatus::Disabled(requests[i].reason),
                },
            ),
{
}

} // verus!
