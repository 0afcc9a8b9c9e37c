use vstd::prelude::*;
use crate::action::{ActionView, EventView};
use crate::error::ErrorView;
use crate::helpers::{active_flag, sealed_flag, Flavor};
use crate::http::step_down_request_view;
use crate::member::{MemberView, WorkloadView};
use crate::unseal::{accepts, submit};
use crate::upgrade::{
    cluster_after, cluster_first, connect, is_current_view, not_active, once_initialized,
    upgrade_after, upgrade_first, ClusterUpgradeView, PodApiView, PodUpgradeView,
    UpgradeOptionsView, UpgradePhase,
};
use crate::version::workload_version;

verus! {

/// Whether the upgrade of a member has ended.
pub open spec fn ended(phase: UpgradePhase) -> bool {
    phase is Done || phase is Failed
}

/// The actions of the upgrade of a member that is in the given state and is handed the
/// given events, one after the other: after each event the next action, up to the action
/// that ends the upgrade.
pub open spec fn upgrade_actions_after(
    api: PodApiView,
    target: Seq<char>,
    options: UpgradeOptionsView,
    state: PodUpgradeView,
    events: Seq<EventView>,
) -> Seq<ActionView>
    decreases events.len(),
{
    if events.len() == 0 || ended(state.phase) {
        Seq::empty()
    } else {
        let next = upgrade_after(api, target, options, state, events[0]);
        seq![next.1] + upgrade_actions_after(api, target, options, next.0, events.drop_first())
    }
}

/// The actions of the upgrade of a member that is handed the given events, one after the
/// other: its first action, then after each event the next, up to the action that ends the
/// upgrade.
pub open spec fn upgrade_actions(
    api: PodApiView,
    target: Seq<char>,
    options: UpgradeOptionsView,
    member: MemberView,
    events: Seq<EventView>,
) -> Seq<ActionView> {
    let first = upgrade_first(api, target, options, member);
    seq![first.1] + upgrade_actions_after(api, target, options, first.0, events)
}

/// Whether the deletion of the member still lies ahead of the phase: the procedure is
/// about to ask the member to step down, or waits for the effect of that.
pub open spec fn before_deletion(phase: UpgradePhase) -> bool {
    phase is Connecting || phase is SteppingDown || phase is AwaitingStandby
}

/// Whether an action asks a member to step down: it sends a request to the path of the
/// step-down.
pub open spec fn steps_down(action: ActionView) -> bool {
    action matches ActionView::Send { request } && request.path == "/v1/sys/step-down"@
}

/// A request for the seal status, and one that submits a key, do not go to the path of the
/// step-down.
pub proof fn paths_differ()
    ensures
        "/v1/sys/seal-status"@ != "/v1/sys/step-down"@,
        "/v1/sys/unseal"@ != "/v1/sys/step-down"@,
{
    reveal_strlit("/v1/sys/seal-status");
    reveal_strlit("/v1/sys/unseal");
    reveal_strlit("/v1/sys/step-down");
    assert("/v1/sys/seal-status"@.len() == 19);
    assert("/v1/sys/unseal"@.len() == 14);
    assert("/v1/sys/step-down"@.len() == 17);
}

/// Whether the upgrade restarts the member: it does unless the member runs the target
/// version and the options do not force the upgrade.
pub open spec fn restarts(
    target: Seq<char>,
    options: UpgradeOptionsView,
    member: MemberView,
) -> bool {
    options.force_upgrade || is_current_view(member, target) != Ok::<bool, ErrorView>(true)
}

/// One step of an upgrade in which the deletion does not lie ahead leads to such a phase
/// again, and neither deletes the member nor asks it to step down. Every step keeps the
/// name of the member.
pub proof fn step_after_deletion(
    api: PodApiView,
    target: Seq<char>,
    options: UpgradeOptionsView,
    state: PodUpgradeView,
    event: EventView,
)
    ensures
        upgrade_after(api, target, options, state, event).0.name == state.name,
        !before_deletion(state.phase) ==> {
            let next = upgrade_after(api, target, options, state, event);
            &&& !before_deletion(next.0.phase)
            &&& !(next.1 is Delete)
            &&& !steps_down(next.1)
        },
{
    paths_differ();
}

/// Once the deletion of the member does not lie ahead, no action of the upgrade deletes
/// the member or asks it to step down.
pub proof fn quiet_after_deletion(
    api: PodApiView,
    target: Seq<char>,
    options: UpgradeOptionsView,
    state: PodUpgradeView,
    events: Seq<EventView>,
)
    requires
        !before_deletion(state.phase),
    ensures
        forall|k: int|
            0 <= k < upgrade_actions_after(api, target, options, state, events).len() ==> {
                let action = #[trigger] upgrade_actions_after(
                    api,
                    target,
                    options,
                    state,
                    events,
                )[k];
                !(action is Delete) && !steps_down(action)
            },
    decreases events.len(),
{
    let actions = upgrade_actions_after(api, target, options, state, events);
    if events.len() > 0 && !ended(state.phase) {
        let next = upgrade_after(api, target, options, state, events[0]);
        let tail = upgrade_actions_after(api, target, options, next.0, events.drop_first());
        step_after_deletion(api, target, options, state, events[0]);
        quiet_after_deletion(api, target, options, next.0, events.drop_first());
        assert forall|k: int| 0 <= k < actions.len() implies {
            let action = #[trigger] actions[k];
            !(action is Delete) && !steps_down(action)
        } by {
            if k > 0 {
                assert(actions[k] == tail[k - 1]);
            }
        }
    }
}

/// An active member is deleted only after it has been asked to step down and has been
/// seen not to be the active one any more.
///
/// Whatever events the upgrade of a member is handed: an action that deletes a member
/// deletes the member that is upgraded, and only where the upgrade restarts it. Where the
/// labels of the member say that it is not the active one, the deletion is the first action.
/// Where they say that it is the active one, the deletion is the fourth action: before it
/// a channel was opened, the member was asked over it to step down and answered with status
/// 204, and the wait for the member not to be the active one was completed.
pub proof fn deletion_follows_step_down(
    api: PodApiView,
    target: Seq<char>,
    options: UpgradeOptionsView,
    member: MemberView,
    events: Seq<EventView>,
)
    ensures
        forall|k: int|
            0 <= k < upgrade_actions(api, target, options, member, events).len() && (
            #[trigger] upgrade_actions(api, target, options, member, events)[k]) is Delete ==> {
                let actions = upgrade_actions(api, target, options, member, events);
                &&& member.name is Some
                &&& actions[k] == (ActionView::Delete { member: member.name->0 })
                &&& restarts(target, options, member)
                &&& active_flag(member, api.flavor.name()) is Ok
                &&& active_flag(member, api.flavor.name()) == Ok::<bool, ErrorView>(false) ==> k
                    == 0
                &&& active_flag(member, api.flavor.name()) == Ok::<bool, ErrorView>(true) ==> {
                    &&& k == 3
                    &&& events.len() >= 3
                    &&& actions[0] == connect(api, member.name->0, 1, 0)
                    &&& actions[1] == (ActionView::Send {
                        request: step_down_request_view(api.flavor, options.token),
                    })
                    &&& actions[2] == (ActionView::Await {
                        member: member.name->0,
                        condition: not_active(api.flavor),
                    })
                    &&& events[0] is Completed
                    &&& events[1] matches EventView::Response(response) && response.status == 204
                    &&& events[2] is Completed
                }
            },
{
    let actions = upgrade_actions(api, target, options, member, events);
    let first = upgrade_first(api, target, options, member);
    let after0 = upgrade_actions_after(api, target, options, first.0, events);
    assert(actions == seq![first.1] + after0);
    if first.0.phase is Connecting {
        if events.len() > 0 {
            let next1 = upgrade_after(api, target, options, first.0, events[0]);
            let events1 = events.drop_first();
            let after1 = upgrade_actions_after(api, target, options, next1.0, events1);
            assert(after0 == seq![next1.1] + after1);
            if next1.0.phase is SteppingDown {
                if events1.len() > 0 {
                    let next2 = upgrade_after(api, target, options, next1.0, events1[0]);
                    let events2 = events1.drop_first();
                    let after2 = upgrade_actions_after(api, target, options, next2.0, events2);
                    assert(after1 == seq![next2.1] + after2);
                    assert(events1[0] == events[1]);
                    if next2.0.phase is AwaitingStandby {
                        if events2.len() > 0 {
                            let next3 = upgrade_after(api, target, options, next2.0, events2[0]);
                            let events3 = events2.drop_first();
                            let after3 = upgrade_actions_after(
                                api,
                                target,
                                options,
                                next3.0,
                                events3,
                            );
                            assert(after2 == seq![next3.1] + after3);
                            assert(events2[0] == events[2]);
                            if next3.0.phase is Deleting {
                                quiet_after_deletion(api, target, options, next3.0, events3);
                            } else {
                                assert(after3.len() == 0);
                            }
                            assert forall|k: int| 4 <= k < actions.len() implies !(
                            #[trigger] actions[k] is Delete) by {
                                assert(actions[k] == after3[k - 4]);
                            }
                            assert(actions[3] == next3.1);
                        } else {
                            assert(after2.len() == 0);
                        }
                        assert(actions[2] == next2.1);
                    } else {
                        assert(after2.len() == 0);
                    }
                    assert(actions[2] == next2.1);
                } else {
                    assert(after1.len() == 0);
                }
            } else {
                assert(after1.len() == 0);
            }
            assert(actions[1] == next1.1);
        } else {
            assert(after0.len() == 0);
        }
    } else {
        if !ended(first.0.phase) {
            quiet_after_deletion(api, target, options, first.0, events);
        }
        assert forall|k: int| 1 <= k < actions.len() implies !(#[trigger] actions[k] is Delete) by {
            assert(actions[k] == after0[k - 1]);
        }
    }
}

/// The names of the members that the given actions delete, in the order of the actions.
pub open spec fn deletions(actions: Seq<ActionView>) -> Seq<Seq<char>>
    decreases actions.len(),
{
    if actions.len() == 0 {
        Seq::empty()
    } else {
        match actions[0] {
            ActionView::Delete { member } => seq![member] + deletions(actions.drop_first()),
            _ => deletions(actions.drop_first()),
        }
    }
}

/// The deletions of an action followed by further actions.
pub proof fn deletions_of_first(action: ActionView, rest: Seq<ActionView>)
    ensures
        deletions(seq![action] + rest) == match action {
            ActionView::Delete { member } => seq![member] + deletions(rest),
            _ => deletions(rest),
        },
{
    assert((seq![action] + rest).drop_first() =~= rest);
}

proof fn lemma_deletions_after(
    api: PodApiView,
    target: Seq<char>,
    options: UpgradeOptionsView,
    state: PodUpgradeView,
    events: Seq<EventView>,
)
    requires
        upgrade_actions_after(api, target, options, state, events).len() > 0,
        upgrade_actions_after(api, target, options, state, events).last() is Done,
    ensures
        deletions(upgrade_actions_after(api, target, options, state, events)) == if before_deletion(
            state.phase,
        ) {
            seq![state.name]
        } else {
            Seq::<Seq<char>>::empty()
        },
    decreases events.len(),
{
    let run = upgrade_actions_after(api, target, options, state, events);
    let next = upgrade_after(api, target, options, state, events[0]);
    let tail = upgrade_actions_after(api, target, options, next.0, events.drop_first());
    assert(run == seq![next.1] + tail);
    deletions_of_first(next.1, tail);
    step_after_deletion(api, target, options, state, events[0]);
    if tail.len() > 0 {
        assert(run.last() == tail.last());
        lemma_deletions_after(api, target, options, next.0, events.drop_first());
    } else {
        assert(run.last() == next.1);
        assert(deletions(tail) =~= Seq::<Seq<char>>::empty());
    }
    assert(deletions(run) =~= if before_deletion(state.phase) {
        seq![state.name]
    } else {
        Seq::<Seq<char>>::empty()
    });
}

/// An upgrade that ends well has deleted the member once where it restarts it, and not
/// at all where it does not.
///
/// So with the option that forces the upgrade every member is deleted, whatever version it
/// runs, and without it a member that runs the target version is never deleted.
pub proof fn upgrade_deletes_once(
    api: PodApiView,
    target: Seq<char>,
    options: UpgradeOptionsView,
    member: MemberView,
    events: Seq<EventView>,
)
    requires
        upgrade_actions(api, target, options, member, events).last() is Done,
    ensures
        member.name is Some,
        deletions(upgrade_actions(api, target, options, member, events)) == if restarts(
            target,
            options,
            member,
        ) {
            seq![member.name->0]
        } else {
            Seq::<Seq<char>>::empty()
        },
{
    let actions = upgrade_actions(api, target, options, member, events);
    let first = upgrade_first(api, target, options, member);
    let rest = upgrade_actions_after(api, target, options, first.0, events);
    deletions_of_first(first.1, rest);
    if rest.len() > 0 {
        assert(actions.last() == rest.last());
        lemma_deletions_after(api, target, options, first.0, events);
    } else {
        assert(actions.last() == first.1);
    }
    assert(deletions(actions) =~= if restarts(target, options, member) {
        seq![member.name->0]
    } else {
        Seq::<Seq<char>>::empty()
    });
}

/// The upgrade of a member that runs the target version, without the option that forces
/// the upgrade, neither deletes the member nor asks it to step down, whatever events it is
/// handed.
pub proof fn current_member_is_left_running(
    api: PodApiView,
    target: Seq<char>,
    options: UpgradeOptionsView,
    member: MemberView,
    events: Seq<EventView>,
)
    requires
        !restarts(target, options, member),
    ensures
        forall|k: int|
            0 <= k < upgrade_actions(api, target, options, member, events).len() ==> {
                let action = #[trigger] upgrade_actions(api, target, options, member, events)[k];
                !(action is Delete) && !steps_down(action)
            },
{
    let actions = upgrade_actions(api, target, options, member, events);
    let first = upgrade_first(api, target, options, member);
    let rest = upgrade_actions_after(api, target, options, first.0, events);
    quiet_after_deletion(api, target, options, first.0, events);
    assert forall|k: int| 0 <= k < actions.len() implies {
        let action = #[trigger] actions[k];
        !(action is Delete) && !steps_down(action)
    } by {
        if k > 0 {
            assert(actions[k] == rest[k - 1]);
        }
    }
}

/// Whether the upgrade of a cluster has ended.
pub open spec fn cluster_ended(state: ClusterUpgradeView) -> bool {
    state is Done || state is Failed
}

/// The actions of the upgrade of a cluster that is in the given state and is handed the
/// given events, one after the other: after each event the next action, up to the action
/// that ends the upgrade.
pub open spec fn cluster_actions_after(
    flavor: Flavor,
    api: PodApiView,
    options: UpgradeOptionsView,
    state: ClusterUpgradeView,
    events: Seq<EventView>,
) -> Seq<ActionView>
    decreases events.len(),
{
    if events.len() == 0 || cluster_ended(state) {
        Seq::empty()
    } else {
        let next = cluster_after(flavor, api, options, state, events[0]);
        seq![next.1] + cluster_actions_after(flavor, api, options, next.0, events.drop_first())
    }
}

/// The actions of the upgrade of a cluster that is handed the given events, one after the
/// other: its first action, then after each event the next, up to the action that ends the
/// upgrade.
pub open spec fn cluster_actions(
    flavor: Flavor,
    api: PodApiView,
    options: UpgradeOptionsView,
    workload: WorkloadView,
    events: Seq<EventView>,
) -> Seq<ActionView> {
    let first = cluster_first(flavor, workload);
    seq![first.1] + cluster_actions_after(flavor, api, options, first.0, events)
}

/// The name of a member, or the empty text where it has none.
pub open spec fn name_of(member: MemberView) -> Seq<char> {
    match member.name {
        Some(name) => name,
        None => Seq::empty(),
    }
}

/// The names of those of the given members that the upgrade restarts, in the order of the
/// members.
pub open spec fn restarted(
    target: Seq<char>,
    options: UpgradeOptionsView,
    members: Seq<MemberView>,
) -> Seq<Seq<char>>
    decreases members.len(),
{
    if members.len() == 0 {
        Seq::empty()
    } else if restarts(target, options, members[0]) {
        seq![name_of(members[0])] + restarted(target, options, members.drop_first())
    } else {
        restarted(target, options, members.drop_first())
    }
}

/// How the upgrade of a member begins: it fails, or it opens a channel to a member that it
/// does not restart, or it deletes a standby member that it restarts, or it opens a channel
/// to an active member that it restarts.
pub proof fn first_step(
    api: PodApiView,
    target: Seq<char>,
    options: UpgradeOptionsView,
    member: MemberView,
)
    ensures
        ({
            let first = upgrade_first(api, target, options, member);
            &&& first.0.name == name_of(member)
            &&& !(first.1 is Done)
            &&& first.1 is Fail <==> first.0.phase is Failed
            &&& first.1 is Delete ==> first.0.phase is Deleting && restarts(target, options, member)
                && first.1 == (ActionView::Delete { member: name_of(member) })
            &&& !(first.1 is Delete) && !(first.1 is Fail) ==> first.1 is Connect && (
            first.0.phase is Connecting || first.0.phase is Opening) && (
            first.0.phase is Connecting <==> restarts(target, options, member))
            &&& !steps_down(first.1)
        }),
{
}

/// One step of the upgrade of a member ends it well only from the wait for the member to be
/// ready, and ends it in failure exactly when it leads to the failed phase.
pub proof fn last_step(
    api: PodApiView,
    target: Seq<char>,
    options: UpgradeOptionsView,
    state: PodUpgradeView,
    event: EventView,
)
    ensures
        ({
            let next = upgrade_after(api, target, options, state, event);
            &&& next.1 is Done ==> state.phase is AwaitingReady && next.0.phase is Done
            &&& next.1 is Fail <==> next.0.phase is Failed
            &&& next.0.phase is Done ==> next.1 is Done
        }),
{
}

proof fn lemma_cluster_deletions(
    flavor: Flavor,
    api: PodApiView,
    options: UpgradeOptionsView,
    target: Seq<char>,
    waiting: Seq<MemberView>,
    member: PodUpgradeView,
    events: Seq<EventView>,
)
    requires
        ({
            let run = cluster_actions_after(
                flavor,
                api,
                options,
                ClusterUpgradeView::Upgrading { target, waiting, member },
                events,
            );
            run.len() > 0 && run.last() is Done
        }),
    ensures
        deletions(
            cluster_actions_after(
                flavor,
                api,
                options,
                ClusterUpgradeView::Upgrading { target, waiting, member },
                events,
            ),
        ) == (if before_deletion(member.phase) {
            seq![member.name]
        } else {
            Seq::<Seq<char>>::empty()
        }) + restarted(target, options, waiting),
    decreases events.len(),
{
    let state = ClusterUpgradeView::Upgrading { target, waiting, member };
    let run = cluster_actions_after(flavor, api, options, state, events);
    let next = cluster_after(flavor, api, options, state, events[0]);
    let tail = cluster_actions_after(flavor, api, options, next.0, events.drop_first());
    assert(run == seq![next.1] + tail);
    deletions_of_first(next.1, tail);
    let step = upgrade_after(api, target, options, member, events[0]);
    step_after_deletion(api, target, options, member, events[0]);
    last_step(api, target, options, member, events[0]);
    if tail.len() > 0 {
        assert(run.last() == tail.last());
    } else {
        assert(run.last() == next.1);
        assert(deletions(tail) =~= Seq::<Seq<char>>::empty());
    }
    if step.1 is Done {
        if waiting.len() > 0 {
            first_step(api, target, options, waiting[0]);
            let first = upgrade_first(api, target, options, waiting[0]);
            if !(first.1 is Fail) {
                lemma_cluster_deletions(
                    flavor,
                    api,
                    options,
                    target,
                    waiting.drop_first(),
                    first.0,
                    events.drop_first(),
                );
            }
        }
    } else if !(step.1 is Fail) {
        lemma_cluster_deletions(flavor, api, options, target, waiting, step.0, events.drop_first());
    }
    assert(deletions(run) =~= (if before_deletion(member.phase) {
        seq![member.name]
    } else {
        Seq::<Seq<char>>::empty()
    }) + restarted(target, options, waiting));
}

/// An upgrade of a cluster that ends well has deleted the members that it restarts, each
/// once: first the standby members, in the order of their list, then the active ones, in
/// the order of theirs. Where either list is empty, it has deleted none.
pub proof fn cluster_restarts_standbys_first(
    flavor: Flavor,
    api: PodApiView,
    options: UpgradeOptionsView,
    workload: WorkloadView,
    events: Seq<EventView>,
)
    requires
        cluster_actions(flavor, api, options, workload, events).last() is Done,
    ensures
        workload_version(workload) is Ok,
        events.len() >= 1,
        events[0] is Members,
        ({
            let actions = cluster_actions(flavor, api, options, workload, events);
            let target = workload_version(workload)->Ok_0;
            let standby = events[0]->Members_0;
            if standby.len() == 0 {
                deletions(actions) == Seq::<Seq<char>>::empty()
            } else {
                &&& events.len() >= 2
                &&& events[1] is Members
                &&& {
                    let active = events[1]->Members_0;
                    if active.len() == 0 {
                        deletions(actions) == Seq::<Seq<char>>::empty()
                    } else {
                        deletions(actions) == restarted(target, options, standby + active)
                    }
                }
            }
        }),
{
    let actions = cluster_actions(flavor, api, options, workload, events);
    let first = cluster_first(flavor, workload);
    let after0 = cluster_actions_after(flavor, api, options, first.0, events);
    assert(actions == seq![first.1] + after0);
    deletions_of_first(first.1, after0);
    if after0.len() == 0 {
        assert(actions.last() == first.1);
    } else {
        assert(actions.last() == after0.last());
        let target = workload_version(workload)->Ok_0;
        let next1 = cluster_after(flavor, api, options, first.0, events[0]);
        let events1 = events.drop_first();
        let after1 = cluster_actions_after(flavor, api, options, next1.0, events1);
        assert(after0 == seq![next1.1] + after1);
        deletions_of_first(next1.1, after1);
        if after1.len() == 0 {
            assert(after0.last() == next1.1);
            assert(deletions(after1) =~= Seq::<Seq<char>>::empty());
        } else {
            assert(after0.last() == after1.last());
            let standby = events[0]->Members_0;
            let next2 = cluster_after(flavor, api, options, next1.0, events1[0]);
            let events2 = events1.drop_first();
            let after2 = cluster_actions_after(flavor, api, options, next2.0, events2);
            assert(after1 == seq![next2.1] + after2);
            assert(events1[0] == events[1]);
            deletions_of_first(next2.1, after2);
            if after2.len() == 0 {
                assert(after1.last() == next2.1);
                assert(deletions(after2) =~= Seq::<Seq<char>>::empty());
            } else {
                assert(after1.last() == after2.last());
                let active = events[1]->Members_0;
                let queue = standby + active;
                first_step(api, target, options, queue[0]);
                lemma_cluster_deletions(
                    flavor,
                    api,
                    options,
                    target,
                    queue.drop_first(),
                    next2.0->Upgrading_member,
                    events2,
                );
            }
        }
    }
}

/// With the option that forces the upgrade, every member is restarted.
pub proof fn forced_restarts_all(
    target: Seq<char>,
    options: UpgradeOptionsView,
    members: Seq<MemberView>,
)
    requires
        options.force_upgrade,
    ensures
        restarted(target, options, members) == members.map_values(|m: MemberView| name_of(m)),
    decreases members.len(),
{
    if members.len() > 0 {
        forced_restarts_all(target, options, members.drop_first());
    }
    assert(restarted(target, options, members) =~= members.map_values(
        |m: MemberView| name_of(m),
    ));
}

/// A forced upgrade of a cluster that ends well has deleted every member once, whatever
/// version it ran: first the standby members, in the order of their list, then the active
/// ones, in the order of theirs.
pub proof fn forced_upgrade_deletes_every_member(
    flavor: Flavor,
    api: PodApiView,
    options: UpgradeOptionsView,
    workload: WorkloadView,
    standby: Seq<MemberView>,
    active: Seq<MemberView>,
    rest: Seq<EventView>,
)
    requires
        options.force_upgrade,
        standby.len() > 0,
        active.len() > 0,
        cluster_actions(
            flavor,
            api,
            options,
            workload,
            seq![EventView::Members(standby), EventView::Members(active)] + rest,
        ).last() is Done,
    ensures
        deletions(
            cluster_actions(
                flavor,
                api,
                options,
                workload,
                seq![EventView::Members(standby), EventView::Members(active)] + rest,
            ),
        ) == (standby + active).map_values(|m: MemberView| name_of(m)),
{
    let events = seq![EventView::Members(standby), EventView::Members(active)] + rest;
    cluster_restarts_standbys_first(flavor, api, options, workload, events);
    assert(events[0] == EventView::Members(standby));
    assert(events[1] == EventView::Members(active));
    forced_restarts_all(workload_version(workload)->Ok_0, options, standby + active);
}

/// Without the option that forces the upgrade, no member is restarted where every member
/// runs the target version.
pub proof fn current_restarts_none(
    target: Seq<char>,
    options: UpgradeOptionsView,
    members: Seq<MemberView>,
)
    requires
        forall|i: int| 0 <= i < members.len() ==> !restarts(target, options, #[trigger] members[i]),
    ensures
        restarted(target, options, members) == Seq::<Seq<char>>::empty(),
    decreases members.len(),
{
    if members.len() > 0 {
        assert forall|i: int| 0 <= i < members.drop_first().len() implies !restarts(
            target,
            options,
            #[trigger] members.drop_first()[i],
        ) by {
            assert(members.drop_first()[i] == members[i + 1]);
        }
        current_restarts_none(target, options, members.drop_first());
    }
}

/// Whether an action neither deletes a member nor asks one to step down.
pub open spec fn is_quiet(action: ActionView) -> bool {
    !(action is Delete) && !steps_down(action)
}

proof fn lemma_cluster_quiet(
    flavor: Flavor,
    api: PodApiView,
    options: UpgradeOptionsView,
    target: Seq<char>,
    waiting: Seq<MemberView>,
    member: PodUpgradeView,
    events: Seq<EventView>,
)
    requires
        !before_deletion(member.phase),
        forall|i: int| 0 <= i < waiting.len() ==> !restarts(target, options, #[trigger] waiting[i]),
    ensures
        forall|k: int|
            0 <= k < cluster_actions_after(
                flavor,
                api,
                options,
                ClusterUpgradeView::Upgrading { target, waiting, member },
                events,
            ).len() ==> is_quiet(
                #[trigger] cluster_actions_after(
                    flavor,
                    api,
                    options,
                    ClusterUpgradeView::Upgrading { target, waiting, member },
                    events,
                )[k],
            ),
    decreases events.len(),
{
    let state = ClusterUpgradeView::Upgrading { target, waiting, member };
    let run = cluster_actions_after(flavor, api, options, state, events);
    if events.len() > 0 {
        let next = cluster_after(flavor, api, options, state, events[0]);
        let tail = cluster_actions_after(flavor, api, options, next.0, events.drop_first());
        assert(run == seq![next.1] + tail);
        let step = upgrade_after(api, target, options, member, events[0]);
        step_after_deletion(api, target, options, member, events[0]);
        last_step(api, target, options, member, events[0]);
        if step.1 is Done {
            if waiting.len() > 0 {
                first_step(api, target, options, waiting[0]);
                let first = upgrade_first(api, target, options, waiting[0]);
                assert forall|i: int| 0 <= i < waiting.drop_first().len() implies !restarts(
                    target,
                    options,
                    #[trigger] waiting.drop_first()[i],
                ) by {
                    assert(waiting.drop_first()[i] == waiting[i + 1]);
                }
                if !(first.1 is Fail) {
                    lemma_cluster_quiet(
                        flavor,
                        api,
                        options,
                        target,
                        waiting.drop_first(),
                        first.0,
                        events.drop_first(),
                    );
                }
            }
        } else if !(step.1 is Fail) {
            lemma_cluster_quiet(flavor, api, options, target, waiting, step.0, events.drop_first());
        }
        assert forall|k: int| 0 <= k < run.len() implies is_quiet(#[trigger] run[k]) by {
            if k > 0 {
                assert(run[k] == tail[k - 1]);
            }
        }
    }
}

/// Whether every member that the events list runs the target version, so that an upgrade
/// that is not forced restarts none of them.
pub open spec fn lists_only_current(
    target: Seq<char>,
    options: UpgradeOptionsView,
    events: Seq<EventView>,
) -> bool {
    forall|i: int, j: int|
        0 <= i < events.len() && events[i] is Members && 0 <= j < events[i]->Members_0.len()
            ==> !restarts(target, options, #[trigger] events[i]->Members_0[j])
}

/// The upgrade of a cluster in which every member runs the target version, without the
/// option that forces the upgrade, deletes no member and asks none to step down, whatever
/// events it is handed.
pub proof fn current_cluster_is_left_running(
    flavor: Flavor,
    api: PodApiView,
    options: UpgradeOptionsView,
    workload: WorkloadView,
    events: Seq<EventView>,
)
    requires
        workload_version(workload) is Ok ==> lists_only_current(
            workload_version(workload)->Ok_0,
            options,
            events,
        ),
    ensures
        forall|k: int|
            0 <= k < cluster_actions(flavor, api, options, workload, events).len() ==> is_quiet(
                #[trigger] cluster_actions(flavor, api, options, workload, events)[k],
            ),
{
    let actions = cluster_actions(flavor, api, options, workload, events);
    let first = cluster_first(flavor, workload);
    let after0 = cluster_actions_after(flavor, api, options, first.0, events);
    assert(actions == seq![first.1] + after0);
    if after0.len() > 0 {
        let target = workload_version(workload)->Ok_0;
        let next1 = cluster_after(flavor, api, options, first.0, events[0]);
        let events1 = events.drop_first();
        let after1 = cluster_actions_after(flavor, api, options, next1.0, events1);
        assert(after0 == seq![next1.1] + after1);
        if after1.len() > 0 {
            let standby = events[0]->Members_0;
            let next2 = cluster_after(flavor, api, options, next1.0, events1[0]);
            let events2 = events1.drop_first();
            let after2 = cluster_actions_after(flavor, api, options, next2.0, events2);
            assert(after1 == seq![next2.1] + after2);
            assert(events1[0] == events[1]);
            if events[1] is Members && events[1]->Members_0.len() > 0 {
                let active = events[1]->Members_0;
                let queue = standby + active;
                assert forall|i: int| 0 <= i < queue.len() implies !restarts(
                    target,
                    options,
                    #[trigger] queue[i],
                ) by {
                    if i < standby.len() {
                        assert(queue[i] == events[0]->Members_0[i]);
                    } else {
                        assert(queue[i] == events[1]->Members_0[i - standby.len()]);
                    }
                }
                first_step(api, target, options, queue[0]);
                if next2.0 is Upgrading {
                    assert forall|i: int| 0 <= i < queue.drop_first().len() implies !restarts(
                        target,
                        options,
                        #[trigger] queue.drop_first()[i],
                    ) by {
                        assert(queue.drop_first()[i] == queue[i + 1]);
                    }
                    lemma_cluster_quiet(
                        flavor,
                        api,
                        options,
                        target,
                        queue.drop_first(),
                        next2.0->Upgrading_member,
                        events2,
                    );
                } else {
                    assert(after2.len() == 0);
                }
            } else {
                assert(after2.len() == 0);
            }
            assert forall|k: int| 0 <= k < after1.len() implies is_quiet(#[trigger] after1[k]) by {
                if k > 0 {
                    assert(after1[k] == after2[k - 1]);
                }
            }
        }
        assert forall|k: int| 0 <= k < after0.len() implies is_quiet(#[trigger] after0[k]) by {
            if k > 0 {
                assert(after0[k] == after1[k - 1]);
            }
        }
    }
    assert forall|k: int| 0 <= k < actions.len() implies is_quiet(#[trigger] actions[k]) by {
        if k > 0 {
            assert(actions[k] == after0[k - 1]);
        }
    }
}

/// Whether two sets of options differ in their secrets at most: the flags are the same, and
/// there are as many keys.
pub open spec fn same_but_secrets(one: UpgradeOptionsView, other: UpgradeOptionsView) -> bool {
    one.should_unseal == other.should_unseal && one.force_upgrade == other.force_upgrade
        && one.keys.len() == other.keys.len()
}

/// Whether two actions are the same but for what they send.
pub open spec fn alike(one: ActionView, other: ActionView) -> bool {
    one == other || (one is Send && other is Send)
}

/// One step of the upgrade of a member leads to the same state and to a like action,
/// whatever the secrets are.
pub proof fn step_keeps_secrets_out(
    api: PodApiView,
    target: Seq<char>,
    one: UpgradeOptionsView,
    other: UpgradeOptionsView,
    state: PodUpgradeView,
    event: EventView,
)
    requires
        same_but_secrets(one, other),
    ensures
        upgrade_after(api, target, one, state, event).0 == upgrade_after(
            api,
            target,
            other,
            state,
            event,
        ).0,
        alike(
            upgrade_after(api, target, one, state, event).1,
            upgrade_after(api, target, other, state, event).1,
        ),
{
}

proof fn lemma_upgrade_alike(
    api: PodApiView,
    target: Seq<char>,
    one: UpgradeOptionsView,
    other: UpgradeOptionsView,
    state: PodUpgradeView,
    events: Seq<EventView>,
)
    requires
        same_but_secrets(one, other),
    ensures
        upgrade_actions_after(api, target, one, state, events).len() == upgrade_actions_after(
            api,
            target,
            other,
            state,
            events,
        ).len(),
        forall|k: int|
            0 <= k < upgrade_actions_after(api, target, one, state, events).len() ==> alike(
                #[trigger] upgrade_actions_after(api, target, one, state, events)[k],
                upgrade_actions_after(api, target, other, state, events)[k],
            ),
    decreases events.len(),
{
    let run1 = upgrade_actions_after(api, target, one, state, events);
    let run2 = upgrade_actions_after(api, target, other, state, events);
    if events.len() > 0 && !ended(state.phase) {
        step_keeps_secrets_out(api, target, one, other, state, events[0]);
        let next1 = upgrade_after(api, target, one, state, events[0]);
        let next2 = upgrade_after(api, target, other, state, events[0]);
        let tail1 = upgrade_actions_after(api, target, one, next1.0, events.drop_first());
        let tail2 = upgrade_actions_after(api, target, other, next2.0, events.drop_first());
        lemma_upgrade_alike(api, target, one, other, next1.0, events.drop_first());
        assert(run1 == seq![next1.1] + tail1);
        assert(run2 == seq![next2.1] + tail2);
        assert forall|k: int| 0 <= k < run1.len() implies alike(#[trigger] run1[k], run2[k]) by {
            if k > 0 {
                assert(run1[k] == tail1[k - 1]);
                assert(run2[k] == tail2[k - 1]);
            }
        }
    }
}

/// What the upgrade of a member does and reports does not depend on the secrets.
///
/// With another token and other keys, as many as before, the upgrade takes as many
/// actions, and each is the same but for what it sends. So every failure is reported with
/// the same kind and the same message, whatever the token and the keys are.
pub proof fn upgrade_keeps_secrets_out(
    api: PodApiView,
    target: Seq<char>,
    one: UpgradeOptionsView,
    other: UpgradeOptionsView,
    member: MemberView,
    events: Seq<EventView>,
)
    requires
        same_but_secrets(one, other),
    ensures
        upgrade_actions(api, target, one, member, events).len() == upgrade_actions(
            api,
            target,
            other,
            member,
            events,
        ).len(),
        forall|k: int|
            0 <= k < upgrade_actions(api, target, one, member, events).len() ==> alike(
                #[trigger] upgrade_actions(api, target, one, member, events)[k],
                upgrade_actions(api, target, other, member, events)[k],
            ),
{
    let first = upgrade_first(api, target, one, member);
    assert(first == upgrade_first(api, target, other, member));
    lemma_upgrade_alike(api, target, one, other, first.0, events);
    let run1 = upgrade_actions(api, target, one, member, events);
    let run2 = upgrade_actions(api, target, other, member, events);
    let tail1 = upgrade_actions_after(api, target, one, first.0, events);
    let tail2 = upgrade_actions_after(api, target, other, first.0, events);
    assert forall|k: int| 0 <= k < run1.len() implies alike(#[trigger] run1[k], run2[k]) by {
        if k > 0 {
            assert(run1[k] == tail1[k - 1]);
            assert(run2[k] == tail2[k - 1]);
        }
    }
}

proof fn lemma_cluster_alike(
    flavor: Flavor,
    api: PodApiView,
    one: UpgradeOptionsView,
    other: UpgradeOptionsView,
    state: ClusterUpgradeView,
    events: Seq<EventView>,
)
    requires
        same_but_secrets(one, other),
    ensures
        cluster_actions_after(flavor, api, one, state, events).len() == cluster_actions_after(
            flavor,
            api,
            other,
            state,
            events,
        ).len(),
        forall|k: int|
            0 <= k < cluster_actions_after(flavor, api, one, state, events).len() ==> alike(
                #[trigger] cluster_actions_after(flavor, api, one, state, events)[k],
                cluster_actions_after(flavor, api, other, state, events)[k],
            ),
    decreases events.len(),
{
    let run1 = cluster_actions_after(flavor, api, one, state, events);
    let run2 = cluster_actions_after(flavor, api, other, state, events);
    if events.len() > 0 && !cluster_ended(state) {
        let next1 = cluster_after(flavor, api, one, state, events[0]);
        let next2 = cluster_after(flavor, api, other, state, events[0]);
        if state is Upgrading {
            step_keeps_secrets_out(
                api,
                state->Upgrading_target,
                one,
                other,
                state->Upgrading_member,
                events[0],
            );
        }
        assert(next1.0 == next2.0);
        assert(alike(next1.1, next2.1));
        let tail1 = cluster_actions_after(flavor, api, one, next1.0, events.drop_first());
        let tail2 = cluster_actions_after(flavor, api, other, next2.0, events.drop_first());
        lemma_cluster_alike(flavor, api, one, other, next1.0, events.drop_first());
        assert(run1 == seq![next1.1] + tail1);
        assert(run2 == seq![next2.1] + tail2);
        assert forall|k: int| 0 <= k < run1.len() implies alike(#[trigger] run1[k], run2[k]) by {
            if k > 0 {
                assert(run1[k] == tail1[k - 1]);
                assert(run2[k] == tail2[k - 1]);
            }
        }
    }
}

/// What the upgrade of a cluster does and reports does not depend on the secrets.
///
/// With another token and other keys, as many as before, the upgrade takes as many
/// actions, and each is the same but for what it sends. So every failure is reported with
/// the same kind and the same message, whatever the token and the keys are.
pub proof fn cluster_keeps_secrets_out(
    flavor: Flavor,
    api: PodApiView,
    one: UpgradeOptionsView,
    other: UpgradeOptionsView,
    workload: WorkloadView,
    events: Seq<EventView>,
)
    requires
        same_but_secrets(one, other),
    ensures
        cluster_actions(flavor, api, one, workload, events).len() == cluster_actions(
            flavor,
            api,
            other,
            workload,
            events,
        ).len(),
        forall|k: int|
            0 <= k < cluster_actions(flavor, api, one, workload, events).len() ==> alike(
                #[trigger] cluster_actions(flavor, api, one, workload, events)[k],
                cluster_actions(flavor, api, other, workload, events)[k],
            ),
{
    let first = cluster_first(flavor, workload);
    lemma_cluster_alike(flavor, api, one, other, first.0, events);
    let run1 = cluster_actions(flavor, api, one, workload, events);
    let run2 = cluster_actions(flavor, api, other, workload, events);
    let tail1 = cluster_actions_after(flavor, api, one, first.0, events);
    let tail2 = cluster_actions_after(flavor, api, other, first.0, events);
    assert forall|k: int| 0 <= k < run1.len() implies alike(#[trigger] run1[k], run2[k]) by {
        if k > 0 {
            assert(run1[k] == tail1[k - 1]);
            assert(run2[k] == tail2[k - 1]);
        }
    }
}

/// An upgrade takes one action for each event, at most.
pub proof fn one_action_for_each_event(
    api: PodApiView,
    target: Seq<char>,
    options: UpgradeOptionsView,
    state: PodUpgradeView,
    events: Seq<EventView>,
)
    ensures
        upgrade_actions_after(api, target, options, state, events).len() <= events.len(),
    decreases events.len(),
{
    if events.len() > 0 && !ended(state.phase) {
        let next = upgrade_after(api, target, options, state, events[0]);
        one_action_for_each_event(api, target, options, next.0, events.drop_first());
    }
}

/// Whether the member is unsealed, or waited for, in the phase: no request is sent any
/// more.
pub open spec fn after_unsealing(phase: UpgradePhase) -> bool {
    phase is AwaitingUnsealed || phase is AwaitingReady || ended(phase)
}

proof fn lemma_silent_after_unsealing(
    api: PodApiView,
    target: Seq<char>,
    options: UpgradeOptionsView,
    state: PodUpgradeView,
    events: Seq<EventView>,
)
    requires
        after_unsealing(state.phase),
    ensures
        forall|k: int|
            0 <= k < upgrade_actions_after(api, target, options, state, events).len() ==> !(
            #[trigger] upgrade_actions_after(api, target, options, state, events)[k] is Send),
    decreases events.len(),
{
    let run = upgrade_actions_after(api, target, options, state, events);
    if events.len() > 0 && !ended(state.phase) {
        let next = upgrade_after(api, target, options, state, events[0]);
        let tail = upgrade_actions_after(api, target, options, next.0, events.drop_first());
        lemma_silent_after_unsealing(api, target, options, next.0, events.drop_first());
        assert forall|k: int| 0 <= k < run.len() implies !(#[trigger] run[k] is Send) by {
            if k > 0 {
                assert(run[k] == tail[k - 1]);
            }
        }
    }
}

/// One step of the upgrade of a member that has submitted the key at position `at`: a
/// response that accepts the key has the next key submitted, where there is one; anything
/// else ends the unsealing, and with it the sending.
pub proof fn step_of_unsealing(
    api: PodApiView,
    target: Seq<char>,
    options: UpgradeOptionsView,
    state: PodUpgradeView,
    at: usize,
    event: EventView,
)
    requires
        state.phase == UpgradePhase::Unsealing(at),
        at < options.keys.len() <= usize::MAX,
    ensures
        ({
            let next = upgrade_after(api, target, options, state, event);
            if accepts(event) && at + 1 < options.keys.len() {
                next.0.phase == UpgradePhase::Unsealing((at + 1) as usize) && next.1 == submit(
                    api.flavor,
                    options.keys,
                    at + 1,
                )
            } else {
                after_unsealing(next.0.phase) && !(next.1 is Send)
            }
        }),
{
}

/// While a member is unsealed, the upgrade sends nothing but the keys, in their order.
///
/// Of the actions of an upgrade that has submitted the key at position `at`, whatever
/// events it is handed: the action at position `k` that sends a request submits the key at
/// position `at + 1 + k`, every action before it has submitted a key too, and the event
/// before it was a response that accepted the key before.
pub proof fn unsealing_is_ordered(
    api: PodApiView,
    target: Seq<char>,
    options: UpgradeOptionsView,
    state: PodUpgradeView,
    at: usize,
    events: Seq<EventView>,
)
    requires
        state.phase == UpgradePhase::Unsealing(at),
        at < options.keys.len() <= usize::MAX,
    ensures
        forall|k: int|
            0 <= k < upgrade_actions_after(api, target, options, state, events).len() && (
            #[trigger] upgrade_actions_after(api, target, options, state, events)[k]) is Send ==> {
                let actions = upgrade_actions_after(api, target, options, state, events);
                &&& at + 1 + k < options.keys.len()
                &&& actions[k] == submit(api.flavor, options.keys, at + 1 + k)
                &&& accepts(events[k])
                &&& k > 0 ==> actions[k - 1] is Send
            },
    decreases events.len(),
{
    let run = upgrade_actions_after(api, target, options, state, events);
    if events.len() > 0 {
        let next = upgrade_after(api, target, options, state, events[0]);
        let tail = upgrade_actions_after(api, target, options, next.0, events.drop_first());
        assert(run == seq![next.1] + tail);
        one_action_for_each_event(api, target, options, state, events);
        step_of_unsealing(api, target, options, state, at, events[0]);
        if accepts(events[0]) && at + 1 < options.keys.len() {
            unsealing_is_ordered(
                api,
                target,
                options,
                next.0,
                (at + 1) as usize,
                events.drop_first(),
            );
        } else {
            lemma_silent_after_unsealing(api, target, options, next.0, events.drop_first());
        }
        assert forall|k: int| 0 <= k < run.len() && (#[trigger] run[k]) is Send implies {
            &&& at + 1 + k < options.keys.len()
            &&& run[k] == submit(api.flavor, options.keys, at + 1 + k)
            &&& accepts(events[k])
            &&& k > 0 ==> run[k - 1] is Send
        } by {
            if k > 0 {
                assert(run[k] == tail[k - 1]);
                assert(events[k] == events.drop_first()[k - 1]);
                if k > 1 {
                    assert(run[k - 1] == tail[k - 2]);
                }
            }
        }
    }
}

/// Once a member reports that it is initialized, the upgrade unseals it only where it
/// runs the target version, its label says that it is sealed, and the options say that
/// the upgrade unseals; it then begins with the first key. In every other case it submits
/// no key, and waits for the member to be unsealed or fails.
pub proof fn unsealing_begins_with_the_first_key(
    api: PodApiView,
    target: Seq<char>,
    options: UpgradeOptionsView,
    state: PodUpgradeView,
)
    ensures
        ({
            let next = once_initialized(api, target, options, state);
            let unseals = is_current_view(state.pod, target) == Ok::<bool, ErrorView>(true)
                && sealed_flag(state.pod, api.flavor.name()) == Ok::<bool, ErrorView>(true)
                && options.should_unseal && options.keys.len() > 0;
            &&& unseals ==> next.0.phase == UpgradePhase::Unsealing(0) && next.1 == submit(
                api.flavor,
                options.keys,
                0,
            )
            &&& !unseals ==> !(next.1 is Send) && (next.0.phase is AwaitingUnsealed
                || next.0.phase is Failed)
        }),
{
}

/// The place of a phase in the order of the upgrade of a member: the step-down comes
/// before the wait for another leader, that before the deletion, then the wait for the
/// replacement to run, the reading of it, the opening of the channel, the wait for the
/// member to be initialized, the unsealing, the wait for the member to be unsealed, the
/// wait for it to be ready, and the end.
pub open spec fn place_of(phase: UpgradePhase) -> nat {
    match phase {
        UpgradePhase::Connecting => 0,
        UpgradePhase::SteppingDown => 1,
        UpgradePhase::AwaitingStandby => 2,
        UpgradePhase::Deleting => 3,
        UpgradePhase::AwaitingRunning => 4,
        UpgradePhase::Refreshing => 5,
        UpgradePhase::Opening => 6,
        UpgradePhase::AwaitingSealStatus => 7,
        UpgradePhase::Unsealing(_) => 8,
        UpgradePhase::AwaitingUnsealed => 9,
        UpgradePhase::AwaitingReady => 10,
        UpgradePhase::Done => 11,
        UpgradePhase::Failed => 12,
    }
}

/// The upgrade of a member never goes back: a step leads to the same place only while the
/// member is polled for its seal status or is handed the next key, to the next place where
/// the action of the phase has been carried out, past the unsealing where the member is
/// not unsealed by the upgrade, and to the failed phase otherwise.
pub proof fn upgrade_never_goes_back(
    api: PodApiView,
    target: Seq<char>,
    options: UpgradeOptionsView,
    state: PodUpgradeView,
    event: EventView,
)
    ensures
        ({
            let next = upgrade_after(api, target, options, state, event).0.phase;
            let here = place_of(state.phase);
            let there = place_of(next);
            ||| next is Failed
            ||| there == here + 1
            ||| there == here && (state.phase is AwaitingSealStatus || state.phase is Unsealing)
            ||| state.phase is AwaitingSealStatus && next is AwaitingUnsealed
        }),
{
}

/// The members of a cluster are upgraded one at a time: the upgrade of the next member
/// that waits begins only with the event that ends the upgrade of the member before it
/// well, and until then every action is an action of the upgrade of that member.
pub proof fn one_member_at_a_time(
    flavor: Flavor,
    api: PodApiView,
    options: UpgradeOptionsView,
    target: Seq<char>,
    waiting: Seq<MemberView>,
    member: PodUpgradeView,
    event: EventView,
)
    ensures
        ({
            let step = upgrade_after(api, target, options, member, event);
            let next = cluster_after(
                flavor,
                api,
                options,
                ClusterUpgradeView::Upgrading { target, waiting, member },
                event,
            );
            &&& !step.1.is_final() ==> next == (
                ClusterUpgradeView::Upgrading { target, waiting, member: step.0 },
                step.1,
            )
            &&& step.1 is Fail ==> next == (ClusterUpgradeView::Failed, step.1)
            &&& step.1 is Done && waiting.len() == 0 ==> next == (
                ClusterUpgradeView::Done,
                ActionView::Done,
            )
            &&& step.1 is Done && waiting.len() > 0 ==> {
                let first = upgrade_first(api, target, options, waiting[0]);
                if first.1 is Fail {
                    next == (ClusterUpgradeView::Failed, first.1)
                } else {
                    next == (
                        ClusterUpgradeView::Upgrading {
                            target,
                            waiting: waiting.drop_first(),
                            member: first.0,
                        },
                        first.1,
                    )
                }
            }
        }),
{
}

} // verus!
