use vstd::prelude::*;
use crate::action::{
    cancelled, fail_unexpected, unexpected_event, Action, ActionView, Event, EventView,
};
use crate::error::{Error, ErrorKind, ErrorView};
use crate::exec::ExecIn;
use crate::helpers::{
    active_flag, is_active, is_sealed, list_vault_pods, result_view, sealed_flag, Flavor,
};
use crate::http::{
    seal_status_request, seal_status_request_view, step_down_request, step_down_request_view,
    VAULT_PORT,
};
use crate::member::{Member, MemberView, Workload, WorkloadView};
use crate::secret::Secret;
use crate::status::{await_seal_status, is_seal_status_initialized, seal_status_result, Poll};
use crate::step_down::{step_down, step_down_result};
use crate::text::{join2, join3};
use crate::unseal::{unseal, unseal_after, unseal_first, unseal_next, UnsealProgress};
use crate::version::{member_version, naming_error, workload_version, VaultVersion};
use crate::wait::{is_pod_active, is_pod_ready, is_pod_unsealed, PodCondition};

verus! {

/// How often the opening of a channel to a restarted member is tried.
pub const OPEN_ATTEMPTS: u32 = 5;

/// The delay, in milliseconds, from which the waits between those tries grow.
pub const OPEN_BASE_DELAY_MILLIS: u64 = 50;

/// What an upgrade run is given besides the cluster. It stays the same for the whole run.
pub struct UpgradeOptions {
    /// The token that authorises the step-down of the active member.
    pub token: Secret,
    /// Whether the procedure submits the unseal keys itself. Where it does not, it waits
    /// for someone else to unseal the member.
    pub should_unseal: bool,
    /// Whether members that run the target version already are restarted too.
    pub force_upgrade: bool,
    /// The unseal keys, in the order in which they are submitted.
    pub keys: Vec<Secret>,
}

/// The mathematical model of [`UpgradeOptions`].
pub struct UpgradeOptionsView {
    pub token: Seq<char>,
    pub should_unseal: bool,
    pub force_upgrade: bool,
    pub keys: Seq<Seq<char>>,
}

impl View for UpgradeOptions {
    type V = UpgradeOptionsView;

    open spec fn view(&self) -> UpgradeOptionsView {
        UpgradeOptionsView {
            token: self.token@,
            should_unseal: self.should_unseal,
            force_upgrade: self.force_upgrade,
            keys: self.keys.deep_view(),
        }
    }
}

/// How the members of a cluster are reached: inside TLS or not, under which server name
/// the certificate is verified, and which flavor of the engine they run.
pub struct PodApi {
    pub tls: bool,
    pub domain: String,
    pub flavor: Flavor,
}

/// The mathematical model of a [`PodApi`].
pub struct PodApiView {
    pub tls: bool,
    pub domain: Seq<char>,
    pub flavor: Flavor,
}

impl View for PodApi {
    type V = PodApiView;

    open spec fn view(&self) -> PodApiView {
        PodApiView { tls: self.tls, domain: self.domain@, flavor: self.flavor }
    }
}

/// Where the upgrade of one member stands: which answer it waits for.
#[derive(Clone, Copy, Debug, PartialEq, Eq, Structural)]
pub enum UpgradePhase {
    /// A channel to the active member is being opened, to ask it to step down.
    Connecting,
    /// The active member has been asked to step down.
    SteppingDown,
    /// The member is watched until it is no longer the active one.
    AwaitingStandby,
    /// The platform has been asked to delete the member.
    Deleting,
    /// The replacement of the member is watched until it runs.
    AwaitingRunning,
    /// The member is being read anew.
    Refreshing,
    /// A channel to the member is being opened.
    Opening,
    /// The member is polled until it reports that it is initialized.
    AwaitingSealStatus,
    /// The unseal key at this position has been submitted.
    Unsealing(usize),
    /// The member is watched until it is no longer sealed.
    AwaitingUnsealed,
    /// The member is watched until it is ready.
    AwaitingReady,
    /// The upgrade has ended well.
    Done,
    /// The upgrade has failed.
    Failed,
}

/// The state of the upgrade of one member.
pub struct PodUpgrade {
    pub phase: UpgradePhase,
    /// The name of the member.
    pub name: String,
    /// The member as it was last read: as it was handed over, or, after its restart, as
    /// the platform then described it.
    pub pod: Member,
}

/// The mathematical model of a [`PodUpgrade`].
pub struct PodUpgradeView {
    pub phase: UpgradePhase,
    pub name: Seq<char>,
    pub pod: MemberView,
}

impl View for PodUpgrade {
    type V = PodUpgradeView;

    open spec fn view(&self) -> PodUpgradeView {
        PodUpgradeView { phase: self.phase, name: self.name@, pod: self.pod@ }
    }
}

/// Whether the member runs the target version.
pub open spec fn is_current_view(member: MemberView, target: Seq<char>) -> Result<
    bool,
    ErrorView,
> {
    match member_version(member) {
        Ok(version) => Ok(version == target),
        Err(error) => Err(error),
    }
}

/// The state moved to the given phase, with the action that is taken there.
pub open spec fn proceed(state: PodUpgradeView, phase: UpgradePhase, action: ActionView) -> (
    PodUpgradeView,
    ActionView,
) {
    (PodUpgradeView { phase, ..state }, action)
}

/// The step in which the upgrade of the named member is, as a failure names it.
pub open spec fn step_of(phase: UpgradePhase, name: Seq<char>) -> Seq<char> {
    match phase {
        UpgradePhase::Connecting | UpgradePhase::Opening => {
            "attempting to forward http requests to "@ + name
        },
        UpgradePhase::SteppingDown => "stepping down pod "@ + name,
        UpgradePhase::AwaitingStandby => "waiting for pod "@ + name + " to be standby"@,
        UpgradePhase::Deleting => "deleting pod "@ + name,
        UpgradePhase::AwaitingRunning => "waiting for pod "@ + name + " to be running"@,
        UpgradePhase::Refreshing => "getting pod "@ + name,
        UpgradePhase::AwaitingSealStatus => {
            "waiting for pod to have required seal status "@ + name
        },
        UpgradePhase::Unsealing(_) => "unsealing pod "@ + name,
        UpgradePhase::AwaitingUnsealed => "waiting for pod "@ + name + " to be unsealed"@,
        UpgradePhase::AwaitingReady => "waiting for pod "@ + name + " to be ready"@,
        UpgradePhase::Done | UpgradePhase::Failed => "upgrading pod "@ + name,
    }
}

/// The kind of the failure when the action that a phase waits for fails: a channel error
/// where the action opens or uses a channel, the exhaustion of the retries where it opens
/// one with retries, and a wait-condition error where it asks the platform.
pub open spec fn failure_kind(phase: UpgradePhase) -> ErrorKind {
    match phase {
        UpgradePhase::Connecting | UpgradePhase::SteppingDown | UpgradePhase::AwaitingSealStatus
        | UpgradePhase::Unsealing(_) => ErrorKind::Channel,
        UpgradePhase::Opening => ErrorKind::RetryExhausted,
        _ => ErrorKind::WaitCondition,
    }
}

/// The state after a failure in the given step, with the action that reports it: the
/// message names the step, which names the member, and then the cause.
pub open spec fn give_up(state: PodUpgradeView, step: Seq<char>, error: ErrorView) -> (
    PodUpgradeView,
    ActionView,
) {
    (
        PodUpgradeView { phase: UpgradePhase::Failed, ..state },
        ActionView::Fail { error: error.in_context(step) },
    )
}

/// The action that opens a channel to a member.
pub open spec fn connect(
    api: PodApiView,
    member: Seq<char>,
    attempts: u32,
    delay: u64,
) -> ActionView {
    ActionView::Connect {
        member,
        port: VAULT_PORT,
        server_name: if api.tls {
            Some(api.domain)
        } else {
            None
        },
        attempts,
        base_delay_millis: delay,
    }
}

/// The condition that a member is not the active one.
pub open spec fn not_active(flavor: Flavor) -> PodCondition {
    PodCondition::Not(Box::new(PodCondition::Active { flavor }))
}

/// The condition that a member is not sealed.
pub open spec fn not_sealed(flavor: Flavor) -> PodCondition {
    PodCondition::Not(Box::new(PodCondition::Sealed { flavor }))
}

/// The move to the wait for the member to be unsealed.
pub open spec fn await_unsealed(api: PodApiView, state: PodUpgradeView) -> (
    PodUpgradeView,
    ActionView,
) {
    proceed(
        state,
        UpgradePhase::AwaitingUnsealed,
        ActionView::Await { member: state.name, condition: not_sealed(api.flavor) },
    )
}

/// How the upgrade goes on, given what an unsealing does next: while keys are submitted
/// the upgrade submits them; once they are accepted it waits for the member to be
/// unsealed; a failure of the unsealing fails the upgrade, with the member named.
pub open spec fn follow_unseal(
    api: PodApiView,
    state: PodUpgradeView,
    next: (UnsealProgress, ActionView),
) -> (PodUpgradeView, ActionView) {
    match next.0 {
        UnsealProgress::Submitting(at) => proceed(state, UpgradePhase::Unsealing(at), next.1),
        UnsealProgress::Done => await_unsealed(api, state),
        UnsealProgress::Failed => give_up(
            state,
            step_of(UpgradePhase::Unsealing(0), state.name),
            match next.1 {
                ActionView::Fail { error } => error,
                _ => unexpected_event(),
            },
        ),
    }
}

/// How the upgrade goes on once the member reports that it is initialized.
///
/// A member that runs the target version and is sealed is unsealed with the keys, where
/// the options say so. Then, and in every other case, the procedure waits for the member to
/// be unsealed.
pub open spec fn once_initialized(
    api: PodApiView,
    target: Seq<char>,
    options: UpgradeOptionsView,
    state: PodUpgradeView,
) -> (PodUpgradeView, ActionView) {
    let step = step_of(UpgradePhase::Unsealing(0), state.name);
    match is_current_view(state.pod, target) {
        Err(error) => give_up(state, step, error),
        Ok(current) => if !current {
            await_unsealed(api, state)
        } else {
            match sealed_flag(state.pod, api.flavor.name()) {
                Err(error) => give_up(state, step, error),
                Ok(sealed) => if sealed && options.should_unseal {
                    follow_unseal(api, state, unseal_first(api.flavor, options.keys))
                } else {
                    await_unsealed(api, state)
                },
            }
        }
    }
}

/// How the upgrade of a member begins.
///
/// A member without a name, without a version, or, where it is to be restarted, without a
/// readable leadership label fails the upgrade at once. A member that runs the target version is
/// left running, unless the options force the upgrade: a channel to it is opened. Any other
/// member is restarted: the active one is first asked to step down, over a channel that is
/// opened for that; a standby is deleted at once.
pub open spec fn upgrade_first(
    api: PodApiView,
    target: Seq<char>,
    options: UpgradeOptionsView,
    member: MemberView,
) -> (PodUpgradeView, ActionView) {
    let state = PodUpgradeView {
        phase: UpgradePhase::Failed,
        name: match member.name {
            Some(name) => name,
            None => Seq::empty(),
        },
        pod: member,
    };
    match member.name {
        None => (state, ActionView::Fail { error: naming_error("pod does not have a name"@) }),
        Some(name) => match is_current_view(member, target) {
            Err(error) => give_up(state, step_of(state.phase, name), error),
            Ok(current) => if !current || options.force_upgrade {
                match active_flag(member, api.flavor.name()) {
                    Err(error) => give_up(state, step_of(state.phase, name), error),
                    Ok(active) => if active {
                        proceed(state, UpgradePhase::Connecting, connect(api, name, 1, 0))
                    } else {
                        proceed(state, UpgradePhase::Deleting, ActionView::Delete { member: name })
                    },
                }
            } else {
                proceed(
                    state,
                    UpgradePhase::Opening,
                    connect(api, name, OPEN_ATTEMPTS, OPEN_BASE_DELAY_MILLIS),
                )
            },
        },
    }
}

/// How the upgrade of a member goes on after an event.
///
/// Each phase waits for one kind of answer and moves on when it comes: from the opened
/// channel to the step-down, from the accepted step-down to the wait for another leader,
/// from there to the deletion, to the wait for the replacement to run, to reading it anew,
/// to opening a channel, to polling the seal status until the member is initialized, to
/// the unsealing, to the wait for the member to be unsealed, to the wait for it to be
/// ready, to the end. A failure of the action, a cancellation and an event that is no
/// answer to the action fail the upgrade.
pub open spec fn upgrade_after(
    api: PodApiView,
    target: Seq<char>,
    options: UpgradeOptionsView,
    state: PodUpgradeView,
    event: EventView,
) -> (PodUpgradeView, ActionView) {
    let name = state.name;
    let step = step_of(state.phase, name);
    match state.phase {
        UpgradePhase::Done | UpgradePhase::Failed => give_up(state, step, unexpected_event()),
        UpgradePhase::Unsealing(at) => follow_unseal(
            api,
            state,
            unseal_after(api.flavor, options.keys, UnsealProgress::Submitting(at), event),
        ),
        _ => match event {
            EventView::Cancelled => give_up(state, step, cancelled()),
            EventView::Failed(cause) => give_up(
                state,
                step,
                ErrorView { kind: failure_kind(state.phase), message: cause },
            ),
            EventView::Completed => match state.phase {
                UpgradePhase::Connecting => proceed(
                    state,
                    UpgradePhase::SteppingDown,
                    ActionView::Send {
                        request: step_down_request_view(api.flavor, options.token),
                    },
                ),
                UpgradePhase::AwaitingStandby => proceed(
                    state,
                    UpgradePhase::Deleting,
                    ActionView::Delete { member: name },
                ),
                UpgradePhase::Deleting => proceed(
                    state,
                    UpgradePhase::AwaitingRunning,
                    ActionView::Await { member: name, condition: PodCondition::Running },
                ),
                UpgradePhase::AwaitingRunning => proceed(
                    state,
                    UpgradePhase::Refreshing,
                    ActionView::Get { member: name },
                ),
                UpgradePhase::Opening => proceed(
                    state,
                    UpgradePhase::AwaitingSealStatus,
                    ActionView::Send { request: seal_status_request_view(api.flavor) },
                ),
                UpgradePhase::AwaitingUnsealed => proceed(
                    state,
                    UpgradePhase::AwaitingReady,
                    ActionView::Await { member: name, condition: PodCondition::Ready },
                ),
                UpgradePhase::AwaitingReady => proceed(
                    state,
                    UpgradePhase::Done,
                    ActionView::Done,
                ),
                _ => give_up(state, step, unexpected_event()),
            },
            EventView::Member(fresh) => match state.phase {
                UpgradePhase::Refreshing => proceed(
                    PodUpgradeView { pod: fresh, ..state },
                    UpgradePhase::Opening,
                    connect(api, name, OPEN_ATTEMPTS, OPEN_BASE_DELAY_MILLIS),
                ),
                _ => give_up(state, step, unexpected_event()),
            },
            EventView::Response(response) => match state.phase {
                UpgradePhase::SteppingDown => match step_down_result(response) {
                    Ok(_) => proceed(
                        state,
                        UpgradePhase::AwaitingStandby,
                        ActionView::Await { member: name, condition: not_active(api.flavor) },
                    ),
                    Err(error) => give_up(state, step, error),
                },
                UpgradePhase::AwaitingSealStatus => match seal_status_result(response) {
                    Err(error) => give_up(state, step, error),
                    Ok(seal_status) => if seal_status.initialized {
                        once_initialized(api, target, options, state)
                    } else {
                        proceed(
                            state,
                            UpgradePhase::AwaitingSealStatus,
                            ActionView::Send { request: seal_status_request_view(api.flavor) },
                        )
                    },
                },
                _ => give_up(state, step, unexpected_event()),
            },
            EventView::Members(_) => give_up(state, step, unexpected_event()),
        },
    }
}

/// Moves the state to the given phase.
fn proceed_to(state: PodUpgrade, phase: UpgradePhase, action: Action) -> (next: (
    PodUpgrade,
    Action,
))
    ensures
        (next.0@, next.1@) == proceed(state@, phase, action@),
{
    (PodUpgrade { phase, name: state.name, pod: state.pod }, action)
}

/// The step in which the upgrade of the named member is, as a failure names it.
fn step_name(phase: UpgradePhase, name: &str) -> (step: String)
    ensures
        step@ == step_of(phase, name@),
{
    match phase {
        UpgradePhase::Connecting | UpgradePhase::Opening => join2(
            "attempting to forward http requests to ",
            name,
        ),
        UpgradePhase::SteppingDown => join2("stepping down pod ", name),
        UpgradePhase::AwaitingStandby => join3("waiting for pod ", name, " to be standby"),
        UpgradePhase::Deleting => join2("deleting pod ", name),
        UpgradePhase::AwaitingRunning => join3("waiting for pod ", name, " to be running"),
        UpgradePhase::Refreshing => join2("getting pod ", name),
        UpgradePhase::AwaitingSealStatus => join2(
            "waiting for pod to have required seal status ",
            name,
        ),
        UpgradePhase::Unsealing(_) => join2("unsealing pod ", name),
        UpgradePhase::AwaitingUnsealed => join3("waiting for pod ", name, " to be unsealed"),
        UpgradePhase::AwaitingReady => join3("waiting for pod ", name, " to be ready"),
        UpgradePhase::Done | UpgradePhase::Failed => join2("upgrading pod ", name),
    }
}

/// The kind of the failure when the action that a phase waits for fails.
fn kind_of_failure(phase: UpgradePhase) -> (kind: ErrorKind)
    ensures
        kind == failure_kind(phase),
{
    match phase {
        UpgradePhase::Connecting | UpgradePhase::SteppingDown | UpgradePhase::AwaitingSealStatus
        | UpgradePhase::Unsealing(_) => ErrorKind::Channel,
        UpgradePhase::Opening => ErrorKind::RetryExhausted,
        _ => ErrorKind::WaitCondition,
    }
}

/// Ends the upgrade in failure, in the given step.
fn give_up_with(state: PodUpgrade, step: &str, error: Error) -> (next: (PodUpgrade, Action))
    ensures
        (next.0@, next.1@) == give_up(state@, step@, error@),
{
    (
        PodUpgrade { phase: UpgradePhase::Failed, name: state.name, pod: state.pod },
        Action::Fail { error: error.context(step) },
    )
}

impl PodApi {
    /// Describes how the members of a cluster are reached.
    pub fn new(tls: bool, domain: String, flavor: Flavor) -> (api: PodApi)
        ensures
            api@ == (PodApiView { tls, domain: domain@, flavor }),
    {
        PodApi { tls, domain, flavor }
    }

    /// Whether the member runs the target version. Fails where the member names no
    /// version.
    pub fn is_current(pod: &Member, target: &VaultVersion) -> (current: Result<bool, Error>)
        ensures
            result_view(current) == is_current_view(pod@, target@),
    {
        match VaultVersion::try_from(pod) {
            Ok(version) => Ok(version == *target),
            Err(error) => Err(error),
        }
    }

    /// The action that opens a channel to a member.
    fn connect_to(&self, member: &str, attempts: u32, delay: u64) -> (action: Action)
        ensures
            action@ == connect(self@, member@, attempts, delay),
    {
        Action::Connect {
            member: String::from_str(member),
            port: VAULT_PORT,
            server_name: if self.tls {
                Some(self.domain.clone())
            } else {
                None
            },
            attempts,
            base_delay_millis: delay,
        }
    }

    /// Moves on to the wait for the member to be unsealed.
    fn wait_unsealed(&self, state: PodUpgrade) -> (next: (PodUpgrade, Action))
        ensures
            (next.0@, next.1@) == await_unsealed(self@, state@),
    {
        let action = Action::Await {
            member: state.name.clone(),
            condition: is_pod_unsealed(self.flavor),
        };
        proceed_to(state, UpgradePhase::AwaitingUnsealed, action)
    }

    /// Goes on with the upgrade, given what the unsealing does next.
    fn follow(&self, state: PodUpgrade, next: (UnsealProgress, Action)) -> (after: (
        PodUpgrade,
        Action,
    ))
        ensures
            (after.0@, after.1@) == follow_unseal(self@, state@, (next.0, next.1@)),
    {
        match next.0 {
            UnsealProgress::Submitting(at) => proceed_to(
                state,
                UpgradePhase::Unsealing(at),
                next.1,
            ),
            UnsealProgress::Done => self.wait_unsealed(state),
            UnsealProgress::Failed => {
                let step = step_name(UpgradePhase::Unsealing(0), state.name.as_str());
                let error = match next.1 {
                    Action::Fail { error } => error,
                    _ => Error::new(ErrorKind::WaitCondition, "unexpected event"),
                };
                give_up_with(state, step.as_str(), error)
            },
        }
    }

    /// Goes on with the upgrade once the member reports that it is initialized.
    fn initialized(
        &self,
        target: &VaultVersion,
        options: &UpgradeOptions,
        state: PodUpgrade,
    ) -> (next: (PodUpgrade, Action))
        ensures
            (next.0@, next.1@) == once_initialized(self@, target@, options@, state@),
    {
        let flavor = self.flavor.to_string();
        let step = step_name(UpgradePhase::Unsealing(0), state.name.as_str());
        match PodApi::is_current(&state.pod, target) {
            Err(error) => give_up_with(state, step.as_str(), error),
            Ok(current) => {
                if !current {
                    self.wait_unsealed(state)
                } else {
                    match is_sealed(&state.pod, flavor.as_str()) {
                        Err(error) => give_up_with(state, step.as_str(), error),
                        Ok(sealed) => {
                            if sealed && options.should_unseal {
                                let first = unseal(self.flavor, options.keys.as_slice());
                                self.follow(state, first)
                            } else {
                                self.wait_unsealed(state)
                            }
                        },
                    }
                }
            },
        }
    }

    /// Begins the upgrade of one member to the target version, and says what to do first.
    pub fn upgrade(&self, pod: Member, target: &VaultVersion, options: &UpgradeOptions) -> (next: (
        PodUpgrade,
        Action,
    ))
        ensures
            (next.0@, next.1@) == upgrade_first(self@, target@, options@, pod@),
    {
        let flavor = self.flavor.to_string();
        let name = match &pod.name {
            Some(name) => name.clone(),
            None => String::new(),
        };
        if pod.name.is_none() {
            let state = PodUpgrade { phase: UpgradePhase::Failed, name, pod };
            let error = Error::new(ErrorKind::Naming, "pod does not have a name");
            return (state, Action::Fail { error });
        }
        let current = PodApi::is_current(&pod, target);
        let active = is_active(&pod, flavor.as_str());
        let state = PodUpgrade { phase: UpgradePhase::Failed, name, pod };
        let step = step_name(UpgradePhase::Failed, state.name.as_str());
        match current {
            Err(error) => give_up_with(state, step.as_str(), error),
            Ok(current) => {
                if !current || options.force_upgrade {
                    match active {
                        Err(error) => give_up_with(state, step.as_str(), error),
                        Ok(active) => {
                            if active {
                                let action = self.connect_to(state.name.as_str(), 1, 0);
                                proceed_to(state, UpgradePhase::Connecting, action)
                            } else {
                                let action = Action::Delete { member: state.name.clone() };
                                proceed_to(state, UpgradePhase::Deleting, action)
                            }
                        },
                    }
                } else {
                    let action = self.connect_to(
                        state.name.as_str(),
                        OPEN_ATTEMPTS,
                        OPEN_BASE_DELAY_MILLIS,
                    );
                    proceed_to(state, UpgradePhase::Opening, action)
                }
            },
        }
    }

    /// Goes on with the upgrade of one member after an event, and says what to do next.
    pub fn upgrade_next(
        &self,
        target: &VaultVersion,
        options: &UpgradeOptions,
        state: PodUpgrade,
        event: Event,
    ) -> (next: (PodUpgrade, Action))
        ensures
            (next.0@, next.1@) == upgrade_after(self@, target@, options@, state@, event@),
    {
        let step = step_name(state.phase, state.name.as_str());
        match state.phase {
            UpgradePhase::Done | UpgradePhase::Failed => {
                let unexpected = Error::new(ErrorKind::WaitCondition, "unexpected event");
                give_up_with(state, step.as_str(), unexpected)
            },
            UpgradePhase::Unsealing(at) => {
                let next = unseal_next(
                    self.flavor,
                    options.keys.as_slice(),
                    UnsealProgress::Submitting(at),
                    event,
                );
                self.follow(state, next)
            },
            _ => match event {
                Event::Cancelled => give_up_with(
                    state,
                    step.as_str(),
                    Error::new(ErrorKind::Cancelled, "cancelled"),
                ),
                Event::Failed(cause) => {
                    let error = Error { kind: kind_of_failure(state.phase), message: cause };
                    give_up_with(state, step.as_str(), error)
                },
                Event::Completed => match state.phase {
                    UpgradePhase::Connecting => {
                        let request = step_down_request(self.flavor, &options.token);
                        proceed_to(state, UpgradePhase::SteppingDown, Action::Send { request })
                    },
                    UpgradePhase::AwaitingStandby => {
                        let action = Action::Delete { member: state.name.clone() };
                        proceed_to(state, UpgradePhase::Deleting, action)
                    },
                    UpgradePhase::Deleting => {
                        let action = Action::Await {
                            member: state.name.clone(),
                            condition: PodCondition::Running,
                        };
                        proceed_to(state, UpgradePhase::AwaitingRunning, action)
                    },
                    UpgradePhase::AwaitingRunning => {
                        let action = Action::Get { member: state.name.clone() };
                        proceed_to(state, UpgradePhase::Refreshing, action)
                    },
                    UpgradePhase::Opening => {
                        let request = seal_status_request(self.flavor);
                        proceed_to(
                            state,
                            UpgradePhase::AwaitingSealStatus,
                            Action::Send { request },
                        )
                    },
                    UpgradePhase::AwaitingUnsealed => {
                        let action = Action::Await {
                            member: state.name.clone(),
                            condition: is_pod_ready(),
                        };
                        proceed_to(state, UpgradePhase::AwaitingReady, action)
                    },
                    UpgradePhase::AwaitingReady => proceed_to(
                        state,
                        UpgradePhase::Done,
                        Action::Done,
                    ),
                    _ => {
                        let unexpected = Error::new(ErrorKind::WaitCondition, "unexpected event");
                        give_up_with(state, step.as_str(), unexpected)
                    },
                },
                Event::Member(fresh) => match state.phase {
                    UpgradePhase::Refreshing => {
                        let action = self.connect_to(
                            state.name.as_str(),
                            OPEN_ATTEMPTS,
                            OPEN_BASE_DELAY_MILLIS,
                        );
                        let state = PodUpgrade { phase: state.phase, name: state.name, pod: fresh };
                        proceed_to(state, UpgradePhase::Opening, action)
                    },
                    _ => {
                        let unexpected = Error::new(ErrorKind::WaitCondition, "unexpected event");
                        give_up_with(state, step.as_str(), unexpected)
                    },
                },
                Event::Response(response) => match state.phase {
                    UpgradePhase::SteppingDown => match step_down(&response) {
                        Ok(_) => {
                            let action = Action::Await {
                                member: state.name.clone(),
                                condition: is_pod_active(self.flavor).not(),
                            };
                            proceed_to(state, UpgradePhase::AwaitingStandby, action)
                        },
                        Err(error) => give_up_with(state, step.as_str(), error),
                    },
                    UpgradePhase::AwaitingSealStatus => match await_seal_status(
                        self.flavor,
                        &is_seal_status_initialized(),
                        &response,
                    ) {
                        Poll::Failed(error) => give_up_with(state, step.as_str(), error),
                        Poll::Ready(_) => self.initialized(target, options, state),
                        Poll::Again(request) => proceed_to(
                            state,
                            UpgradePhase::AwaitingSealStatus,
                            Action::Send { request },
                        ),
                    },
                    _ => {
                        let unexpected = Error::new(ErrorKind::WaitCondition, "unexpected event");
                        give_up_with(state, step.as_str(), unexpected)
                    },
                },
                Event::Members(_) => {
                    let unexpected = Error::new(ErrorKind::WaitCondition, "unexpected event");
                    give_up_with(state, step.as_str(), unexpected)
                },
            },
        }
    }
}

/// The workload of a cluster, as far as an upgrade needs it: the flavor of the engine
/// that its members run.
pub struct StatefulSetApi {
    pub flavor: Flavor,
}

/// The state of the upgrade of a cluster.
pub enum ClusterUpgrade {
    /// The standby members are being listed.
    ListingStandby { target: VaultVersion },
    /// The active members are being listed.
    ListingActive { target: VaultVersion, standby: Vec<Member> },
    /// One member is being upgraded; the members in `waiting` follow it, in their order.
    Upgrading { target: VaultVersion, waiting: Vec<Member>, member: PodUpgrade },
    /// The upgrade has ended well.
    Done,
    /// The upgrade has failed.
    Failed,
}

/// The mathematical model of a [`ClusterUpgrade`].
pub enum ClusterUpgradeView {
    ListingStandby { target: Seq<char> },
    ListingActive { target: Seq<char>, standby: Seq<MemberView> },
    Upgrading { target: Seq<char>, waiting: Seq<MemberView>, member: PodUpgradeView },
    Done,
    Failed,
}

impl View for ClusterUpgrade {
    type V = ClusterUpgradeView;

    open spec fn view(&self) -> ClusterUpgradeView {
        match self {
            ClusterUpgrade::ListingStandby { target } => ClusterUpgradeView::ListingStandby {
                target: target@,
            },
            ClusterUpgrade::ListingActive { target, standby } => ClusterUpgradeView::ListingActive {
                target: target@,
                standby: standby.deep_view(),
            },
            ClusterUpgrade::Upgrading { target, waiting, member } => ClusterUpgradeView::Upgrading {
                target: target@,
                waiting: waiting.deep_view(),
                member: member@,
            },
            ClusterUpgrade::Done => ClusterUpgradeView::Done,
            ClusterUpgrade::Failed => ClusterUpgradeView::Failed,
        }
    }
}

/// The action that lists the chosen members of a cluster: those that match the label
/// selector of the choice.
pub open spec fn list(flavor: Flavor, which: ExecIn) -> ActionView {
    ActionView::List { label_selector: Some(which.selector(flavor.name())) }
}

/// The failure of the upgrade of a cluster.
pub open spec fn cluster_failed(error: ErrorView) -> (ClusterUpgradeView, ActionView) {
    (ClusterUpgradeView::Failed, ActionView::Fail { error })
}

/// How the upgrade of a cluster goes on with the members that wait: the first of them is
/// begun, and the upgrade of the cluster ends when none is left.
pub open spec fn begin_waiting(
    api: PodApiView,
    target: Seq<char>,
    options: UpgradeOptionsView,
    waiting: Seq<MemberView>,
) -> (ClusterUpgradeView, ActionView) {
    if waiting.len() == 0 {
        (ClusterUpgradeView::Done, ActionView::Done)
    } else {
        let first = upgrade_first(api, target, options, waiting[0]);
        match first.1 {
            ActionView::Fail { error } => cluster_failed(error),
            action => (
                ClusterUpgradeView::Upgrading {
                    target,
                    waiting: waiting.drop_first(),
                    member: first.0,
                },
                action,
            ),
        }
    }
}

/// How the upgrade of a cluster goes on, given what the upgrade of one member does next:
/// when the member is done, the members that wait follow; a failure of the member fails
/// the upgrade of the cluster; any other action is that of the cluster too.
pub open spec fn follow_member(
    api: PodApiView,
    target: Seq<char>,
    options: UpgradeOptionsView,
    waiting: Seq<MemberView>,
    next: (PodUpgradeView, ActionView),
) -> (ClusterUpgradeView, ActionView) {
    match next.1 {
        ActionView::Fail { error } => cluster_failed(error),
        ActionView::Done => begin_waiting(api, target, options, waiting),
        action => (ClusterUpgradeView::Upgrading { target, waiting, member: next.0 }, action),
    }
}

/// The step in which the chosen members are listed, as a failure names it.
pub open spec fn listing_step(which: ExecIn) -> Seq<char> {
    "listing "@ + which.name() + " pods"@
}

/// The failure of the upgrade of a cluster over an event that is no list of members, while
/// the chosen members are listed.
pub open spec fn listing_failure(which: ExecIn, event: EventView) -> ErrorView {
    match event {
        EventView::Failed(cause) => ErrorView { kind: ErrorKind::WaitCondition, message: cause },
        EventView::Cancelled => cancelled(),
        _ => unexpected_event(),
    }.in_context(listing_step(which))
}

/// How the upgrade of a cluster begins: with the target version, which the workload
/// names, and the listing of its standby members.
pub open spec fn cluster_first(flavor: Flavor, workload: WorkloadView) -> (
    ClusterUpgradeView,
    ActionView,
) {
    match workload_version(workload) {
        Err(error) => cluster_failed(error),
        Ok(target) => (
            ClusterUpgradeView::ListingStandby { target },
            list(flavor, ExecIn::Standby),
        ),
    }
}

/// How the upgrade of a cluster goes on after an event.
///
/// The standby members are listed, then the active ones. Where either list is empty, the
/// upgrade ends at once, with nothing done. Else the standby members are upgraded, one
/// after the other in the order of their list, and after them the active ones in the
/// order of theirs. The first failure ends the upgrade.
pub open spec fn cluster_after(
    flavor: Flavor,
    api: PodApiView,
    options: UpgradeOptionsView,
    state: ClusterUpgradeView,
    event: EventView,
) -> (ClusterUpgradeView, ActionView) {
    match state {
        ClusterUpgradeView::ListingStandby { target } => match event {
            EventView::Members(standby) => if standby.len() == 0 {
                (ClusterUpgradeView::Done, ActionView::Done)
            } else {
                (
                    ClusterUpgradeView::ListingActive { target, standby },
                    list(flavor, ExecIn::Active),
                )
            },
            _ => cluster_failed(listing_failure(ExecIn::Standby, event)),
        },
        ClusterUpgradeView::ListingActive { target, standby } => match event {
            EventView::Members(active) => if active.len() == 0 {
                (ClusterUpgradeView::Done, ActionView::Done)
            } else {
                begin_waiting(api, target, options, standby + active)
            },
            _ => cluster_failed(listing_failure(ExecIn::Active, event)),
        },
        ClusterUpgradeView::Upgrading { target, waiting, member } => follow_member(
            api,
            target,
            options,
            waiting,
            upgrade_after(api, target, options, member, event),
        ),
        _ => cluster_failed(unexpected_event()),
    }
}

/// The failure of the upgrade of a cluster over an event that is no list of members.
fn listing_failed(which: ExecIn, event: Event) -> (next: (ClusterUpgrade, Action))
    ensures
        (next.0@, next.1@) == cluster_failed(listing_failure(which, event@)),
{
    let error = match event {
        Event::Failed(cause) => Error { kind: ErrorKind::WaitCondition, message: cause },
        Event::Cancelled => Error::new(ErrorKind::Cancelled, "cancelled"),
        _ => Error::new(ErrorKind::WaitCondition, "unexpected event"),
    };
    let name = which.to_string();
    let step = join3("listing ", name.as_str(), " pods");
    (ClusterUpgrade::Failed, Action::Fail { error: error.context(step.as_str()) })
}

impl StatefulSetApi {
    /// Describes the workload of a cluster of the given flavor.
    pub fn new(flavor: Flavor) -> (api: StatefulSetApi)
        ensures
            api.flavor == flavor,
    {
        StatefulSetApi { flavor }
    }

    /// The action that lists the chosen members of the cluster.
    fn list_members(flavor: Flavor, which: ExecIn) -> (action: Action)
        ensures
            action@ == list(flavor, which),
    {
        let name = flavor.to_string();
        let selector = which.to_label_selector(name.as_str());
        Action::List { params: list_vault_pods(name.as_str()).labels(selector.as_str()) }
    }

    /// Begins the upgrade of the next member that waits, or ends the upgrade of the
    /// cluster where none is left.
    fn begin_next(
        pods: &PodApi,
        target: VaultVersion,
        options: &UpgradeOptions,
        waiting: Vec<Member>,
    ) -> (next: (ClusterUpgrade, Action))
        ensures
            (next.0@, next.1@) == begin_waiting(pods@, target@, options@, waiting.deep_view()),
    {
        let mut waiting = waiting;
        if waiting.len() == 0 {
            return (ClusterUpgrade::Done, Action::Done);
        }
        let ghost before = waiting.deep_view();
        let pod = waiting.remove(0);
        assert(waiting.deep_view() =~= before.drop_first());
        assert(pod@ == before[0]);
        let first = pods.upgrade(pod, &target, options);
        match first.1 {
            Action::Fail { error } => (ClusterUpgrade::Failed, Action::Fail { error }),
            action => (ClusterUpgrade::Upgrading { target, waiting, member: first.0 }, action),
        }
    }

    /// Begins the upgrade of a cluster to the version that its workload names, and says
    /// what to do first.
    pub fn upgrade(&self, sts: &Workload) -> (next: (ClusterUpgrade, Action))
        ensures
            (next.0@, next.1@) == cluster_first(self.flavor, sts@),
    {
        match VaultVersion::try_from(sts) {
            Err(error) => (ClusterUpgrade::Failed, Action::Fail { error }),
            Ok(target) => (
                ClusterUpgrade::ListingStandby { target },
                StatefulSetApi::list_members(self.flavor, ExecIn::Standby),
            ),
        }
    }

    /// Goes on with the upgrade of a cluster after an event, and says what to do next.
    pub fn upgrade_next(
        &self,
        pods: &PodApi,
        options: &UpgradeOptions,
        state: ClusterUpgrade,
        event: Event,
    ) -> (next: (ClusterUpgrade, Action))
        ensures
            (next.0@, next.1@) == cluster_after(self.flavor, pods@, options@, state@, event@),
    {
        match state {
            ClusterUpgrade::ListingStandby { target } => match event {
                Event::Members(standby) => {
                    if standby.len() == 0 {
                        (ClusterUpgrade::Done, Action::Done)
                    } else {
                        (
                            ClusterUpgrade::ListingActive { target, standby },
                            StatefulSetApi::list_members(self.flavor, ExecIn::Active),
                        )
                    }
                },
                other => listing_failed(ExecIn::Standby, other),
            },
            ClusterUpgrade::ListingActive { target, standby } => match event {
                Event::Members(active) => {
                    if active.len() == 0 {
                        (ClusterUpgrade::Done, Action::Done)
                    } else {
                        let mut queue = standby;
                        let mut active = active;
                        let ghost first = queue.deep_view();
                        let ghost second = active.deep_view();
                        queue.append(&mut active);
                        assert(queue.deep_view() =~= first + second);
                        StatefulSetApi::begin_next(pods, target, options, queue)
                    }
                },
                other => listing_failed(ExecIn::Active, other),
            },
            ClusterUpgrade::Upgrading { target, waiting, member } => {
                let next = pods.upgrade_next(&target, options, member, event);
                match next.1 {
                    Action::Fail { error } => (ClusterUpgrade::Failed, Action::Fail { error }),
                    Action::Done => StatefulSetApi::begin_next(pods, target, options, waiting),
                    action => (
                        ClusterUpgrade::Upgrading { target, waiting, member: next.0 },
                        action,
                    ),
                }
            },
            _ => (ClusterUpgrade::Failed, fail_unexpected()),
        }
    }
}

} // verus!
