use vstd::prelude::*;
use crate::helpers::{active_key, active_label_key, sealed_key, sealed_label_key, Flavor};
use crate::member::{Member, MemberSpecView, MemberView, Workload, WorkloadView};
use crate::text::{join2, slice, text_eq};

verus! {

/// Whether the platform reports the member as ready: one of its conditions is `Ready` with
/// status `True`.
pub open spec fn member_ready(member: MemberView) -> bool {
    member.status matches Some(status) && status.conditions matches Some(conditions) && exists|
        i: int,
    |
        0 <= i < conditions.len() && (#[trigger] conditions[i]).type_ == "Ready"@
            && conditions[i].status == "True"@
}

/// Whether the member is in the phase `Running`.
pub open spec fn member_running(member: MemberView) -> bool {
    member.status matches Some(status) && status.phase == Some("Running"@)
}

/// Whether the member has the label `key`.
pub open spec fn has_label(member: MemberView, key: Seq<char>) -> bool {
    member.labels matches Some(labels) && labels.contains_key(key)
}

/// Whether the member has the label `key` with the value `true`.
pub open spec fn label_is_true(member: MemberView, key: Seq<char>) -> bool {
    member.labels matches Some(labels) && labels.contains_key(key) && labels[key] == "true"@
}

/// A condition on a member, to wait for on a watch.
#[derive(Debug, PartialEq, Eq)]
pub enum PodCondition {
    /// The platform reports the member as ready.
    Ready,
    /// The member is in the phase `Running`.
    Running,
    /// The member has the label that says whether it is sealed.
    ExportingSealStatus { flavor: Flavor },
    /// The label of the member says that it is sealed.
    Sealed { flavor: Flavor },
    /// The label of the member says that it is the active one.
    Active { flavor: Flavor },
    /// The member is there and its label does not say that it is the active one.
    Standby { flavor: Flavor },
    /// The given condition does not hold.
    Not(Box<PodCondition>),
}

impl PodCondition {
    /// Whether the condition holds of a member. Of no member at all, no condition holds
    /// but a negated one.
    pub open spec fn holds(self, member: Option<MemberView>) -> bool
        decreases self,
    {
        match self {
            PodCondition::Ready => member matches Some(m) && member_ready(m),
            PodCondition::Running => member matches Some(m) && member_running(m),
            PodCondition::ExportingSealStatus { flavor } => member matches Some(m) && has_label(
                m,
                sealed_key(flavor.name()),
            ),
            PodCondition::Sealed { flavor } => member matches Some(m) && label_is_true(
                m,
                sealed_key(flavor.name()),
            ),
            PodCondition::Active { flavor } => member matches Some(m) && label_is_true(
                m,
                active_key(flavor.name()),
            ),
            PodCondition::Standby { flavor } => member matches Some(m) && !label_is_true(
                m,
                active_key(flavor.name()),
            ),
            PodCondition::Not(inner) => !inner.holds(member),
        }
    }

    /// Whether the condition holds of a member.
    pub fn matches_object(&self, member: Option<&Member>) -> (holds: bool)
        ensures
            holds == self.holds(
                match member {
                    Some(m) => Some(m@),
                    None => None,
                },
            ),
        decreases self,
    {
        match self {
            PodCondition::Not(inner) => !inner.matches_object(member),
            _ => match member {
                None => false,
                Some(m) => match self {
                    PodCondition::Ready => ready(m),
                    PodCondition::Running => running(m),
                    PodCondition::ExportingSealStatus { flavor } => {
                        let name = flavor.to_string();
                        let key = sealed_label_key(name.as_str());
                        m.label(key.as_str()).is_some()
                    },
                    PodCondition::Sealed { flavor } => {
                        let name = flavor.to_string();
                        let key = sealed_label_key(name.as_str());
                        true_label(m, key.as_str())
                    },
                    PodCondition::Active { flavor } => {
                        let name = flavor.to_string();
                        let key = active_label_key(name.as_str());
                        true_label(m, key.as_str())
                    },
                    PodCondition::Standby { flavor } => {
                        let name = flavor.to_string();
                        let key = active_label_key(name.as_str());
                        !true_label(m, key.as_str())
                    },
                    PodCondition::Not(inner) => !inner.matches_object(member),
                },
            },
        }
    }

    /// The condition that holds exactly where this one does not.
    pub fn not(self) -> (negated: PodCondition)
        ensures
            negated == PodCondition::Not(Box::new(self)),
            forall|member: Option<MemberView>| negated.holds(member) == !self.holds(member),
    {
        PodCondition::Not(Box::new(self))
    }
}

/// Whether the member has the label `key` with the value `true`.
fn true_label(member: &Member, key: &str) -> (holds: bool)
    ensures
        holds == label_is_true(member@, key@),
{
    match member.label(key) {
        Some(value) => text_eq(value.as_str(), "true"),
        None => false,
    }
}

/// Whether the platform reports the member as ready.
fn ready(member: &Member) -> (holds: bool)
    ensures
        holds == member_ready(member@),
{
    match &member.status {
        None => false,
        Some(status) => match &status.conditions {
            None => false,
            Some(conditions) => {
                let mut i: usize = 0;
                while i < conditions.len()
                    invariant
                        i <= conditions.len(),
                        member@.status == Some(status@),
                        status@.conditions == Some(conditions.deep_view()),
                        forall|j: int|
                            0 <= j < i ==> !((#[trigger] conditions.deep_view()[j]).type_
                                == "Ready"@ && conditions.deep_view()[j].status == "True"@),
                    decreases conditions.len() - i,
                {
                    assert(conditions.deep_view()[i as int] == conditions[i as int]@);
                    if text_eq(conditions[i].type_.as_str(), "Ready") && text_eq(
                        conditions[i].status.as_str(),
                        "True",
                    ) {
                        proof {
                            let model = member@.status->0.conditions->0;
                            assert(model == conditions.deep_view());
                            assert(model[i as int].type_ == "Ready"@);
                            assert(model[i as int].status == "True"@);
                        }
                        return true;
                    }
                    i = i + 1;
                }
                false
            },
        },
    }
}

/// Whether the member is in the phase `Running`.
fn running(member: &Member) -> (holds: bool)
    ensures
        holds == member_running(member@),
{
    match &member.status {
        None => false,
        Some(status) => match &status.phase {
            None => false,
            Some(phase) => text_eq(phase.as_str(), "Running"),
        },
    }
}

/// The condition that the platform reports a member as ready.
pub fn is_pod_ready() -> (condition: PodCondition)
    ensures
        condition == PodCondition::Ready,
{
    PodCondition::Ready
}

/// The condition that a member has the label that says whether it is sealed.
pub fn is_pod_exporting_seal_status(flavor: Flavor) -> (condition: PodCondition)
    ensures
        condition == (PodCondition::ExportingSealStatus { flavor }),
{
    PodCondition::ExportingSealStatus { flavor }
}

/// The condition that the label of a member does not say that it is sealed. It holds of no
/// member at all, too.
pub fn is_pod_unsealed(flavor: Flavor) -> (condition: PodCondition)
    ensures
        condition == PodCondition::Not(Box::new(PodCondition::Sealed { flavor })),
{
    is_pod_sealed(flavor).not()
}

/// The condition that the label of a member says that it is sealed.
pub fn is_pod_sealed(flavor: Flavor) -> (condition: PodCondition)
    ensures
        condition == (PodCondition::Sealed { flavor }),
{
    PodCondition::Sealed { flavor }
}

/// The condition that the label of a member says that it is the active one.
pub fn is_pod_active(flavor: Flavor) -> (condition: PodCondition)
    ensures
        condition == (PodCondition::Active { flavor }),
{
    PodCondition::Active { flavor }
}

/// The condition that a member is there and its label does not say that it is the active
/// one.
pub fn is_pod_standby(flavor: Flavor) -> (condition: PodCondition)
    ensures
        condition == (PodCondition::Standby { flavor }),
{
    PodCondition::Standby { flavor }
}

/// Whether every replica of the workload is ready and available: the workload reports its
/// replicas, its ready replicas and its available replicas, and the three counts are the
/// same.
pub open spec fn workload_ready(workload: WorkloadView) -> bool {
    workload.status matches Some(status) && status.ready_replicas matches Some(ready)
        && status.available_replicas matches Some(available) && ready == available && ready
        == status.replicas
}

/// Whether the workload reports a count of updated replicas that differs from its count of
/// replicas.
pub open spec fn workload_updated(workload: WorkloadView) -> bool {
    workload.status matches Some(status) && status.updated_replicas matches Some(updated)
        && updated != status.replicas
}

/// Whether `text` ends in `suffix`.
pub open spec fn ends_with(text: Seq<char>, suffix: Seq<char>) -> bool {
    suffix.len() <= text.len() && text.subrange(text.len() - suffix.len(), text.len() as int)
        == suffix
}

/// Whether every container named `vault` that has an image runs the given version: its
/// image ends in a colon and the version.
pub open spec fn template_has_version(template: MemberSpecView, version: Seq<char>) -> bool {
    forall|i: int|
        0 <= i < template.containers.len() && (#[trigger] template.containers[i]).name
            == "vault"@ && template.containers[i].image is Some ==> ends_with(
            template.containers[i].image->0,
            ":"@ + version,
        )
}

/// Whether the template of the workload runs the given version.
pub open spec fn workload_has_version(workload: WorkloadView, version: Seq<char>) -> bool {
    workload.spec matches Some(spec) && spec.template matches Some(template)
        && template_has_version(template, version)
}

/// A condition on a workload, to wait for on a watch.
#[derive(Debug, PartialEq, Eq)]
pub enum WorkloadCondition {
    /// Every replica of the workload is ready and available.
    Ready,
    /// The count of updated replicas differs from the count of replicas.
    Updated,
    /// The template of the workload runs the given version.
    HasVersion { version: String },
    /// The given condition does not hold.
    Not(Box<WorkloadCondition>),
}

impl WorkloadCondition {
    /// Whether the condition holds of a workload. Of no workload at all, no condition
    /// holds but a negated one.
    pub open spec fn holds(self, workload: Option<WorkloadView>) -> bool
        decreases self,
    {
        match self {
            WorkloadCondition::Ready => workload matches Some(w) && workload_ready(w),
            WorkloadCondition::Updated => workload matches Some(w) && workload_updated(w),
            WorkloadCondition::HasVersion { version } => workload matches Some(w)
                && workload_has_version(w, version@),
            WorkloadCondition::Not(inner) => !inner.holds(workload),
        }
    }

    /// Whether the condition holds of a workload.
    pub fn matches_object(&self, workload: Option<&Workload>) -> (holds: bool)
        ensures
            holds == self.holds(
                match workload {
                    Some(w) => Some(w@),
                    None => None,
                },
            ),
        decreases self,
    {
        match self {
            WorkloadCondition::Not(inner) => !inner.matches_object(workload),
            _ => match workload {
                None => false,
                Some(w) => match self {
                    WorkloadCondition::Ready => match &w.status {
                        Some(status) => match (status.ready_replicas, status.available_replicas) {
                            (Some(ready), Some(available)) => ready == available && ready
                                == status.replicas,
                            _ => false,
                        },
                        None => false,
                    },
                    WorkloadCondition::Updated => match &w.status {
                        Some(status) => match status.updated_replicas {
                            Some(updated) => updated != status.replicas,
                            None => false,
                        },
                        None => false,
                    },
                    WorkloadCondition::HasVersion { version } => has_version(w, version.as_str()),
                    WorkloadCondition::Not(inner) => !inner.matches_object(workload),
                },
            },
        }
    }

    /// The condition that holds exactly where this one does not.
    pub fn not(self) -> (negated: WorkloadCondition)
        ensures
            negated == WorkloadCondition::Not(Box::new(self)),
            forall|workload: Option<WorkloadView>| negated.holds(workload) == !self.holds(workload),
    {
        WorkloadCondition::Not(Box::new(self))
    }
}

/// Whether `text` ends in `suffix`.
pub fn text_ends_with(text: &str, suffix: &str) -> (ends: bool)
    ensures
        ends == ends_with(text@, suffix@),
{
    let length = text.unicode_len();
    let end = suffix.unicode_len();
    if end > length {
        return false;
    }
    let tail = slice(text, length - end, length);
    text_eq(tail.as_str(), suffix)
}

/// Whether the template of the workload runs the given version.
fn has_version(workload: &Workload, version: &str) -> (holds: bool)
    ensures
        holds == workload_has_version(workload@, version@),
{
    match &workload.spec {
        None => false,
        Some(spec) => match &spec.template {
            None => false,
            Some(template) => {
                let suffix = join2(":", version);
                let containers = &template.containers;
                let mut i: usize = 0;
                while i < containers.len()
                    invariant
                        i <= containers.len(),
                        suffix@ == ":"@ + version@,
                        workload@.spec == Some(spec@),
                        spec@.template == Some(template@),
                        containers.deep_view() == template@.containers,
                        forall|j: int|
                            0 <= j < i && (#[trigger] template@.containers[j]).name == "vault"@
                                && template@.containers[j].image is Some ==> ends_with(
                                template@.containers[j].image->0,
                                suffix@,
                            ),
                    decreases containers.len() - i,
                {
                    assert(template@.containers[i as int] == containers[i as int]@);
                    if text_eq(containers[i].name.as_str(), "vault") {
                        match &containers[i].image {
                            Some(image) => {
                                if !text_ends_with(image.as_str(), suffix.as_str()) {
                                    assert(template@.containers[i as int].image == Some(image@));
                                    return false;
                                }
                            },
                            None => {},
                        }
                    }
                    i = i + 1;
                }
                true
            },
        },
    }
}

/// The condition that every replica of a workload is ready and available.
pub fn is_statefulset_ready() -> (condition: WorkloadCondition)
    ensures
        condition == WorkloadCondition::Ready,
{
    WorkloadCondition::Ready
}

/// The condition that a workload reports a count of updated replicas that differs from its
/// count of replicas.
pub fn is_statefulset_updated() -> (condition: WorkloadCondition)
    ensures
        condition == WorkloadCondition::Updated,
{
    WorkloadCondition::Updated
}

/// The condition that the template of a workload runs the given version.
pub fn statefulset_has_version(version: String) -> (condition: WorkloadCondition)
    ensures
        condition == (WorkloadCondition::HasVersion { version }),
{
    WorkloadCondition::HasVersion { version }
}

} // verus!
