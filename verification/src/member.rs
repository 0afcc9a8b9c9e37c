use vstd::prelude::*;
use crate::text::text_eq;

verus! {

/// One label of a resource: a key and its value.
#[derive(Clone, Debug, PartialEq, Eq)]
pub struct Label {
    pub key: String,
    pub value: String,
}

/// The mathematical model of a [`Label`].
pub struct LabelView {
    pub key: Seq<char>,
    pub value: Seq<char>,
}

impl View for Label {
    type V = LabelView;

    open spec fn view(&self) -> LabelView {
        LabelView { key: self.key@, value: self.value@ }
    }
}

impl DeepView for Label {
    type V = LabelView;

    open spec fn deep_view(&self) -> LabelView {
        self@
    }
}

/// The position of the first label at or after `from` whose key is `key`, or the number of
/// labels where there is none.
pub open spec fn first_with_key(labels: Seq<LabelView>, key: Seq<char>, from: int) -> int
    decreases labels.len() - from,
{
    if from < 0 || from >= labels.len() {
        labels.len() as int
    } else if labels[from].key == key {
        from
    } else {
        first_with_key(labels, key, from + 1)
    }
}

/// The mapping that a list of labels stands for. Where a key occurs more than once, its
/// first occurrence counts.
pub open spec fn label_map(labels: Seq<LabelView>) -> Map<Seq<char>, Seq<char>> {
    Map::new(
        |key: Seq<char>| first_with_key(labels, key, 0) < labels.len(),
        |key: Seq<char>| labels[first_with_key(labels, key, 0)].value,
    )
}

/// Looks `key` up among `labels`.
pub fn label_get<'a>(labels: &'a Vec<Label>, key: &str) -> (value: Option<&'a String>)
    ensures
        value is Some <==> label_map(labels.deep_view()).contains_key(key@),
        value matches Some(v) ==> v@ == label_map(labels.deep_view())[key@],
{
    let mut i: usize = 0;
    while i < labels.len()
        invariant
            i <= labels.len(),
            first_with_key(labels.deep_view(), key@, 0) == first_with_key(
                labels.deep_view(),
                key@,
                i as int,
            ),
        decreases labels.len() - i,
    {
        if text_eq(labels[i].key.as_str(), key) {
            return Some(&labels[i].value);
        }
        i = i + 1;
    }
    None
}

/// One container of a member.
#[derive(Clone, Debug, PartialEq, Eq)]
pub struct Container {
    pub name: String,
    pub image: Option<String>,
}

/// The mathematical model of a [`Container`].
pub struct ContainerView {
    pub name: Seq<char>,
    pub image: Option<Seq<char>>,
}

impl View for Container {
    type V = ContainerView;

    open spec fn view(&self) -> ContainerView {
        ContainerView { name: self.name@, image: self.image.deep_view() }
    }
}

impl DeepView for Container {
    type V = ContainerView;

    open spec fn deep_view(&self) -> ContainerView {
        self@
    }
}

/// What a member is made of: its containers, in order.
#[derive(Clone, Debug, PartialEq, Eq)]
pub struct MemberSpec {
    pub containers: Vec<Container>,
}

/// The mathematical model of a [`MemberSpec`].
pub struct MemberSpecView {
    pub containers: Seq<ContainerView>,
}

impl View for MemberSpec {
    type V = MemberSpecView;

    open spec fn view(&self) -> MemberSpecView {
        MemberSpecView { containers: self.containers.deep_view() }
    }
}

impl DeepView for MemberSpec {
    type V = MemberSpecView;

    open spec fn deep_view(&self) -> MemberSpecView {
        self@
    }
}

/// One condition that the platform reports of a member, such as `Ready` with status `True`.
#[derive(Clone, Debug, PartialEq, Eq)]
pub struct StatusCondition {
    pub type_: String,
    pub status: String,
}

/// The mathematical model of a [`StatusCondition`].
pub struct StatusConditionView {
    pub type_: Seq<char>,
    pub status: Seq<char>,
}

impl View for StatusCondition {
    type V = StatusConditionView;

    open spec fn view(&self) -> StatusConditionView {
        StatusConditionView { type_: self.type_@, status: self.status@ }
    }
}

impl DeepView for StatusCondition {
    type V = StatusConditionView;

    open spec fn deep_view(&self) -> StatusConditionView {
        self@
    }
}

/// What the platform observes of a member: its phase and its conditions.
#[derive(Clone, Debug, PartialEq, Eq)]
pub struct MemberStatus {
    pub phase: Option<String>,
    pub conditions: Option<Vec<StatusCondition>>,
}

/// The mathematical model of a [`MemberStatus`].
pub struct MemberStatusView {
    pub phase: Option<Seq<char>>,
    pub conditions: Option<Seq<StatusConditionView>>,
}

impl View for MemberStatus {
    type V = MemberStatusView;

    open spec fn view(&self) -> MemberStatusView {
        MemberStatusView {
            phase: self.phase.deep_view(),
            conditions: self.conditions.deep_view(),
        }
    }
}

impl DeepView for MemberStatus {
    type V = MemberStatusView;

    open spec fn deep_view(&self) -> MemberStatusView {
        self@
    }
}

/// One replica of the clustered secrets engine, as the platform describes it.
///
/// The library only reads members; the platform alone changes them.
#[derive(Clone, Debug, PartialEq, Eq)]
pub struct Member {
    /// The stable name. A replacement of a deleted member has the same name.
    pub name: Option<String>,
    /// The identity tag that the platform gave this incarnation of the member.
    pub uid: Option<String>,
    pub labels: Option<Vec<Label>>,
    pub spec: Option<MemberSpec>,
    pub status: Option<MemberStatus>,
}

/// The mathematical model of a [`Member`].
pub struct MemberView {
    pub name: Option<Seq<char>>,
    pub uid: Option<Seq<char>>,
    pub labels: Option<Map<Seq<char>, Seq<char>>>,
    pub spec: Option<MemberSpecView>,
    pub status: Option<MemberStatusView>,
}

impl View for Member {
    type V = MemberView;

    open spec fn view(&self) -> MemberView {
        MemberView {
            name: self.name.deep_view(),
            uid: self.uid.deep_view(),
            labels: match self.labels {
                Some(labels) => Some(label_map(labels.deep_view())),
                None => None,
            },
            spec: self.spec.deep_view(),
            status: self.status.deep_view(),
        }
    }
}

impl DeepView for Member {
    type V = MemberView;

    open spec fn deep_view(&self) -> MemberView {
        self@
    }
}

impl Member {
    /// The value of the label `key`: `None` where the member has no such label, or no
    /// labels at all.
    pub fn label<'a>(&'a self, key: &str) -> (value: Option<&'a String>)
        ensures
            value is Some <==> (self@.labels matches Some(labels) && labels.contains_key(key@)),
            value matches Some(v) ==> v@ == self@.labels->0[key@],
    {
        match &self.labels {
            Some(labels) => label_get(labels, key),
            None => None,
        }
    }
}

/// What a workload is asked to run, as far as the library reads it: the template of the
/// members that the workload creates.
#[derive(Clone, Debug, PartialEq, Eq)]
pub struct WorkloadSpec {
    pub template: Option<MemberSpec>,
}

/// The mathematical model of a [`WorkloadSpec`].
pub struct WorkloadSpecView {
    pub template: Option<MemberSpecView>,
}

impl View for WorkloadSpec {
    type V = WorkloadSpecView;

    open spec fn view(&self) -> WorkloadSpecView {
        WorkloadSpecView { template: self.template.deep_view() }
    }
}

impl DeepView for WorkloadSpec {
    type V = WorkloadSpecView;

    open spec fn deep_view(&self) -> WorkloadSpecView {
        self@
    }
}

/// The replica counts that the platform observes of a workload.
#[derive(Clone, Copy, Debug, PartialEq, Eq)]
pub struct WorkloadStatus {
    pub replicas: i32,
    pub ready_replicas: Option<i32>,
    pub available_replicas: Option<i32>,
    pub updated_replicas: Option<i32>,
}

impl View for WorkloadStatus {
    type V = WorkloadStatus;

    open spec fn view(&self) -> WorkloadStatus {
        *self
    }
}

impl DeepView for WorkloadStatus {
    type V = WorkloadStatus;

    open spec fn deep_view(&self) -> WorkloadStatus {
        *self
    }
}

/// The ordered, replicated parent of the members. Read-only.
#[derive(Clone, Debug, PartialEq, Eq)]
pub struct Workload {
    pub name: Option<String>,
    pub spec: Option<WorkloadSpec>,
    pub status: Option<WorkloadStatus>,
}

/// The mathematical model of a [`Workload`].
pub struct WorkloadView {
    pub name: Option<Seq<char>>,
    pub spec: Option<WorkloadSpecView>,
    pub status: Option<WorkloadStatus>,
}

impl View for Workload {
    type V = WorkloadView;

    open spec fn view(&self) -> WorkloadView {
        WorkloadView {
            name: self.name.deep_view(),
            spec: self.spec.deep_view(),
            status: self.status,
        }
    }
}

impl DeepView for Workload {
    type V = WorkloadView;

    open spec fn deep_view(&self) -> WorkloadView {
        self@
    }
}

} // verus!
