use vstd::prelude::*;
use crate::error::{Error, ErrorKind, ErrorView};
use crate::helpers::Flavor;
use crate::http::{
    raft_configuration_request, raft_configuration_request_view, seal_status_request,
    seal_status_request_view, VaultRequest, VaultResponse, VaultResponseView,
};
use crate::json::{
    bool_of, items_of, json_document, json_get, json_parse, left_out, optional, text_of, u64_of,
    u8_of, Json, JsonView,
};
use crate::secret::Secret;
use crate::text::join3;

verus! {

/// The text of the member `name`, where the value has that member and it holds a text.
pub fn text_member(value: &Json, name: &str) -> (text: Option<String>)
    ensures
        text.deep_view() == text_of(json_get(value@, name@)),
{
    match value.get(name) {
        Some(member) => match member.as_text() {
            Some(text) => Some(text.clone()),
            None => None,
        },
        None => None,
    }
}

/// The truth value of the member `name`, where the value has that member and it holds one.
pub fn bool_member(value: &Json, name: &str) -> (flag: Option<bool>)
    ensures
        flag == bool_of(json_get(value@, name@)),
{
    match value.get(name) {
        Some(member) => member.as_bool(),
        None => None,
    }
}

/// The number of the member `name`, where the value has that member and it holds a whole
/// number from 0 to 255.
pub fn u8_member(value: &Json, name: &str) -> (number: Option<u8>)
    ensures
        number == u8_of(json_get(value@, name@)),
{
    match value.get(name) {
        Some(member) => member.as_u8(),
        None => None,
    }
}

/// The number of the member `name`, where the value has that member and it holds a whole
/// number from 0 to 2^64 - 1.
pub fn u64_member(value: &Json, name: &str) -> (number: Option<u64>)
    ensures
        number == u64_of(json_get(value@, name@)),
{
    match value.get(name) {
        Some(member) => member.as_u64(),
        None => None,
    }
}

/// Whether the member `name` is left out of the value: absent, or `null`.
pub fn member_left_out(value: &Json, name: &str) -> (out: bool)
    ensures
        out == left_out(json_get(value@, name@)),
{
    match value.get(name) {
        Some(member) => member.is_null(),
        None => true,
    }
}

/// The text of the optional member `name`.
pub fn optional_text_member(value: &Json, name: &str) -> (text: Option<Option<String>>)
    ensures
        text.deep_view() == optional(json_get(value@, name@), text_of(json_get(value@, name@))),
{
    if member_left_out(value, name) {
        Some(None)
    } else {
        match text_member(value, name) {
            Some(text) => Some(Some(text)),
            None => None,
        }
    }
}

/// The truth value of the optional member `name`.
pub fn optional_bool_member(value: &Json, name: &str) -> (flag: Option<Option<bool>>)
    ensures
        flag == optional(json_get(value@, name@), bool_of(json_get(value@, name@))),
{
    if member_left_out(value, name) {
        Some(None)
    } else {
        match bool_member(value, name) {
            Some(flag) => Some(Some(flag)),
            None => None,
        }
    }
}

/// The number of the optional member `name`.
pub fn optional_u64_member(value: &Json, name: &str) -> (number: Option<Option<u64>>)
    ensures
        number == optional(json_get(value@, name@), u64_of(json_get(value@, name@))),
{
    if member_left_out(value, name) {
        Some(None)
    } else {
        match u64_member(value, name) {
            Some(number) => Some(Some(number)),
            None => None,
        }
    }
}

/// What a member reports of its seal: whether it is sealed and initialized, the parameters
/// of the seal, and, in a high-availability cluster, what it knows of the leader.
#[derive(Clone, Debug, PartialEq, Eq)]
pub struct PodSealStatus {
    pub type_: String,
    pub initialized: bool,
    pub sealed: bool,
    pub t: u8,
    pub n: u8,
    pub progress: u8,
    pub nonce: String,
    pub version: String,
    pub build_date: String,
    pub migration: bool,
    pub recovery_seal: bool,
    pub storage_type: String,
    pub ha_enabled: Option<bool>,
    pub cluster_name: Option<String>,
    pub cluster_id: Option<String>,
    pub active_time: Option<String>,
    pub leader_address: Option<String>,
    pub leader_cluster_address: Option<String>,
    pub raft_committed_index: Option<u64>,
    pub raft_applied_index: Option<u64>,
}

/// The mathematical model of a [`PodSealStatus`].
pub struct PodSealStatusView {
    pub type_: Seq<char>,
    pub initialized: bool,
    pub sealed: bool,
    pub t: u8,
    pub n: u8,
    pub progress: u8,
    pub nonce: Seq<char>,
    pub version: Seq<char>,
    pub build_date: Seq<char>,
    pub migration: bool,
    pub recovery_seal: bool,
    pub storage_type: Seq<char>,
    pub ha_enabled: Option<bool>,
    pub cluster_name: Option<Seq<char>>,
    pub cluster_id: Option<Seq<char>>,
    pub active_time: Option<Seq<char>>,
    pub leader_address: Option<Seq<char>>,
    pub leader_cluster_address: Option<Seq<char>>,
    pub raft_committed_index: Option<u64>,
    pub raft_applied_index: Option<u64>,
}

impl View for PodSealStatus {
    type V = PodSealStatusView;

    open spec fn view(&self) -> PodSealStatusView {
        PodSealStatusView {
            type_: self.type_@,
            initialized: self.initialized,
            sealed: self.sealed,
            t: self.t,
            n: self.n,
            progress: self.progress,
            nonce: self.nonce@,
            version: self.version@,
            build_date: self.build_date@,
            migration: self.migration,
            recovery_seal: self.recovery_seal,
            storage_type: self.storage_type@,
            ha_enabled: self.ha_enabled,
            cluster_name: self.cluster_name.deep_view(),
            cluster_id: self.cluster_id.deep_view(),
            active_time: self.active_time.deep_view(),
            leader_address: self.leader_address.deep_view(),
            leader_cluster_address: self.leader_cluster_address.deep_view(),
            raft_committed_index: self.raft_committed_index,
            raft_applied_index: self.raft_applied_index,
        }
    }
}

impl DeepView for PodSealStatus {
    type V = PodSealStatusView;

    open spec fn deep_view(&self) -> PodSealStatusView {
        self@
    }
}

/// The seal status that a JSON value denotes.
///
/// The value denotes one where it is an object that holds the twelve members that every
/// member of a cluster reports, each of its kind, and holds each of the eight members of a
/// high-availability cluster either not at all, as `null`, or of its kind. Members of other
/// names are passed over.
pub open spec fn seal_status_of(value: JsonView) -> Option<PodSealStatusView> {
    let type_ = text_of(json_get(value, "type"@));
    let initialized = bool_of(json_get(value, "initialized"@));
    let sealed = bool_of(json_get(value, "sealed"@));
    let t = u8_of(json_get(value, "t"@));
    let n = u8_of(json_get(value, "n"@));
    let progress = u8_of(json_get(value, "progress"@));
    let nonce = text_of(json_get(value, "nonce"@));
    let version = text_of(json_get(value, "version"@));
    let build_date = text_of(json_get(value, "build_date"@));
    let migration = bool_of(json_get(value, "migration"@));
    let recovery_seal = bool_of(json_get(value, "recovery_seal"@));
    let storage_type = text_of(json_get(value, "storage_type"@));
    let ha_enabled = optional(
        json_get(value, "ha_enabled"@),
        bool_of(json_get(value, "ha_enabled"@)),
    );
    let cluster_name = optional(
        json_get(value, "cluster_name"@),
        text_of(json_get(value, "cluster_name"@)),
    );
    let cluster_id = optional(
        json_get(value, "cluster_id"@),
        text_of(json_get(value, "cluster_id"@)),
    );
    let active_time = optional(
        json_get(value, "active_time"@),
        text_of(json_get(value, "active_time"@)),
    );
    let leader_address = optional(
        json_get(value, "leader_address"@),
        text_of(json_get(value, "leader_address"@)),
    );
    let leader_cluster_address = optional(
        json_get(value, "leader_cluster_address"@),
        text_of(json_get(value, "leader_cluster_address"@)),
    );
    let raft_committed_index = optional(
        json_get(value, "raft_committed_index"@),
        u64_of(json_get(value, "raft_committed_index"@)),
    );
    let raft_applied_index = optional(
        json_get(value, "raft_applied_index"@),
        u64_of(json_get(value, "raft_applied_index"@)),
    );
    if type_ is Some && initialized is Some && sealed is Some && t is Some && n is Some
        && progress is Some && nonce is Some && version is Some && build_date is Some
        && migration is Some && recovery_seal is Some && storage_type is Some
        && ha_enabled is Some && cluster_name is Some && cluster_id is Some
        && active_time is Some && leader_address is Some && leader_cluster_address is Some
        && raft_committed_index is Some && raft_applied_index is Some {
        Some(
            PodSealStatusView {
                type_: type_->0,
                initialized: initialized->0,
                sealed: sealed->0,
                t: t->0,
                n: n->0,
                progress: progress->0,
                nonce: nonce->0,
                version: version->0,
                build_date: build_date->0,
                migration: migration->0,
                recovery_seal: recovery_seal->0,
                storage_type: storage_type->0,
                ha_enabled: ha_enabled->0,
                cluster_name: cluster_name->0,
                cluster_id: cluster_id->0,
                active_time: active_time->0,
                leader_address: leader_address->0,
                leader_cluster_address: leader_cluster_address->0,
                raft_committed_index: raft_committed_index->0,
                raft_applied_index: raft_applied_index->0,
            },
        )
    } else {
        None
    }
}

/// Whether a value holds the twelve members that every member of a cluster reports, each
/// of its kind.
pub open spec fn reports_seal(value: JsonView) -> bool {
    &&& text_of(json_get(value, "type"@)) is Some
    &&& bool_of(json_get(value, "initialized"@)) is Some
    &&& bool_of(json_get(value, "sealed"@)) is Some
    &&& u8_of(json_get(value, "t"@)) is Some
    &&& u8_of(json_get(value, "n"@)) is Some
    &&& u8_of(json_get(value, "progress"@)) is Some
    &&& text_of(json_get(value, "nonce"@)) is Some
    &&& text_of(json_get(value, "version"@)) is Some
    &&& text_of(json_get(value, "build_date"@)) is Some
    &&& bool_of(json_get(value, "migration"@)) is Some
    &&& bool_of(json_get(value, "recovery_seal"@)) is Some
    &&& text_of(json_get(value, "storage_type"@)) is Some
}

/// Whether a value holds none of the eight members that only a member of a
/// high-availability cluster reports.
pub open spec fn reports_no_cluster(value: JsonView) -> bool {
    &&& left_out(json_get(value, "ha_enabled"@))
    &&& left_out(json_get(value, "cluster_name"@))
    &&& left_out(json_get(value, "cluster_id"@))
    &&& left_out(json_get(value, "active_time"@))
    &&& left_out(json_get(value, "leader_address"@))
    &&& left_out(json_get(value, "leader_cluster_address"@))
    &&& left_out(json_get(value, "raft_committed_index"@))
    &&& left_out(json_get(value, "raft_applied_index"@))
}

/// Whether a value holds each of the eight members of a high-availability cluster, of its
/// kind.
pub open spec fn reports_cluster(value: JsonView) -> bool {
    &&& bool_of(json_get(value, "ha_enabled"@)) is Some
    &&& text_of(json_get(value, "cluster_name"@)) is Some
    &&& text_of(json_get(value, "cluster_id"@)) is Some
    &&& text_of(json_get(value, "active_time"@)) is Some
    &&& text_of(json_get(value, "leader_address"@)) is Some
    &&& text_of(json_get(value, "leader_cluster_address"@)) is Some
    &&& u64_of(json_get(value, "raft_committed_index"@)) is Some
    &&& u64_of(json_get(value, "raft_applied_index"@)) is Some
}

/// The least report is read: a value that holds the twelve members that every member of a
/// cluster reports, and none of the others, denotes a seal status, which then has none of
/// the parts that only a high-availability cluster has.
pub proof fn least_report_is_read(value: JsonView)
    requires
        reports_seal(value),
        reports_no_cluster(value),
    ensures
        seal_status_of(value) matches Some(seal_status) && {
            &&& seal_status.initialized == bool_of(json_get(value, "initialized"@))->0
            &&& seal_status.sealed == bool_of(json_get(value, "sealed"@))->0
            &&& seal_status.ha_enabled is None
            &&& seal_status.cluster_name is None
            &&& seal_status.cluster_id is None
            &&& seal_status.active_time is None
            &&& seal_status.leader_address is None
            &&& seal_status.leader_cluster_address is None
            &&& seal_status.raft_committed_index is None
            &&& seal_status.raft_applied_index is None
        },
{
}

/// The full report is read: a value that holds all twenty members, each of its kind,
/// denotes a seal status, which then has every part.
pub proof fn full_report_is_read(value: JsonView)
    requires
        reports_seal(value),
        reports_cluster(value),
    ensures
        seal_status_of(value) matches Some(seal_status) && {
            &&& seal_status.initialized == bool_of(json_get(value, "initialized"@))->0
            &&& seal_status.sealed == bool_of(json_get(value, "sealed"@))->0
            &&& seal_status.ha_enabled == bool_of(json_get(value, "ha_enabled"@))
            &&& seal_status.cluster_name == text_of(json_get(value, "cluster_name"@))
            &&& seal_status.cluster_id == text_of(json_get(value, "cluster_id"@))
            &&& seal_status.active_time == text_of(json_get(value, "active_time"@))
            &&& seal_status.leader_address == text_of(json_get(value, "leader_address"@))
            &&& seal_status.leader_cluster_address == text_of(
                json_get(value, "leader_cluster_address"@),
            )
            &&& seal_status.raft_committed_index == u64_of(
                json_get(value, "raft_committed_index"@),
            )
            &&& seal_status.raft_applied_index == u64_of(json_get(value, "raft_applied_index"@))
        },
{
}

/// A report is read exactly when it holds the twelve members that every member reports,
/// each of its kind, and each of the eight others either not at all or of its kind.
pub proof fn report_is_read_iff_well_formed(value: JsonView)
    ensures
        seal_status_of(value) is Some <==> reports_seal(value) && {
            &&& left_out(json_get(value, "ha_enabled"@)) || bool_of(
                json_get(value, "ha_enabled"@),
            ) is Some
            &&& left_out(json_get(value, "cluster_name"@)) || text_of(
                json_get(value, "cluster_name"@),
            ) is Some
            &&& left_out(json_get(value, "cluster_id"@)) || text_of(
                json_get(value, "cluster_id"@),
            ) is Some
            &&& left_out(json_get(value, "active_time"@)) || text_of(
                json_get(value, "active_time"@),
            ) is Some
            &&& left_out(json_get(value, "leader_address"@)) || text_of(
                json_get(value, "leader_address"@),
            ) is Some
            &&& left_out(json_get(value, "leader_cluster_address"@)) || text_of(
                json_get(value, "leader_cluster_address"@),
            ) is Some
            &&& left_out(json_get(value, "raft_committed_index"@)) || u64_of(
                json_get(value, "raft_committed_index"@),
            ) is Some
            &&& left_out(json_get(value, "raft_applied_index"@)) || u64_of(
                json_get(value, "raft_applied_index"@),
            ) is Some
        },
{
}

impl PodSealStatus {
    /// Reads a seal status from a JSON value.
    pub fn from_json(value: &Json) -> (status: Option<PodSealStatus>)
        ensures
            status.deep_view() == seal_status_of(value@),
    {
        let type_ = text_member(value, "type")?;
        let initialized = bool_member(value, "initialized")?;
        let sealed = bool_member(value, "sealed")?;
        let t = u8_member(value, "t")?;
        let n = u8_member(value, "n")?;
        let progress = u8_member(value, "progress")?;
        let nonce = text_member(value, "nonce")?;
        let version = text_member(value, "version")?;
        let build_date = text_member(value, "build_date")?;
        let migration = bool_member(value, "migration")?;
        let recovery_seal = bool_member(value, "recovery_seal")?;
        let storage_type = text_member(value, "storage_type")?;
        let ha_enabled = optional_bool_member(value, "ha_enabled")?;
        let cluster_name = optional_text_member(value, "cluster_name")?;
        let cluster_id = optional_text_member(value, "cluster_id")?;
        let active_time = optional_text_member(value, "active_time")?;
        let leader_address = optional_text_member(value, "leader_address")?;
        let leader_cluster_address = optional_text_member(value, "leader_cluster_address")?;
        let raft_committed_index = optional_u64_member(value, "raft_committed_index")?;
        let raft_applied_index = optional_u64_member(value, "raft_applied_index")?;
        Some(
            PodSealStatus {
                type_,
                initialized,
                sealed,
                t,
                n,
                progress,
                nonce,
                version,
                build_date,
                migration,
                recovery_seal,
                storage_type,
                ha_enabled,
                cluster_name,
                cluster_id,
                active_time,
                leader_address,
                leader_cluster_address,
                raft_committed_index,
                raft_applied_index,
            },
        )
    }
}

/// A protocol error whose message is `context`, a colon and the body of the response.
pub open spec fn protocol_error(context: Seq<char>, body: Seq<char>) -> ErrorView {
    ErrorView { kind: ErrorKind::Protocol, message: context + ": "@ + body }
}

/// A protocol error whose message is `context`, a colon and the body of the response.
pub fn protocol_failure(context: &str, body: &str) -> (error: Error)
    ensures
        error@ == protocol_error(context@, body@),
{
    Error { kind: ErrorKind::Protocol, message: join3(context, ": ", body) }
}

/// The model of the result of reading a seal status.
pub open spec fn seal_status_view(result: Result<PodSealStatus, Error>) -> Result<
    PodSealStatusView,
    ErrorView,
> {
    match result {
        Ok(status) => Ok(status@),
        Err(error) => Err(error@),
    }
}

/// What a response to a seal-status request with the given status and body says, where
/// `document` is what the body denotes as JSON: the seal status where the status is 200 and
/// the document denotes one, and a protocol error with the body otherwise.
pub open spec fn seal_status_answer(
    status: u16,
    body: Seq<char>,
    document: Option<JsonView>,
) -> Result<PodSealStatusView, ErrorView> {
    if status != 200 {
        Err(protocol_error("getting seal status"@, body))
    } else {
        match document {
            Some(value) => match seal_status_of(value) {
                Some(seal_status) => Ok(seal_status),
                None => Err(protocol_error("decoding seal status"@, body)),
            },
            None => Err(protocol_error("decoding seal status"@, body)),
        }
    }
}

/// What a response to a seal-status request says.
pub open spec fn seal_status_result(response: VaultResponseView) -> Result<
    PodSealStatusView,
    ErrorView,
> {
    seal_status_answer(response.status, response.body, json_document(response.body))
}

/// Reads the answer to a seal-status request, given its status, its body and the JSON
/// document that the body denotes.
pub fn read_seal_status(status: u16, body: &str, document: Option<&Json>) -> (result: Result<
    PodSealStatus,
    Error,
>)
    ensures
        seal_status_view(result) == seal_status_answer(
            status,
            body@,
            crate::json::found_view(document),
        ),
{
    if status != 200 {
        return Err(protocol_failure("getting seal status", body));
    }
    match document {
        Some(value) => match PodSealStatus::from_json(value) {
            Some(seal_status) => Ok(seal_status),
            None => Err(protocol_failure("decoding seal status", body)),
        },
        None => Err(protocol_failure("decoding seal status", body)),
    }
}

/// Reads the seal status out of the response to a seal-status request. Any status but 200
/// fails with a protocol error that holds the body, and so does a body that is no seal
/// status.
pub fn seal_status(response: &VaultResponse) -> (result: Result<PodSealStatus, Error>)
    ensures
        seal_status_view(result) == seal_status_result(response@),
{
    let document = json_parse(response.body.as_str());
    read_seal_status(response.status, response.body.as_str(), document.as_ref())
}

/// A condition on the seal status of a member, for polling.
#[derive(Debug, PartialEq, Eq)]
pub enum SealStatusCondition {
    /// The member reports that it is initialized.
    Initialized,
    /// The member reports that it is sealed.
    Sealed,
    /// The given condition does not hold.
    Not(Box<SealStatusCondition>),
}

impl SealStatusCondition {
    /// Whether the condition holds of a seal status. Of no seal status at all, the two
    /// plain conditions do not hold.
    pub open spec fn holds(self, status: Option<PodSealStatusView>) -> bool
        decreases self,
    {
        match self {
            SealStatusCondition::Initialized => status matches Some(s) && s.initialized,
            SealStatusCondition::Sealed => status matches Some(s) && s.sealed,
            SealStatusCondition::Not(inner) => !inner.holds(status),
        }
    }

    /// Whether the condition holds of a seal status.
    pub fn matches_object(&self, status: Option<&PodSealStatus>) -> (holds: bool)
        ensures
            holds == self.holds(
                match status {
                    Some(s) => Some(s@),
                    None => None,
                },
            ),
        decreases self,
    {
        match self {
            SealStatusCondition::Initialized => match status {
                Some(s) => s.initialized,
                None => false,
            },
            SealStatusCondition::Sealed => match status {
                Some(s) => s.sealed,
                None => false,
            },
            SealStatusCondition::Not(inner) => !inner.matches_object(status),
        }
    }

    /// The condition that holds exactly where this one does not.
    pub fn not(self) -> (negated: SealStatusCondition)
        ensures
            negated == SealStatusCondition::Not(Box::new(self)),
            forall|status: Option<PodSealStatusView>| negated.holds(status) == !self.holds(status),
    {
        SealStatusCondition::Not(Box::new(self))
    }
}

/// The condition that a member reports that it is initialized.
pub fn is_seal_status_initialized() -> (condition: SealStatusCondition)
    ensures
        condition == SealStatusCondition::Initialized,
{
    SealStatusCondition::Initialized
}

/// The condition that a member reports that it is sealed.
pub fn is_seal_status_sealed() -> (condition: SealStatusCondition)
    ensures
        condition == SealStatusCondition::Sealed,
{
    SealStatusCondition::Sealed
}

/// What to do after one poll: the value is there, the request is to be sent again, or the
/// poll failed.
pub enum Poll<T> {
    Ready(T),
    Again(VaultRequest),
    Failed(Error),
}

/// What follows from the answer to one seal-status request while waiting for `condition`:
/// a failure ends the wait, a seal status of which the condition holds ends it with that
/// status, and any other seal status has the request sent again.
pub open spec fn seal_status_poll(
    flavor: Flavor,
    condition: SealStatusCondition,
    answer: Result<PodSealStatusView, ErrorView>,
    poll: Poll<PodSealStatus>,
) -> bool {
    match answer {
        Err(error) => poll matches Poll::Failed(failure) && failure@ == error,
        Ok(seal_status) => if condition.holds(Some(seal_status)) {
            poll matches Poll::Ready(ready) && ready@ == seal_status
        } else {
            poll matches Poll::Again(request) && request@ == seal_status_request_view(flavor)
        },
    }
}

/// Decides what follows from one answer to a seal-status request while waiting for
/// `condition`.
pub fn poll_seal_status(
    flavor: Flavor,
    condition: &SealStatusCondition,
    answer: Result<PodSealStatus, Error>,
) -> (poll: Poll<PodSealStatus>)
    ensures
        seal_status_poll(flavor, *condition, seal_status_view(answer), poll),
{
    match answer {
        Err(error) => Poll::Failed(error),
        Ok(seal_status) => if condition.matches_object(Some(&seal_status)) {
            Poll::Ready(seal_status)
        } else {
            Poll::Again(seal_status_request(flavor))
        },
    }
}

/// One step of waiting until the seal status of a member meets `condition`: reads the
/// response to the last seal-status request and decides what follows.
pub fn await_seal_status(
    flavor: Flavor,
    condition: &SealStatusCondition,
    response: &VaultResponse,
) -> (poll: Poll<PodSealStatus>)
    ensures
        seal_status_poll(flavor, *condition, seal_status_result(response@), poll),
{
    poll_seal_status(flavor, condition, seal_status(response))
}

/// One server of a Raft configuration.
#[derive(Clone, Debug, PartialEq, Eq)]
pub struct RaftConfigurationServer {
    pub node_id: String,
    pub address: String,
    pub leader: bool,
    pub protocol_version: String,
    pub voter: bool,
}

/// The mathematical model of a [`RaftConfigurationServer`].
pub struct RaftConfigurationServerView {
    pub node_id: Seq<char>,
    pub address: Seq<char>,
    pub leader: bool,
    pub protocol_version: Seq<char>,
    pub voter: bool,
}

impl View for RaftConfigurationServer {
    type V = RaftConfigurationServerView;

    open spec fn view(&self) -> RaftConfigurationServerView {
        RaftConfigurationServerView {
            node_id: self.node_id@,
            address: self.address@,
            leader: self.leader,
            protocol_version: self.protocol_version@,
            voter: self.voter,
        }
    }
}

impl DeepView for RaftConfigurationServer {
    type V = RaftConfigurationServerView;

    open spec fn deep_view(&self) -> RaftConfigurationServerView {
        self@
    }
}

/// The servers of a Raft configuration and the index at which it was written.
#[derive(Clone, Debug, PartialEq, Eq)]
pub struct RaftConfigurationDataConfig {
    pub servers: Vec<RaftConfigurationServer>,
    pub index: u64,
}

/// The mathematical model of a [`RaftConfigurationDataConfig`].
pub struct RaftConfigurationDataConfigView {
    pub servers: Seq<RaftConfigurationServerView>,
    pub index: u64,
}

impl View for RaftConfigurationDataConfig {
    type V = RaftConfigurationDataConfigView;

    open spec fn view(&self) -> RaftConfigurationDataConfigView {
        RaftConfigurationDataConfigView { servers: self.servers.deep_view(), index: self.index }
    }
}

impl DeepView for RaftConfigurationDataConfig {
    type V = RaftConfigurationDataConfigView;

    open spec fn deep_view(&self) -> RaftConfigurationDataConfigView {
        self@
    }
}

/// The data of the answer to a Raft-configuration request.
#[derive(Clone, Debug, PartialEq, Eq)]
pub struct RaftConfigurationData {
    pub config: RaftConfigurationDataConfig,
}

/// The mathematical model of a [`RaftConfigurationData`].
pub struct RaftConfigurationDataView {
    pub config: RaftConfigurationDataConfigView,
}

impl View for RaftConfigurationData {
    type V = RaftConfigurationDataView;

    open spec fn view(&self) -> RaftConfigurationDataView {
        RaftConfigurationDataView { config: self.config@ }
    }
}

impl DeepView for RaftConfigurationData {
    type V = RaftConfigurationDataView;

    open spec fn deep_view(&self) -> RaftConfigurationDataView {
        self@
    }
}

/// The answer to a Raft-configuration request: the members of the consensus group, each
/// with its leader and voter flags.
#[derive(Debug, PartialEq, Eq)]
pub struct RaftConfiguration {
    pub request_id: String,
    pub lease_id: String,
    pub renewable: bool,
    pub lease_duration: u64,
    pub data: RaftConfigurationData,
    pub wrap_info: Option<Json>,
    pub warnings: Option<Json>,
    pub auth: Option<Json>,
}

/// The mathematical model of a [`RaftConfiguration`].
pub struct RaftConfigurationView {
    pub request_id: Seq<char>,
    pub lease_id: Seq<char>,
    pub renewable: bool,
    pub lease_duration: u64,
    pub data: RaftConfigurationDataView,
    pub wrap_info: Option<JsonView>,
    pub warnings: Option<JsonView>,
    pub auth: Option<JsonView>,
}

impl View for RaftConfiguration {
    type V = RaftConfigurationView;

    open spec fn view(&self) -> RaftConfigurationView {
        RaftConfigurationView {
            request_id: self.request_id@,
            lease_id: self.lease_id@,
            renewable: self.renewable,
            lease_duration: self.lease_duration,
            data: self.data@,
            wrap_info: self.wrap_info.deep_view(),
            warnings: self.warnings.deep_view(),
            auth: self.auth.deep_view(),
        }
    }
}

impl DeepView for RaftConfiguration {
    type V = RaftConfigurationView;

    open spec fn deep_view(&self) -> RaftConfigurationView {
        self@
    }
}

/// The server that a JSON value denotes: an object with the five members of a server, each
/// of its kind.
pub open spec fn server_of(value: JsonView) -> Option<RaftConfigurationServerView> {
    let node_id = text_of(json_get(value, "node_id"@));
    let address = text_of(json_get(value, "address"@));
    let leader = bool_of(json_get(value, "leader"@));
    let protocol_version = text_of(json_get(value, "protocol_version"@));
    let voter = bool_of(json_get(value, "voter"@));
    if node_id is Some && address is Some && leader is Some && protocol_version is Some
        && voter is Some {
        Some(
            RaftConfigurationServerView {
                node_id: node_id->0,
                address: address->0,
                leader: leader->0,
                protocol_version: protocol_version->0,
                voter: voter->0,
            },
        )
    } else {
        None
    }
}

/// The servers that a sequence of JSON values denotes, where each of them denotes one.
pub open spec fn servers_of(items: Seq<JsonView>) -> Option<Seq<RaftConfigurationServerView>> {
    if forall|i: int| 0 <= i < items.len() ==> (#[trigger] server_of(items[i])) is Some {
        Some(Seq::new(items.len(), |i: int| server_of(items[i])->0))
    } else {
        None
    }
}

/// What an optional member of any kind holds: nothing where it is left out, else its
/// value.
pub open spec fn any_of(found: Option<JsonView>) -> Option<JsonView> {
    if left_out(found) {
        None
    } else {
        found
    }
}

/// The Raft configuration that a JSON value denotes.
pub open spec fn raft_configuration_of(value: JsonView) -> Option<RaftConfigurationView> {
    let request_id = text_of(json_get(value, "request_id"@));
    let lease_id = text_of(json_get(value, "lease_id"@));
    let renewable = bool_of(json_get(value, "renewable"@));
    let lease_duration = u64_of(json_get(value, "lease_duration"@));
    let data = json_get(value, "data"@);
    let config = if data is Some {
        json_get(data->0, "config"@)
    } else {
        None
    };
    let items = if config is Some {
        items_of(json_get(config->0, "servers"@))
    } else {
        None
    };
    let servers = if items is Some {
        servers_of(items->0)
    } else {
        None
    };
    let index = if config is Some {
        u64_of(json_get(config->0, "index"@))
    } else {
        None
    };
    if request_id is Some && lease_id is Some && renewable is Some && lease_duration is Some
        && servers is Some && index is Some {
        Some(
            RaftConfigurationView {
                request_id: request_id->0,
                lease_id: lease_id->0,
                renewable: renewable->0,
                lease_duration: lease_duration->0,
                data: RaftConfigurationDataView {
                    config: RaftConfigurationDataConfigView {
                        servers: servers->0,
                        index: index->0,
                    },
                },
                wrap_info: any_of(json_get(value, "wrap_info"@)),
                warnings: any_of(json_get(value, "warnings"@)),
                auth: any_of(json_get(value, "auth"@)),
            },
        )
    } else {
        None
    }
}

/// A copy of the optional member `name`, of whatever kind it is.
pub fn any_member(value: &Json, name: &str) -> (member: Option<Json>)
    ensures
        member.deep_view() == any_of(json_get(value@, name@)),
{
    match value.get(name) {
        Some(member) => if member.is_null() {
            None
        } else {
            Some(member.duplicate())
        },
        None => None,
    }
}

impl RaftConfigurationServer {
    /// Reads a server from a JSON value.
    pub fn from_json(value: &Json) -> (server: Option<RaftConfigurationServer>)
        ensures
            server.deep_view() == server_of(value@),
    {
        let node_id = text_member(value, "node_id")?;
        let address = text_member(value, "address")?;
        let leader = bool_member(value, "leader")?;
        let protocol_version = text_member(value, "protocol_version")?;
        let voter = bool_member(value, "voter")?;
        Some(RaftConfigurationServer { node_id, address, leader, protocol_version, voter })
    }
}

/// Reads the servers of a Raft configuration from JSON values.
pub fn servers_from_json(items: &Vec<Json>) -> (servers: Option<Vec<RaftConfigurationServer>>)
    ensures
        servers.deep_view() == servers_of(items.deep_view()),
{
    let mut servers: Vec<RaftConfigurationServer> = Vec::new();
    let mut i: usize = 0;
    while i < items.len()
        invariant
            i <= items.len(),
            servers.len() == i,
            forall|j: int|
                0 <= j < i ==> server_of(#[trigger] items.deep_view()[j]) == Some(servers[j]@),
        decreases items.len() - i,
    {
        match RaftConfigurationServer::from_json(&items[i]) {
            Some(server) => {
                servers.push(server);
            },
            None => {
                assert(server_of(items.deep_view()[i as int]) is None);
                return None;
            },
        }
        i = i + 1;
    }
    assert(servers.deep_view() =~= servers_of(items.deep_view())->0);
    Some(servers)
}

impl RaftConfiguration {
    /// Reads a Raft configuration from a JSON value.
    pub fn from_json(value: &Json) -> (configuration: Option<RaftConfiguration>)
        ensures
            configuration.deep_view() == raft_configuration_of(value@),
    {
        let request_id = text_member(value, "request_id")?;
        let lease_id = text_member(value, "lease_id")?;
        let renewable = bool_member(value, "renewable")?;
        let lease_duration = u64_member(value, "lease_duration")?;
        let data = value.get("data")?;
        let config = data.get("config")?;
        let items = config.get("servers")?.as_array()?;
        let servers = servers_from_json(items)?;
        let index = u64_member(config, "index")?;
        Some(
            RaftConfiguration {
                request_id,
                lease_id,
                renewable,
                lease_duration,
                data: RaftConfigurationData {
                    config: RaftConfigurationDataConfig { servers, index },
                },
                wrap_info: any_member(value, "wrap_info"),
                warnings: any_member(value, "warnings"),
                auth: any_member(value, "auth"),
            },
        )
    }
}

/// Whether some server of the configuration is the leader.
pub open spec fn any_leader(configuration: RaftConfigurationView) -> bool {
    exists|i: int|
        0 <= i < configuration.data.config.servers.len()
            && #[trigger] configuration.data.config.servers[i].leader
}

/// Whether every server of the configuration is a voter.
pub open spec fn all_voters(configuration: RaftConfigurationView) -> bool {
    forall|i: int|
        0 <= i < configuration.data.config.servers.len()
            ==> #[trigger] configuration.data.config.servers[i].voter
}

/// A configuration with a server that is the leader has a leader.
pub proof fn leader_is_found(configuration: RaftConfigurationView, at: int)
    requires
        0 <= at < configuration.data.config.servers.len(),
        configuration.data.config.servers[at].leader,
    ensures
        any_leader(configuration),
        RaftCondition::AnyLeader.holds(Some(configuration)),
{
}

/// A configuration with a server that is no voter does not have voters only.
pub proof fn non_voter_is_found(configuration: RaftConfigurationView, at: int)
    requires
        0 <= at < configuration.data.config.servers.len(),
        !configuration.data.config.servers[at].voter,
    ensures
        !all_voters(configuration),
        !RaftCondition::AllVoters.holds(Some(configuration)),
{
}

/// A configuration has voters only exactly when each of its servers is a voter, and has a
/// leader exactly when one of its servers is the leader. So a configuration without
/// servers has voters only and no leader.
pub proof fn flags_decide(configuration: RaftConfigurationView)
    ensures
        all_voters(configuration) <==> (forall|i: int|
            0 <= i < configuration.data.config.servers.len()
                ==> #[trigger] configuration.data.config.servers[i].voter),
        any_leader(configuration) <==> (exists|i: int|
            0 <= i < configuration.data.config.servers.len()
                && #[trigger] configuration.data.config.servers[i].leader),
        configuration.data.config.servers.len() == 0 ==> all_voters(configuration) && !any_leader(
            configuration,
        ),
{
}

/// A condition on the Raft configuration, for polling.
#[derive(Debug, PartialEq, Eq)]
pub enum RaftCondition {
    /// Some server is the leader.
    AnyLeader,
    /// Every server is a voter.
    AllVoters,
    /// The given condition does not hold.
    Not(Box<RaftCondition>),
}

impl RaftCondition {
    /// Whether the condition holds of a Raft configuration. Of no configuration at all,
    /// the two plain conditions do not hold.
    pub open spec fn holds(self, configuration: Option<RaftConfigurationView>) -> bool
        decreases self,
    {
        match self {
            RaftCondition::AnyLeader => configuration matches Some(c) && any_leader(c),
            RaftCondition::AllVoters => configuration matches Some(c) && all_voters(c),
            RaftCondition::Not(inner) => !inner.holds(configuration),
        }
    }

    /// Whether the condition holds of a Raft configuration.
    pub fn matches_object(&self, configuration: Option<&RaftConfiguration>) -> (holds: bool)
        ensures
            holds == self.holds(
                match configuration {
                    Some(c) => Some(c@),
                    None => None,
                },
            ),
        decreases self,
    {
        match self {
            RaftCondition::AnyLeader => match configuration {
                Some(c) => has_leader(c),
                None => false,
            },
            RaftCondition::AllVoters => match configuration {
                Some(c) => only_voters(c),
                None => false,
            },
            RaftCondition::Not(inner) => !inner.matches_object(configuration),
        }
    }

    /// The condition that holds exactly where this one does not.
    pub fn not(self) -> (negated: RaftCondition)
        ensures
            negated == RaftCondition::Not(Box::new(self)),
            forall|configuration: Option<RaftConfigurationView>|
                negated.holds(configuration) == !self.holds(configuration),
    {
        RaftCondition::Not(Box::new(self))
    }
}

/// Whether some server of the configuration is the leader.
pub fn has_leader(configuration: &RaftConfiguration) -> (found: bool)
    ensures
        found == any_leader(configuration@),
{
    let servers = &configuration.data.config.servers;
    let mut i: usize = 0;
    while i < servers.len()
        invariant
            i <= servers.len(),
            servers.deep_view() == configuration@.data.config.servers,
            forall|j: int| 0 <= j < i ==> !(#[trigger] servers.deep_view()[j].leader),
        decreases servers.len() - i,
    {
        if servers[i].leader {
            assert(servers.deep_view()[i as int].leader);
            return true;
        }
        i = i + 1;
    }
    false
}

/// Whether every server of the configuration is a voter.
pub fn only_voters(configuration: &RaftConfiguration) -> (all: bool)
    ensures
        all == all_voters(configuration@),
{
    let servers = &configuration.data.config.servers;
    let mut i: usize = 0;
    while i < servers.len()
        invariant
            i <= servers.len(),
            servers.deep_view() == configuration@.data.config.servers,
            forall|j: int| 0 <= j < i ==> #[trigger] servers.deep_view()[j].voter,
        decreases servers.len() - i,
    {
        if !servers[i].voter {
            assert(!servers.deep_view()[i as int].voter);
            return false;
        }
        i = i + 1;
    }
    true
}

/// The condition that some server of the Raft configuration is the leader.
pub fn raft_configuration_any_leader() -> (condition: RaftCondition)
    ensures
        condition == RaftCondition::AnyLeader,
{
    RaftCondition::AnyLeader
}

/// The condition that every server of the Raft configuration is a voter.
pub fn raft_configuration_all_voters() -> (condition: RaftCondition)
    ensures
        condition == RaftCondition::AllVoters,
{
    RaftCondition::AllVoters
}

/// The model of the result of reading a Raft configuration.
pub open spec fn raft_configuration_view(result: Result<RaftConfiguration, Error>) -> Result<
    RaftConfigurationView,
    ErrorView,
> {
    match result {
        Ok(configuration) => Ok(configuration@),
        Err(error) => Err(error@),
    }
}

/// What a response to a Raft-configuration request with the given status and body says,
/// where `document` is what the body denotes as JSON: the configuration where the status is
/// 200 and the document denotes one, and a protocol error with the body otherwise.
pub open spec fn raft_configuration_answer(
    status: u16,
    body: Seq<char>,
    document: Option<JsonView>,
) -> Result<RaftConfigurationView, ErrorView> {
    if status != 200 {
        Err(protocol_error("getting raft configuration"@, body))
    } else {
        match document {
            Some(value) => match raft_configuration_of(value) {
                Some(configuration) => Ok(configuration),
                None => Err(protocol_error("decoding raft configuration"@, body)),
            },
            None => Err(protocol_error("decoding raft configuration"@, body)),
        }
    }
}

/// What a response to a Raft-configuration request says.
pub open spec fn raft_configuration_result(response: VaultResponseView) -> Result<
    RaftConfigurationView,
    ErrorView,
> {
    raft_configuration_answer(response.status, response.body, json_document(response.body))
}

/// Reads the answer to a Raft-configuration request, given its status, its body and the
/// JSON document that the body denotes.
pub fn read_raft_configuration(status: u16, body: &str, document: Option<&Json>) -> (result:
    Result<RaftConfiguration, Error>)
    ensures
        raft_configuration_view(result) == raft_configuration_answer(
            status,
            body@,
            crate::json::found_view(document),
        ),
{
    if status != 200 {
        return Err(protocol_failure("getting raft configuration", body));
    }
    match document {
        Some(value) => match RaftConfiguration::from_json(value) {
            Some(configuration) => Ok(configuration),
            None => Err(protocol_failure("decoding raft configuration", body)),
        },
        None => Err(protocol_failure("decoding raft configuration", body)),
    }
}

/// Reads the Raft configuration out of the response to a Raft-configuration request. Any
/// status but 200 fails with a protocol error that holds the body, and so does a body that
/// is no Raft configuration.
pub fn raft_configuration(response: &VaultResponse) -> (result: Result<RaftConfiguration, Error>)
    ensures
        raft_configuration_view(result) == raft_configuration_result(response@),
{
    let document = json_parse(response.body.as_str());
    read_raft_configuration(response.status, response.body.as_str(), document.as_ref())
}

/// What follows from the answer to one Raft-configuration request while waiting for
/// `condition`: a failure ends the wait, a configuration of which the condition holds ends
/// it with that configuration, and any other configuration has the request sent again.
pub open spec fn raft_configuration_poll(
    flavor: Flavor,
    token: Seq<char>,
    condition: RaftCondition,
    answer: Result<RaftConfigurationView, ErrorView>,
    poll: Poll<RaftConfiguration>,
) -> bool {
    match answer {
        Err(error) => poll matches Poll::Failed(failure) && failure@ == error,
        Ok(configuration) => if condition.holds(Some(configuration)) {
            poll matches Poll::Ready(ready) && ready@ == configuration
        } else {
            poll matches Poll::Again(request) && request@ == raft_configuration_request_view(
                flavor,
                token,
            )
        },
    }
}

/// Decides what follows from one answer to a Raft-configuration request while waiting for
/// `condition`.
pub fn poll_raft_configuration(
    flavor: Flavor,
    token: &Secret,
    condition: &RaftCondition,
    answer: Result<RaftConfiguration, Error>,
) -> (poll: Poll<RaftConfiguration>)
    ensures
        raft_configuration_poll(flavor, token@, *condition, raft_configuration_view(answer), poll),
{
    match answer {
        Err(error) => Poll::Failed(error),
        Ok(configuration) => if condition.matches_object(Some(&configuration)) {
            Poll::Ready(configuration)
        } else {
            Poll::Again(raft_configuration_request(flavor, token))
        },
    }
}

/// One step of waiting until the Raft configuration meets `condition`: reads the response
/// to the last Raft-configuration request and decides what follows.
pub fn await_raft_configuration(
    flavor: Flavor,
    token: &Secret,
    condition: &RaftCondition,
    response: &VaultResponse,
) -> (poll: Poll<RaftConfiguration>)
    ensures
        raft_configuration_poll(
            flavor,
            token@,
            *condition,
            raft_configuration_result(response@),
            poll,
        ),
{
    poll_raft_configuration(flavor, token, condition, raft_configuration(response))
}

} // verus!
