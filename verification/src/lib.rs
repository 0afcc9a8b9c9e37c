//! Rolling upgrades of a clustered secrets engine without downtime.
//!
//! The library decides; its surroundings act. A procedure such as the upgrade of a cluster
//! is a function from a state and an [`Event`] to the next state and an [`Action`]: the
//! caller carries the action out on the platform or on a member, and hands back the event
//! that tells how it went.

pub mod action;
pub mod error;
pub mod exec;
pub mod helpers;
pub mod http;
pub mod init;
pub mod json;
pub mod member;
pub mod secret;
pub mod show;
pub mod status;
pub mod step_down;
pub mod text;
pub mod trace;
pub mod unseal;
pub mod upgrade;
pub mod version;
pub mod wait;

pub use crate::action::{Action, Event};
pub use crate::error::{Error, ErrorKind};
pub use crate::exec::{command_line, env_pair, EnvVar, ExecIn};
pub use crate::helpers::{is_active, is_sealed, list_vault_pods, Flavor, ListParams};
pub use crate::http::{
    get_unseal_keys_request, init_request, raft_configuration_request, raft_join_request,
    seal_status_request, step_down_request, unseal_request, Header, Method, VaultRequest,
    VaultResponse, VAULT_PORT,
};
pub use crate::init::{
    init, init_next, init_response, raft_join, raft_join_response, raft_join_to, InitRequest,
    InitResult, InitRun, PodCall,
};
pub use crate::json::{Json, JsonMember};
pub use crate::member::{
    Container, Label, Member, MemberSpec, MemberStatus, StatusCondition, Workload, WorkloadSpec,
    WorkloadStatus,
};
pub use crate::secret::Secret;
pub use crate::show::{construct_table, table_row, titles, Cell, Color, Row};
pub use crate::status::{
    await_raft_configuration, await_seal_status, is_seal_status_initialized,
    is_seal_status_sealed, raft_configuration, raft_configuration_all_voters,
    raft_configuration_any_leader, seal_status, PodSealStatus, Poll, RaftCondition,
    RaftConfiguration, RaftConfigurationData, RaftConfigurationDataConfig,
    RaftConfigurationServer, SealStatusCondition,
};
pub use crate::step_down::step_down;
pub use crate::unseal::{
    command_keys, get_unseal_keys, key_source, list_sealed_pods, unseal, unseal_keys, unseal_next,
    Authority, Data, DataMetadata, GetUnsealKeysFromVault, KeyFetch, KeySource, Response,
    UnsealProgress, Uri,
};
pub use crate::upgrade::{
    ClusterUpgrade, PodApi, PodUpgrade, StatefulSetApi, UpgradeOptions, UpgradePhase,
};
pub use crate::version::VaultVersion;
pub use crate::wait::{
    is_pod_active, is_pod_exporting_seal_status, is_pod_ready, is_pod_sealed, is_pod_standby,
    is_pod_unsealed, is_statefulset_ready, is_statefulset_updated, statefulset_has_version,
    PodCondition, WorkloadCondition,
};
