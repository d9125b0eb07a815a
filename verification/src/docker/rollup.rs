//! The registry of rollups and the lifecycle of each record.

use crate::address::address_text;
use crate::deployer::config::{ConfigGenerator, ConfigGeneratorView};
use crate::deployer::rollup::{
    address_texts, DeployError, DeployErrorView, DeploymentConfig, DeploymentConfigView,
    DeploymentResult, DeploymentResultView,
};
use crate::docker::container::same_text;
use crate::docker::espresso::{EspressoDockerManager, EspressoDockerManagerView};
use crate::error::{ErrorKind, RaasError, RaasErrorView};
use crate::{RollupConfig, RollupConfigView};
use vstd::prelude::*;
use vstd::string::*;

verus! {

/// Where a rollup stands in its life.
#[derive(Debug)]
pub enum RollupStatus {
    /// The contracts are being deployed and the configuration rendered.
    Creating,
    /// Everything is in place; the node is not running.
    Created,
    /// The node's containers are being brought up.
    Starting,
    /// The node is running.
    Running,
    /// The node's containers are being taken down.
    Stopping,
    /// The node was running and is stopped.
    Stopped,
    /// The rollup is to be deleted; its node is about to be stopped.
    Deleting,
    /// An operation failed: the reason.
    Failed(String),
}

/// The mathematical value of a `RollupStatus`.
pub enum RollupStatusView {
    Creating,
    Created,
    Starting,
    Running,
    Stopping,
    Stopped,
    Deleting,
    Failed(Seq<char>),
}

impl RollupStatusView {
    /// The status as text.
    pub open spec fn text(self) -> Seq<char> {
        match self {
            RollupStatusView::Creating => "Creating"@,
            RollupStatusView::Created => "Created"@,
            RollupStatusView::Starting => "Starting"@,
            RollupStatusView::Running => "Running"@,
            RollupStatusView::Stopping => "Stopping"@,
            RollupStatusView::Stopped => "Stopped"@,
            RollupStatusView::Deleting => "Deleting"@,
            RollupStatusView::Failed(reason) => "Failed: "@ + reason,
        }
    }
}

impl View for RollupStatus {
    type V = RollupStatusView;

    open spec fn view(&self) -> RollupStatusView {
        match self {
            RollupStatus::Creating => RollupStatusView::Creating,
            RollupStatus::Created => RollupStatusView::Created,
            RollupStatus::Starting => RollupStatusView::Starting,
            RollupStatus::Running => RollupStatusView::Running,
            RollupStatus::Stopping => RollupStatusView::Stopping,
            RollupStatus::Stopped => RollupStatusView::Stopped,
            RollupStatus::Deleting => RollupStatusView::Deleting,
            RollupStatus::Failed(reason) => RollupStatusView::Failed(reason@),
        }
    }
}

impl Clone for RollupStatus {
    fn clone(&self) -> (copy: Self)
        ensures
            copy@ == self@,
    {
        match self {
            RollupStatus::Creating => RollupStatus::Creating,
            RollupStatus::Created => RollupStatus::Created,
            RollupStatus::Starting => RollupStatus::Starting,
            RollupStatus::Running => RollupStatus::Running,
            RollupStatus::Stopping => RollupStatus::Stopping,
            RollupStatus::Stopped => RollupStatus::Stopped,
            RollupStatus::Deleting => RollupStatus::Deleting,
            RollupStatus::Failed(reason) => RollupStatus::Failed(reason.clone()),
        }
    }
}

impl PartialEq for RollupStatus {
    fn eq(&self, other: &Self) -> (same: bool) {
        match (self, other) {
            (RollupStatus::Creating, RollupStatus::Creating) => true,
            (RollupStatus::Created, RollupStatus::Created) => true,
            (RollupStatus::Starting, RollupStatus::Starting) => true,
            (RollupStatus::Running, RollupStatus::Running) => true,
            (RollupStatus::Stopping, RollupStatus::Stopping) => true,
            (RollupStatus::Stopped, RollupStatus::Stopped) => true,
            (RollupStatus::Deleting, RollupStatus::Deleting) => true,
            (RollupStatus::Failed(a), RollupStatus::Failed(b)) => *a == *b,
            _ => false,
        }
    }
}

impl vstd::std_specs::cmp::PartialEqSpecImpl for RollupStatus {
    open spec fn obeys_eq_spec() -> bool {
        true
    }

    open spec fn eq_spec(&self, other: &Self) -> bool {
        self@ == other@
    }
}

impl RollupStatus {
    pub fn to_string(&self) -> (text: String)
        ensures
            text@ == self@.text(),
    {
        match self {
            RollupStatus::Creating => String::from_str("Creating"),
            RollupStatus::Created => String::from_str("Created"),
            RollupStatus::Starting => String::from_str("Starting"),
            RollupStatus::Running => String::from_str("Running"),
            RollupStatus::Stopping => String::from_str("Stopping"),
            RollupStatus::Stopped => String::from_str("Stopped"),
            RollupStatus::Deleting => String::from_str("Deleting"),
            RollupStatus::Failed(reason) => String::from_str("Failed: ").concat(reason.as_str()),
        }
    }
}

/// The record of one rollup.
#[derive(Debug)]
pub struct RollupInfo {
    /// The service that asked for the rollup.
    pub service_id: u64,
    /// The identifier of the rollup, by which the registry knows it.
    pub rollup_id: String,
    /// The identifier of the instance that runs the rollup's node.
    pub vm_id: String,
    pub config: RollupConfig,
    pub status: RollupStatus,
    /// When the record was made.
    pub created_at: String,
    pub workspace_dir: String,
    pub config_dir: String,
}

/// The mathematical value of a `RollupInfo`.
pub struct RollupInfoView {
    pub service_id: u64,
    pub rollup_id: Seq<char>,
    pub vm_id: Seq<char>,
    pub config: RollupConfigView,
    pub status: RollupStatusView,
    pub created_at: Seq<char>,
    pub workspace_dir: Seq<char>,
    pub config_dir: Seq<char>,
}

impl View for RollupInfo {
    type V = RollupInfoView;

    open spec fn view(&self) -> RollupInfoView {
        RollupInfoView {
            service_id: self.service_id,
            rollup_id: self.rollup_id@,
            vm_id: self.vm_id@,
            config: self.config@,
            status: self.status@,
            created_at: self.created_at@,
            workspace_dir: self.workspace_dir@,
            config_dir: self.config_dir@,
        }
    }
}

impl Clone for RollupInfo {
    fn clone(&self) -> (copy: Self)
        ensures
            copy@ == self@,
    {
        RollupInfo {
            service_id: self.service_id,
            rollup_id: self.rollup_id.clone(),
            vm_id: self.vm_id.clone(),
            config: self.config.clone(),
            status: self.status.clone(),
            created_at: self.created_at.clone(),
            workspace_dir: self.workspace_dir.clone(),
            config_dir: self.config_dir.clone(),
        }
    }
}

impl RollupInfoView {
    /// The record with another status.
    pub open spec fn with_status(self, status: RollupStatusView) -> RollupInfoView {
        RollupInfoView { status, ..self }
    }

    /// The node of the rollup, before its containers are brought up.
    pub open spec fn node(self) -> EspressoDockerManagerView {
        EspressoDockerManagerView {
            compose_manager: None,
            workspace_dir: self.workspace_dir,
            config_dir: self.config_dir,
            vm_id: self.vm_id,
        }
    }
}

/// The values of `list`.
pub open spec fn records(list: Seq<RollupInfo>) -> Seq<RollupInfoView> {
    Seq::new(list.len(), |i: int| list[i]@)
}

/// The records with the rollup identifier `id`.
pub open spec fn has_id(id: Seq<char>) -> spec_fn(RollupInfoView) -> bool {
    |record: RollupInfoView| record.rollup_id == id
}

/// The records with the instance identifier `vm_id`.
pub open spec fn has_vm_id(vm_id: Seq<char>) -> spec_fn(RollupInfoView) -> bool {
    |record: RollupInfoView| record.vm_id == vm_id
}

/// The records with the service identifier `service_id`.
pub open spec fn has_service_id(service_id: u64) -> spec_fn(RollupInfoView) -> bool {
    |record: RollupInfoView| record.service_id == service_id
}

/// Position of the first record at or after `from` that is one of `wanted`.
pub open spec fn first_from(
    registry: Seq<RollupInfoView>,
    wanted: spec_fn(RollupInfoView) -> bool,
    from: int,
) -> Option<int>
    decreases registry.len() - from,
{
    if from < 0 || from >= registry.len() {
        None
    } else if wanted(registry[from]) {
        Some(from)
    } else {
        first_from(registry, wanted, from + 1)
    }
}

/// The first record of the registry that is one of `wanted`.
pub open spec fn first(registry: Seq<RollupInfoView>, wanted: spec_fn(RollupInfoView) -> bool)
    -> Option<RollupInfoView> {
    match first_from(registry, wanted, 0) {
        Some(i) => Some(registry[i]),
        None => None,
    }
}

/// The record of the rollup `id`.
pub open spec fn lookup(registry: Seq<RollupInfoView>, id: Seq<char>) -> Option<RollupInfoView> {
    first(registry, has_id(id))
}

/// No two records share a rollup identifier, and no two an instance
/// identifier.
pub open spec fn distinct(registry: Seq<RollupInfoView>) -> bool {
    forall|i: int, j: int|
        0 <= i < j < registry.len() ==> {
            &&& (#[trigger] registry[i]).rollup_id != (#[trigger] registry[j]).rollup_id
            &&& registry[i].vm_id != registry[j].vm_id
        }
}

/// The registry with `status` as the status of the rollup `id`.
pub open spec fn with_status(registry: Seq<RollupInfoView>, id: Seq<char>, status: RollupStatusView)
    -> Seq<RollupInfoView> {
    match first_from(registry, has_id(id), 0) {
        Some(i) => registry.update(i, registry[i].with_status(status)),
        None => registry,
    }
}

/// The registry without the record of the rollup `id`.
pub open spec fn without(registry: Seq<RollupInfoView>, id: Seq<char>) -> Seq<RollupInfoView> {
    match first_from(registry, has_id(id), 0) {
        Some(i) => registry.remove(i),
        None => registry,
    }
}

/// `first_from` finds the first record wanted, and `None` where there is
/// none.
pub proof fn lemma_first_from(
    registry: Seq<RollupInfoView>,
    wanted: spec_fn(RollupInfoView) -> bool,
    from: int,
)
    requires
        0 <= from,
    ensures
        match first_from(registry, wanted, from) {
            Some(i) => from <= i < registry.len() && wanted(registry[i]) && forall|j: int|
                from <= j < i ==> !wanted(registry[j]),
            None => forall|j: int| from <= j < registry.len() ==> !wanted(registry[j]),
        },
    decreases registry.len() - from,
{
    if from < registry.len() && !wanted(registry[from]) {
        lemma_first_from(registry, wanted, from + 1);
    }
}

/// What is reported to a lifecycle operation.
#[derive(Debug)]
pub enum LifecycleEvent {
    /// The operation is asked for.
    Requested,
    /// What the operation asked of the host ended well.
    Succeeded,
    /// What the operation asked of the host failed: the reason.
    Failed(String),
}

/// The mathematical value of a `LifecycleEvent`.
pub enum LifecycleEventView {
    Requested,
    Succeeded,
    Failed(Seq<char>),
}

impl View for LifecycleEvent {
    type V = LifecycleEventView;

    open spec fn view(&self) -> LifecycleEventView {
        match self {
            LifecycleEvent::Requested => LifecycleEventView::Requested,
            LifecycleEvent::Succeeded => LifecycleEventView::Succeeded,
            LifecycleEvent::Failed(reason) => LifecycleEventView::Failed(reason@),
        }
    }
}

/// What is to happen next in a lifecycle operation.
#[derive(Debug)]
pub enum LifecycleAction {
    /// The host brings up the containers of the node and reports how that
    /// ended.
    Start(EspressoDockerManager),
    /// The host takes down the containers of the node and reports how that
    /// ended.
    Stop(EspressoDockerManager),
    /// The host runs a stop of the rollup and reports how that ended.
    StopFirst,
    /// Nothing more: the operation ended well.
    Done,
    /// Nothing more: the operation failed.
    Fail(RaasError),
}

/// The mathematical value of a `LifecycleAction`.
pub enum LifecycleActionView {
    Start(EspressoDockerManagerView),
    Stop(EspressoDockerManagerView),
    StopFirst,
    Done,
    Fail(RaasErrorView),
}

impl View for LifecycleAction {
    type V = LifecycleActionView;

    open spec fn view(&self) -> LifecycleActionView {
        match self {
            LifecycleAction::Start(node) => LifecycleActionView::Start(node@),
            LifecycleAction::Stop(node) => LifecycleActionView::Stop(node@),
            LifecycleAction::StopFirst => LifecycleActionView::StopFirst,
            LifecycleAction::Done => LifecycleActionView::Done,
            LifecycleAction::Fail(error) => LifecycleActionView::Fail(error@),
        }
    }
}

/// The failure of an operation: an error of `kind` with the text `message`.
pub open spec fn fails(kind: ErrorKind, message: Seq<char>) -> LifecycleActionView {
    LifecycleActionView::Fail(RaasErrorView { kind, message })
}

/// The failure of an operation on a rollup that the registry does not know.
pub open spec fn not_found() -> RaasErrorView {
    RaasErrorView { kind: ErrorKind::NotFound, message: "Rollup not found"@ }
}

/// The registry with `status` as the status of the rollup `id`, if its
/// status is `expected`; else the registry as it is.
pub open spec fn advanced(
    registry: Seq<RollupInfoView>,
    id: Seq<char>,
    expected: RollupStatusView,
    status: RollupStatusView,
) -> Seq<RollupInfoView> {
    match lookup(registry, id) {
        Some(record) => if record.status == expected {
            with_status(registry, id, status)
        } else {
            registry
        },
        None => registry,
    }
}

/// One transition of the start of the rollup `id`.
///
/// A start is accepted for a rollup that is `Created` or `Stopped`, which
/// becomes `Starting` while the host brings up its node. It becomes
/// `Running` when that ended well, and `Failed` with the host's reason when
/// it did not. A start of a rollup in any other status is refused, and the
/// registry stays as it is.
pub open spec fn start_step(registry: Seq<RollupInfoView>, id: Seq<char>, event: LifecycleEventView)
    -> (Seq<RollupInfoView>, LifecycleActionView) {
    match event {
        LifecycleEventView::Requested => match lookup(registry, id) {
            None => (registry, LifecycleActionView::Fail(not_found())),
            Some(record) => if record.status is Created || record.status is Stopped {
                (
                    with_status(registry, id, RollupStatusView::Starting),
                    LifecycleActionView::Start(record.node()),
                )
            } else {
                (
                    registry,
                    fails(
                        ErrorKind::Precondition,
                        "Rollup cannot be started while it is "@ + record.status.text(),
                    ),
                )
            },
        },
        LifecycleEventView::Succeeded => (
            advanced(
                registry,
                id,
                RollupStatusView::Starting,
                RollupStatusView::Running,
            ),
            LifecycleActionView::Done,
        ),
        LifecycleEventView::Failed(reason) => (
            advanced(
                registry,
                id,
                RollupStatusView::Starting,
                RollupStatusView::Failed(reason),
            ),
            fails(ErrorKind::Infrastructure, reason),
        ),
    }
}

/// One transition of the stop of the rollup `id`.
///
/// A stop is accepted for a rollup that is `Running`, or `Deleting` because
/// its deletion has asked for the stop. The rollup becomes `Stopping` while
/// the host takes down its node, `Stopped` when that ended well, and
/// `Failed` with the host's reason when it did not. A stop of a rollup in
/// any other status is refused, and the registry stays as it is.
pub open spec fn stop_step(registry: Seq<RollupInfoView>, id: Seq<char>, event: LifecycleEventView)
    -> (Seq<RollupInfoView>, LifecycleActionView) {
    match event {
        LifecycleEventView::Requested => match lookup(registry, id) {
            None => (registry, LifecycleActionView::Fail(not_found())),
            Some(record) => if record.status is Running || record.status is Deleting {
                (
                    with_status(registry, id, RollupStatusView::Stopping),
                    LifecycleActionView::Stop(record.node()),
                )
            } else {
                (
                    registry,
                    fails(
                        ErrorKind::Precondition,
                        "Rollup cannot be stopped while it is "@ + record.status.text(),
                    ),
                )
            },
        },
        LifecycleEventView::Succeeded => (
            advanced(
                registry,
                id,
                RollupStatusView::Stopping,
                RollupStatusView::Stopped,
            ),
            LifecycleActionView::Done,
        ),
        LifecycleEventView::Failed(reason) => (
            advanced(
                registry,
                id,
                RollupStatusView::Stopping,
                RollupStatusView::Failed(reason),
            ),
            fails(ErrorKind::Infrastructure, reason),
        ),
    }
}

/// One transition of the deletion of the rollup `id`.
///
/// The record of a rollup that is not `Running` is removed at once. A
/// rollup that is `Running` becomes `Deleting`, and a stop of it is asked
/// for; its record is removed when the stop ended well, and stays when it
/// did not. No record is removed while it is `Running`.
pub open spec fn delete_step(
    registry: Seq<RollupInfoView>,
    id: Seq<char>,
    event: LifecycleEventView,
) -> (Seq<RollupInfoView>, LifecycleActionView) {
    match event {
        LifecycleEventView::Requested => match lookup(registry, id) {
            None => (registry, LifecycleActionView::Fail(not_found())),
            Some(record) => if record.status is Running {
                (
                    with_status(registry, id, RollupStatusView::Deleting),
                    LifecycleActionView::StopFirst,
                )
            } else {
                (without(registry, id), LifecycleActionView::Done)
            },
        },
        LifecycleEventView::Succeeded => match lookup(registry, id) {
            None => (registry, LifecycleActionView::Done),
            Some(record) => if record.status is Running {
                (
                    registry,
                    fails(ErrorKind::Precondition, "Rollup cannot be deleted while it is Running"@),
                )
            } else {
                (without(registry, id), LifecycleActionView::Done)
            },
        },
        LifecycleEventView::Failed(reason) => (registry, fails(ErrorKind::Infrastructure, reason)),
    }
}

/// What is known of a rollup that is to be created.
#[derive(Debug)]
pub struct CreateRequest {
    pub service_id: u64,
    pub rollup_id: String,
    pub vm_id: String,
    pub config: RollupConfig,
    pub workspace_dir: String,
    pub config_dir: String,
}

/// The mathematical value of a `CreateRequest`.
pub struct CreateRequestView {
    pub service_id: u64,
    pub rollup_id: Seq<char>,
    pub vm_id: Seq<char>,
    pub config: RollupConfigView,
    pub workspace_dir: Seq<char>,
    pub config_dir: Seq<char>,
}

impl View for CreateRequest {
    type V = CreateRequestView;

    open spec fn view(&self) -> CreateRequestView {
        CreateRequestView {
            service_id: self.service_id,
            rollup_id: self.rollup_id@,
            vm_id: self.vm_id@,
            config: self.config@,
            workspace_dir: self.workspace_dir@,
            config_dir: self.config_dir@,
        }
    }
}

impl CreateRequestView {
    /// The record that the registry keeps of the rollup at first.
    pub open spec fn record(self, created_at: Seq<char>) -> RollupInfoView {
        RollupInfoView {
            service_id: self.service_id,
            rollup_id: self.rollup_id,
            vm_id: self.vm_id,
            config: self.config,
            status: RollupStatusView::Creating,
            created_at,
            workspace_dir: self.workspace_dir,
            config_dir: self.config_dir,
        }
    }
}

/// The text of `value`, if there is one.
pub open spec fn text_of(value: Option<String>) -> Option<Seq<char>> {
    match value {
        Some(text) => Some(text@),
        None => None,
    }
}

/// What is reported to the creation of a rollup.
#[derive(Debug)]
pub enum CreateEvent {
    /// The creation is asked for.
    Request(CreateRequest),
    /// The keys of the deployment, as far as the environment holds them.
    DeployKeys {
        private_key: Option<String>,
        arbiscan_api_key: Option<String>,
        arbitrum_rpc_url: Option<String>,
    },
    /// The contracts are deployed.
    Deployed(DeploymentResult),
    /// The deployment failed.
    DeployFailed(DeployError),
    /// The keys of the node, as far as the environment holds them.
    NodeKeys { validator_key: Option<String>, batch_poster_key: Option<String> },
    /// The configuration files are written.
    Rendered,
    /// The configuration files could not be written: the reason.
    RenderFailed(String),
}

/// The mathematical value of a `CreateEvent`.
pub enum CreateEventView {
    Request(CreateRequestView),
    DeployKeys {
        private_key: Option<Seq<char>>,
        arbiscan_api_key: Option<Seq<char>>,
        arbitrum_rpc_url: Option<Seq<char>>,
    },
    Deployed(DeploymentResultView),
    DeployFailed(DeployErrorView),
    NodeKeys { validator_key: Option<Seq<char>>, batch_poster_key: Option<Seq<char>> },
    Rendered,
    RenderFailed(Seq<char>),
}

impl View for CreateEvent {
    type V = CreateEventView;

    open spec fn view(&self) -> CreateEventView {
        match self {
            CreateEvent::Request(request) => CreateEventView::Request(request@),
            CreateEvent::DeployKeys {
                private_key,
                arbiscan_api_key,
                arbitrum_rpc_url,
            } => CreateEventView::DeployKeys {
                private_key: text_of(*private_key),
                arbiscan_api_key: text_of(*arbiscan_api_key),
                arbitrum_rpc_url: text_of(*arbitrum_rpc_url),
            },
            CreateEvent::Deployed(result) => CreateEventView::Deployed(result@),
            CreateEvent::DeployFailed(error) => CreateEventView::DeployFailed(error@),
            CreateEvent::NodeKeys { validator_key, batch_poster_key } => CreateEventView::NodeKeys {
                validator_key: text_of(*validator_key),
                batch_poster_key: text_of(*batch_poster_key),
            },
            CreateEvent::Rendered => CreateEventView::Rendered,
            CreateEvent::RenderFailed(reason) => CreateEventView::RenderFailed(reason@),
        }
    }
}

/// Where the creation of a rollup stands.
#[derive(Clone, Copy, Debug, PartialEq, Eq, Structural)]
pub enum CreateStage {
    /// Nothing was asked for yet.
    Idle,
    AwaitingDeployKeys,
    Deploying,
    AwaitingNodeKeys,
    Rendering,
    Finished,
    Failed,
}

/// The state of a creation between two requests to the host.
#[derive(Debug)]
pub struct CreateState {
    pub stage: CreateStage,
    pub rollup_id: String,
    pub config: RollupConfig,
    pub workspace_dir: String,
    pub config_dir: String,
    /// The RPC endpoint of the parent chain, once it was read.
    pub rpc_url: String,
    /// What the deployment brought about, once it has ended.
    pub deployment: Option<DeploymentResult>,
}

/// The mathematical value of a `CreateState`.
pub struct CreateStateView {
    pub stage: CreateStage,
    pub rollup_id: Seq<char>,
    pub config: RollupConfigView,
    pub workspace_dir: Seq<char>,
    pub config_dir: Seq<char>,
    pub rpc_url: Seq<char>,
    pub deployment: Option<DeploymentResultView>,
}

impl View for CreateState {
    type V = CreateStateView;

    open spec fn view(&self) -> CreateStateView {
        CreateStateView {
            stage: self.stage,
            rollup_id: self.rollup_id@,
            config: self.config@,
            workspace_dir: self.workspace_dir@,
            config_dir: self.config_dir@,
            rpc_url: self.rpc_url@,
            deployment: match self.deployment {
                Some(result) => Some(result@),
                None => None,
            },
        }
    }
}

impl CreateState {
    /// The state of a creation of which nothing was asked for yet: at the
    /// stage `Idle`, with no rollup named, no directory, no endpoint and no
    /// deployment, and with the configuration `blank_config()`.
    pub fn new() -> (state: Self)
        ensures
            state@ == idle_creation(),
    {
        let state = CreateState {
            stage: CreateStage::Idle,
            rollup_id: String::new(),
            config: RollupConfig {
                chain_id: 0,
                initial_chain_owner: [0u8; 20],
                validators: Vec::new(),
                batch_poster_address: [0u8; 20],
                batch_poster_manager: [0u8; 20],
                network: crate::NetworkType::Geth,
            },
            workspace_dir: String::new(),
            config_dir: String::new(),
            rpc_url: String::new(),
            deployment: None,
        };
        proof {
            assert(state.config.initial_chain_owner@ =~= no_address());
            assert(state.config.batch_poster_address@ =~= no_address());
            assert(state.config.batch_poster_manager@ =~= no_address());
            assert(state.config@.validators =~= Seq::empty());
        }
        state
    }
}

/// The address of which every byte is zero.
pub open spec fn no_address() -> Seq<u8> {
    Seq::new(20, |i: int| 0u8)
}

/// The configuration that a state holds before a rollup is asked for: chain
/// zero on the local network, every address zero, and no validator.
pub open spec fn blank_config() -> RollupConfigView {
    RollupConfigView {
        chain_id: 0,
        initial_chain_owner: no_address(),
        validators: Seq::empty(),
        batch_poster_address: no_address(),
        batch_poster_manager: no_address(),
        network: crate::NetworkType::Geth,
    }
}

/// The state of a creation of which nothing was asked for yet.
pub open spec fn idle_creation() -> CreateStateView {
    CreateStateView {
        stage: CreateStage::Idle,
        rollup_id: Seq::empty(),
        config: blank_config(),
        workspace_dir: Seq::empty(),
        config_dir: Seq::empty(),
        rpc_url: Seq::empty(),
        deployment: None,
    }
}

/// What is to happen next in the creation of a rollup.
#[derive(Debug)]
pub enum CreateAction {
    /// The host reads the keys of the deployment from the environment.
    ReadDeployKeys,
    /// The host runs the deployment and reports how it ended.
    Deploy(DeploymentConfig),
    /// The host reads the keys of the node from the environment.
    ReadNodeKeys,
    /// The host writes what the generator renders and reports how that
    /// ended.
    GenerateConfigs(ConfigGenerator),
    /// Nothing more: the rollup is created, under this identifier.
    Done(String),
    /// Nothing more: the creation failed.
    Fail(RaasError),
    /// Nothing: the creation had ended before.
    Halt,
}

/// The mathematical value of a `CreateAction`.
pub enum CreateActionView {
    ReadDeployKeys,
    Deploy(DeploymentConfigView),
    ReadNodeKeys,
    GenerateConfigs(ConfigGeneratorView),
    Done(Seq<char>),
    Fail(RaasErrorView),
    Halt,
}

impl View for CreateAction {
    type V = CreateActionView;

    open spec fn view(&self) -> CreateActionView {
        match self {
            CreateAction::ReadDeployKeys => CreateActionView::ReadDeployKeys,
            CreateAction::Deploy(config) => CreateActionView::Deploy(config@),
            CreateAction::ReadNodeKeys => CreateActionView::ReadNodeKeys,
            CreateAction::GenerateConfigs(generator) => CreateActionView::GenerateConfigs(
                generator@,
            ),
            CreateAction::Done(id) => CreateActionView::Done(id@),
            CreateAction::Fail(error) => CreateActionView::Fail(error@),
            CreateAction::Halt => CreateActionView::Halt,
        }
    }
}

/// The name of the environment variable that holds the deployer's key.
pub const DEPLOYER_PRIVATE_KEY: &'static str = "DEPLOYER_PRIVATE_KEY";

/// The name of the environment variable that holds the explorer's API key.
pub const ARBISCAN_API_KEY: &'static str = "ARBISCAN_API_KEY";

/// The name of the environment variable that holds the parent chain's RPC
/// endpoint.
pub const ARBITRUM_RPC_URL: &'static str = "ARBITRUM_RPC_URL";

/// The name of the environment variable that holds the validator's key.
pub const VALIDATOR_PRIVATE_KEY: &'static str = "VALIDATOR_PRIVATE_KEY";

/// The name of the environment variable that holds the batch poster's key.
pub const BATCH_POSTER_PRIVATE_KEY: &'static str = "BATCH_POSTER_PRIVATE_KEY";

/// The failure of a creation: an error of `kind` with the text `message`.
pub open spec fn refused(kind: ErrorKind, message: Seq<char>) -> CreateActionView {
    CreateActionView::Fail(RaasErrorView { kind, message })
}

/// What is said of a creation that lacks the environment variable `name`.
pub open spec fn missing(name: Seq<char>) -> Seq<char> {
    name + " environment variable not set"@
}

/// What is said of a creation that was handed an event of the wrong form.
pub open spec fn out_of_turn() -> Seq<char> {
    "The event does not answer the request"@
}

/// The state `state` at the stage `stage`.
pub open spec fn at(state: CreateStateView, stage: CreateStage) -> CreateStateView {
    CreateStateView { stage, ..state }
}

/// The deployment that a creation asks for.
pub open spec fn deployment_of(state: CreateStateView, private_key: Seq<char>, api_key: Seq<char>)
    -> DeploymentConfigView {
    DeploymentConfigView {
        private_key,
        arbiscan_api_key: api_key,
        chain_id: state.config.chain_id,
        initial_chain_owner: address_text(state.config.initial_chain_owner),
        validators: address_texts(state.config.validators),
        batch_poster_address: address_text(state.config.batch_poster_address),
        batch_poster_manager: address_text(state.config.batch_poster_manager),
        workspace_dir: state.workspace_dir,
    }
}

/// The generator of the configuration that a creation asks for.
pub open spec fn generator_of(
    state: CreateStateView,
    deployment: DeploymentResultView,
    validator_key: Seq<char>,
    batch_poster_key: Seq<char>,
) -> ConfigGeneratorView {
    ConfigGeneratorView {
        config_dir: state.config_dir,
        workspace_dir: state.workspace_dir,
        chain_id: state.config.chain_id,
        rollup_address: deployment.rollup_proxy_address,
        upgrade_executor_address: deployment.upgrade_executor_address,
        deployment_block: deployment.deployment_block,
        validator_key,
        batch_poster_key,
        arbitrum_rpc_url: state.rpc_url,
    }
}

/// The end of a creation whose record is made: the record becomes `Failed`
/// with `message` as the reason, unless it is no longer `Creating`, and the
/// creation fails with an error of `kind` and the same text.
pub open spec fn abandoned(
    registry: Seq<RollupInfoView>,
    state: CreateStateView,
    kind: ErrorKind,
    message: Seq<char>,
) -> (Seq<RollupInfoView>, CreateStateView, CreateActionView) {
    (
        advanced(
            registry,
            state.rollup_id,
            RollupStatusView::Creating,
            RollupStatusView::Failed(message),
        ),
        at(state, CreateStage::Failed),
        refused(kind, message),
    )
}

/// One transition of the creation of a rollup: the registry, the state and
/// the action after `event`. `now` is the time at which a record is made.
///
/// The request makes the record, in status `Creating`, unless the registry
/// holds a record with the same rollup identifier or the same instance
/// identifier. Then the keys of the deployment are read, the contracts
/// deployed, the keys of the node read and the configuration rendered. The
/// record becomes `Created` when all of it ended well. It becomes `Failed`,
/// with the reason, when the deployment or the rendering failed, when the
/// environment lacks a key, or when an event does not answer what was asked
/// for: once the record is made, the creation leaves it `Created` or
/// `Failed`. None of this touches a record that is no longer `Creating`.
pub open spec fn create_step(
    registry: Seq<RollupInfoView>,
    state: CreateStateView,
    event: CreateEventView,
    now: Seq<char>,
) -> (Seq<RollupInfoView>, CreateStateView, CreateActionView) {
    let failed = at(state, CreateStage::Failed);
    let misused = abandoned(registry, state, ErrorKind::Precondition, out_of_turn());
    match state.stage {
        CreateStage::Finished => (registry, state, CreateActionView::Halt),
        CreateStage::Failed => (registry, state, CreateActionView::Halt),
        CreateStage::Idle => match event {
            CreateEventView::Request(request) => if first(registry, has_id(request.rollup_id))
                is Some {
                (registry, failed, refused(ErrorKind::Precondition, "Rollup already exists"@))
            } else if first(registry, has_vm_id(request.vm_id)) is Some {
                (
                    registry,
                    failed,
                    refused(ErrorKind::Precondition, "Instance already exists"@),
                )
            } else {
                (
                    registry.push(request.record(now)),
                    CreateStateView {
                        stage: CreateStage::AwaitingDeployKeys,
                        rollup_id: request.rollup_id,
                        config: request.config,
                        workspace_dir: request.workspace_dir,
                        config_dir: request.config_dir,
                        rpc_url: state.rpc_url,
                        deployment: None,
                    },
                    CreateActionView::ReadDeployKeys,
                )
            },
            _ => (registry, failed, refused(ErrorKind::Precondition, out_of_turn())),
        },
        CreateStage::AwaitingDeployKeys => match event {
            CreateEventView::DeployKeys { private_key, arbiscan_api_key, arbitrum_rpc_url } => {
                let kind = ErrorKind::Configuration;
                if private_key is None {
                    abandoned(registry, state, kind, missing(DEPLOYER_PRIVATE_KEY@))
                } else if arbiscan_api_key is None {
                    abandoned(registry, state, kind, missing(ARBISCAN_API_KEY@))
                } else if arbitrum_rpc_url is None {
                    abandoned(registry, state, kind, missing(ARBITRUM_RPC_URL@))
                } else {
                    (
                        registry,
                        CreateStateView {
                            stage: CreateStage::Deploying,
                            rpc_url: arbitrum_rpc_url.unwrap(),
                            ..state
                        },
                        CreateActionView::Deploy(
                            deployment_of(state, private_key.unwrap(), arbiscan_api_key.unwrap()),
                        ),
                    )
                }
            },
            _ => misused,
        },
        CreateStage::Deploying => match event {
            CreateEventView::Deployed(result) => (
                registry,
                CreateStateView {
                    stage: CreateStage::AwaitingNodeKeys,
                    deployment: Some(result),
                    ..state
                },
                CreateActionView::ReadNodeKeys,
            ),
            CreateEventView::DeployFailed(error) => (
                advanced(
                    registry,
                    state.rollup_id,
                    RollupStatusView::Creating,
                    RollupStatusView::Failed("Contract deployment failed: "@ + error.text()),
                ),
                failed,
                refused(error.error.kind, "Failed to deploy contracts: "@ + error.text()),
            ),
            _ => misused,
        },
        CreateStage::AwaitingNodeKeys => match event {
            CreateEventView::NodeKeys { validator_key, batch_poster_key } => {
                let kind = ErrorKind::Configuration;
                if validator_key is None {
                    abandoned(registry, state, kind, missing(VALIDATOR_PRIVATE_KEY@))
                } else if batch_poster_key is None {
                    abandoned(registry, state, kind, missing(BATCH_POSTER_PRIVATE_KEY@))
                } else if state.deployment is None {
                    misused
                } else {
                    (
                        registry,
                        at(state, CreateStage::Rendering),
                        CreateActionView::GenerateConfigs(
                            generator_of(
                                state,
                                state.deployment.unwrap(),
                                validator_key.unwrap(),
                                batch_poster_key.unwrap(),
                            ),
                        ),
                    )
                }
            },
            _ => misused,
        },
        CreateStage::Rendering => match event {
            CreateEventView::Rendered => (
                advanced(
                    registry,
                    state.rollup_id,
                    RollupStatusView::Creating,
                    RollupStatusView::Created,
                ),
                at(state, CreateStage::Finished),
                CreateActionView::Done(state.rollup_id),
            ),
            CreateEventView::RenderFailed(reason) => (
                advanced(
                    registry,
                    state.rollup_id,
                    RollupStatusView::Creating,
                    RollupStatusView::Failed("Config generation failed: "@ + reason),
                ),
                failed,
                refused(ErrorKind::Io, "Failed to generate config files: "@ + reason),
            ),
            _ => misused,
        },
    }
}

/// `chrono::Utc::now` and `DateTime::to_rfc3339`: the time of the call as
/// text. The call does not return where the machine's clock stands before
/// the year 1970.
#[verifier::external_body]
pub(crate) fn current_time() -> (now: String) {
    chrono::Utc::now().to_rfc3339()
}

/// A copy of `list`.
fn copy_records(list: &Vec<RollupInfo>) -> (copy: Vec<RollupInfo>)
    ensures
        records(copy@) == records(list@),
{
    let mut copy: Vec<RollupInfo> = Vec::new();
    let mut i: usize = 0;
    while i < list.len()
        invariant
            i <= list@.len(),
            copy@.len() == i,
            forall|j: int| 0 <= j < i ==> (#[trigger] copy@[j])@ == list@[j]@,
        decreases list@.len() - i,
    {
        copy.push(list[i].clone());
        i += 1;
    }
    copy
}

/// Where in `list` the record of the rollup `id` stands.
fn find_id(list: &Vec<RollupInfo>, id: &str) -> (r: Option<usize>)
    ensures
        match r {
            Some(i) => i < list@.len() && first_from(records(list@), has_id(id@), 0) == Some(
                i as int,
            ),
            None => first_from(records(list@), has_id(id@), 0) is None,
        },
{
    let mut i: usize = 0;
    while i < list.len()
        invariant
            i <= list@.len(),
            first_from(records(list@), has_id(id@), 0) == first_from(
                records(list@),
                has_id(id@),
                i as int,
            ),
        decreases list@.len() - i,
    {
        if same_text(list[i].rollup_id.as_str(), id) {
            return Some(i);
        }
        i += 1;
    }
    None
}

/// Where in `list` the first record of the instance `vm_id` stands.
fn find_vm_id(list: &Vec<RollupInfo>, vm_id: &str) -> (r: Option<usize>)
    ensures
        match r {
            Some(i) => i < list@.len() && first_from(records(list@), has_vm_id(vm_id@), 0)
                == Some(i as int),
            None => first_from(records(list@), has_vm_id(vm_id@), 0) is None,
        },
{
    let mut i: usize = 0;
    while i < list.len()
        invariant
            i <= list@.len(),
            first_from(records(list@), has_vm_id(vm_id@), 0) == first_from(
                records(list@),
                has_vm_id(vm_id@),
                i as int,
            ),
        decreases list@.len() - i,
    {
        if same_text(list[i].vm_id.as_str(), vm_id) {
            return Some(i);
        }
        i += 1;
    }
    None
}

/// Where in `list` the first record of the service `service_id` stands.
fn find_service_id(list: &Vec<RollupInfo>, service_id: u64) -> (r: Option<usize>)
    ensures
        match r {
            Some(i) => i < list@.len() && first_from(
                records(list@),
                has_service_id(service_id),
                0,
            ) == Some(i as int),
            None => first_from(records(list@), has_service_id(service_id), 0) is None,
        },
{
    let mut i: usize = 0;
    while i < list.len()
        invariant
            i <= list@.len(),
            first_from(records(list@), has_service_id(service_id), 0) == first_from(
                records(list@),
                has_service_id(service_id),
                i as int,
            ),
        decreases list@.len() - i,
    {
        if list[i].service_id == service_id {
            return Some(i);
        }
        i += 1;
    }
    None
}

/// The registry of rollups: one record for each, found by its rollup
/// identifier.
#[derive(Debug)]
pub struct RollupManager {
    rollups: Vec<RollupInfo>,
}

impl View for RollupManager {
    type V = Seq<RollupInfoView>;

    closed spec fn view(&self) -> Seq<RollupInfoView> {
        records(self.rollups@)
    }
}

impl Default for RollupManager {
    fn default() -> (manager: Self)
        ensures
            manager@ == Seq::<RollupInfoView>::empty(),
    {
        RollupManager::new()
    }
}

impl RollupManager {
    /// What holds of every registry: its records are distinct.
    #[verifier::type_invariant]
    spec fn distinct_records(&self) -> bool {
        distinct(records(self.rollups@))
    }

    /// The registry without a record.
    pub fn new() -> (manager: Self)
        ensures
            manager@ == Seq::<RollupInfoView>::empty(),
    {
        let manager = RollupManager { rollups: Vec::new() };
        manager
    }

    /// Gives the record at position `i` the status `status`.
    fn set_status(&mut self, i: usize, status: RollupStatus)
        requires
            i < old(self)@.len(),
        ensures
            final(self)@ == old(self)@.update(i as int, old(self)@[i as int].with_status(status@)),
    {
        proof {
            use_type_invariant(&*self);
        }
        let ghost before = self@;
        let mut list = copy_records(&self.rollups);
        let record = RollupInfo {
            service_id: list[i].service_id,
            rollup_id: list[i].rollup_id.clone(),
            vm_id: list[i].vm_id.clone(),
            config: list[i].config.clone(),
            status,
            created_at: list[i].created_at.clone(),
            workspace_dir: list[i].workspace_dir.clone(),
            config_dir: list[i].config_dir.clone(),
        };
        list.set(i, record);
        assert(records(list@) =~= before.update(i as int, before[i as int].with_status(status@)));
        self.rollups = list;
    }

    /// Removes the record at position `i`.
    fn remove_at(&mut self, i: usize)
        requires
            i < old(self)@.len(),
        ensures
            final(self)@ == old(self)@.remove(i as int),
    {
        proof {
            use_type_invariant(&*self);
        }
        let ghost before = self@;
        let mut list = copy_records(&self.rollups);
        let _ = list.remove(i);
        assert(records(list@) =~= before.remove(i as int));
        self.rollups = list;
    }

    /// Adds `record` behind the others.
    fn insert(&mut self, record: RollupInfo)
        requires
            first(old(self)@, has_id(record@.rollup_id)) is None,
            first(old(self)@, has_vm_id(record@.vm_id)) is None,
        ensures
            final(self)@ == old(self)@.push(record@),
    {
        proof {
            use_type_invariant(&*self);
            lemma_first_from(self@, has_id(record@.rollup_id), 0);
            lemma_first_from(self@, has_vm_id(record@.vm_id), 0);
        }
        let ghost before = self@;
        let mut list = copy_records(&self.rollups);
        list.push(record);
        assert(records(list@) =~= before.push(record@));
        self.rollups = list;
    }

    /// Gives the rollup `id` the status `status` if its status is
    /// `expected`.
    fn advance(&mut self, id: &str, expected: RollupStatus, status: RollupStatus)
        ensures
            final(self)@ == advanced(old(self)@, id@, expected@, status@),
    {
        match find_id(&self.rollups, id) {
            Some(i) => {
                if self.rollups[i].status == expected {
                    self.set_status(i, status);
                }
            },
            None => {},
        }
    }

    /// The record of the rollup `rollup_id`.
    pub fn get_rollup(&self, rollup_id: &str) -> (r: Option<RollupInfo>)
        ensures
            match r {
                Some(record) => lookup(self@, rollup_id@) == Some(record@),
                None => lookup(self@, rollup_id@) is None,
            },
    {
        match find_id(&self.rollups, rollup_id) {
            Some(i) => Some(self.rollups[i].clone()),
            None => None,
        }
    }

    /// The first record of the instance `vm_id`.
    pub fn get_rollup_by_vm_id(&self, vm_id: &str) -> (r: Option<RollupInfo>)
        ensures
            match r {
                Some(record) => first(self@, has_vm_id(vm_id@)) == Some(record@),
                None => first(self@, has_vm_id(vm_id@)) is None,
            },
    {
        match find_vm_id(&self.rollups, vm_id) {
            Some(i) => Some(self.rollups[i].clone()),
            None => None,
        }
    }

    /// The first record of the service `service_id`.
    pub fn get_rollup_by_service_id(&self, service_id: u64) -> (r: Option<RollupInfo>)
        ensures
            match r {
                Some(record) => first(self@, has_service_id(service_id)) == Some(record@),
                None => first(self@, has_service_id(service_id)) is None,
            },
    {
        match find_service_id(&self.rollups, service_id) {
            Some(i) => Some(self.rollups[i].clone()),
            None => None,
        }
    }

    /// All records, in the order in which they were made.
    pub fn list_rollups(&self) -> (list: Vec<RollupInfo>)
        ensures
            records(list@) == self@,
            distinct(self@),
    {
        proof {
            use_type_invariant(self);
        }
        copy_records(&self.rollups)
    }

    /// The status of the rollup `rollup_id`; an error of kind `NotFound`
    /// where the registry holds no such rollup.
    pub fn get_rollup_status(&self, rollup_id: &str) -> (r: Result<RollupStatus, RaasError>)
        ensures
            match r {
                Ok(status) => lookup(self@, rollup_id@) matches Some(record) && record.status
                    == status@,
                Err(error) => lookup(self@, rollup_id@) is None && error@ == not_found(),
            },
    {
        match find_id(&self.rollups, rollup_id) {
            Some(i) => Ok(self.rollups[i].status.clone()),
            None => Err(RaasError::new(ErrorKind::NotFound, "Rollup not found")),
        }
    }

    /// Gives the rollup `rollup_id` the status `status`; an error of kind
    /// `NotFound`, and no change, where the registry holds no such rollup.
    pub fn update_rollup_status(&mut self, rollup_id: &str, status: RollupStatus) -> (r: Result<
        (),
        RaasError,
    >)
        ensures
            final(self)@ == with_status(old(self)@, rollup_id@, status@),
            match r {
                Ok(_) => lookup(old(self)@, rollup_id@) is Some,
                Err(error) => lookup(old(self)@, rollup_id@) is None && error@ == not_found(),
            },
    {
        match find_id(&self.rollups, rollup_id) {
            Some(i) => {
                self.set_status(i, status);
                Ok(())
            },
            None => Err(RaasError::new(ErrorKind::NotFound, "Rollup not found")),
        }
    }

    /// The failure `refused(kind, message)`.
    fn refuse(kind: ErrorKind, message: &str) -> (action: CreateAction)
        ensures
            action@ == refused(kind, message@),
    {
        CreateAction::Fail(RaasError::new(kind, message))
    }

    /// Ends a creation whose record is made, with an error of `kind` and the
    /// text `message`.
    fn abandon(&mut self, state: CreateState, kind: ErrorKind, message: String) -> (next: (
        CreateState,
        CreateAction,
    ))
        requires
            state@.stage is Failed,
        ensures
            (final(self)@, next.0@, next.1@) == abandoned(old(self)@, state@, kind, message@),
    {
        self.advance(
            state.rollup_id.as_str(),
            RollupStatus::Creating,
            RollupStatus::Failed(message.clone()),
        );
        (state, CreateAction::Fail(RaasError { kind, message }))
    }

    /// Ends a creation that lacks the environment variable `name`.
    fn lacking(&mut self, state: CreateState, name: &str) -> (next: (CreateState, CreateAction))
        requires
            state@.stage is Failed,
        ensures
            (final(self)@, next.0@, next.1@) == abandoned(
                old(self)@,
                state@,
                ErrorKind::Configuration,
                missing(name@),
            ),
    {
        let message = String::from_str(name).concat(" environment variable not set");
        self.abandon(state, ErrorKind::Configuration, message)
    }

    /// Ends a creation that was handed an event of the wrong form.
    fn confused(&mut self, state: CreateState) -> (next: (CreateState, CreateAction))
        requires
            state@.stage is Failed,
        ensures
            (final(self)@, next.0@, next.1@) == abandoned(
                old(self)@,
                state@,
                ErrorKind::Precondition,
                out_of_turn(),
            ),
    {
        self.abandon(
            state,
            ErrorKind::Precondition,
            String::from_str("The event does not answer the request"),
        )
    }

    /// One transition of the creation of a rollup, at the time `now`.
    pub fn create_rollup_at(
        &mut self,
        state: CreateState,
        event: CreateEvent,
        now: String,
    ) -> (next: (CreateState, CreateAction))
        ensures
            (final(self)@, next.0@, next.1@) == create_step(old(self)@, state@, event@, now@),
    {
        let mut state = state;
        match state.stage {
            CreateStage::Finished | CreateStage::Failed => {
                return (state, CreateAction::Halt);
            },
            _ => {},
        }
        let stage = state.stage;
        state.stage = CreateStage::Failed;
        match (stage, event) {
            (CreateStage::Idle, CreateEvent::Request(request)) => {
                if find_id(&self.rollups, request.rollup_id.as_str()).is_some() {
                    (state, Self::refuse(ErrorKind::Precondition, "Rollup already exists"))
                } else if find_vm_id(&self.rollups, request.vm_id.as_str()).is_some() {
                    (state, Self::refuse(ErrorKind::Precondition, "Instance already exists"))
                } else {
                    let started = CreateState {
                        stage: CreateStage::AwaitingDeployKeys,
                        rollup_id: request.rollup_id.clone(),
                        config: request.config.clone(),
                        workspace_dir: request.workspace_dir.clone(),
                        config_dir: request.config_dir.clone(),
                        rpc_url: state.rpc_url,
                        deployment: None,
                    };
                    self.insert(
                        RollupInfo {
                            service_id: request.service_id,
                            rollup_id: request.rollup_id,
                            vm_id: request.vm_id,
                            config: request.config,
                            status: RollupStatus::Creating,
                            created_at: now,
                            workspace_dir: request.workspace_dir,
                            config_dir: request.config_dir,
                        },
                    );
                    (started, CreateAction::ReadDeployKeys)
                }
            },
            (
                CreateStage::AwaitingDeployKeys,
                CreateEvent::DeployKeys { private_key, arbiscan_api_key, arbitrum_rpc_url },
            ) => {
                match (private_key, arbiscan_api_key, arbitrum_rpc_url) {
                    (None, _, _) => self.lacking(state, DEPLOYER_PRIVATE_KEY),
                    (Some(_), None, _) => self.lacking(state, ARBISCAN_API_KEY),
                    (Some(_), Some(_), None) => self.lacking(state, ARBITRUM_RPC_URL),
                    (Some(private_key), Some(api_key), Some(rpc_url)) => {
                        let config = DeploymentConfig::new(
                            &state.config,
                            private_key.as_str(),
                            api_key.as_str(),
                            state.workspace_dir.clone(),
                        );
                        state.stage = CreateStage::Deploying;
                        state.rpc_url = rpc_url;
                        (state, CreateAction::Deploy(config))
                    },
                }
            },
            (CreateStage::Deploying, CreateEvent::Deployed(result)) => {
                state.stage = CreateStage::AwaitingNodeKeys;
                state.deployment = Some(result);
                (state, CreateAction::ReadNodeKeys)
            },
            (CreateStage::Deploying, CreateEvent::DeployFailed(error)) => {
                let text = error.to_string();
                self.advance(
                    state.rollup_id.as_str(),
                    RollupStatus::Creating,
                    RollupStatus::Failed(
                        String::from_str("Contract deployment failed: ").concat(text.as_str()),
                    ),
                );
                (
                    state,
                    CreateAction::Fail(
                        RaasError::with_detail(
                            error.error.kind,
                            "Failed to deploy contracts: ",
                            text.as_str(),
                        ),
                    ),
                )
            },
            (
                CreateStage::AwaitingNodeKeys,
                CreateEvent::NodeKeys { validator_key, batch_poster_key },
            ) => {
                match (validator_key, batch_poster_key) {
                    (None, _) => self.lacking(state, VALIDATOR_PRIVATE_KEY),
                    (Some(_), None) => self.lacking(state, BATCH_POSTER_PRIVATE_KEY),
                    (Some(validator_key), Some(batch_poster_key)) => {
                        let generator = match &state.deployment {
                            None => None,
                            Some(deployment) => Some(
                                ConfigGenerator::new(
                                    state.config_dir.as_str(),
                                    state.workspace_dir.as_str(),
                                    state.config.chain_id,
                                    deployment.rollup_proxy_address.clone(),
                                    deployment.upgrade_executor_address.clone(),
                                    deployment.deployment_block,
                                    validator_key,
                                    batch_poster_key,
                                    state.rpc_url.clone(),
                                ),
                            ),
                        };
                        match generator {
                            None => self.confused(state),
                            Some(generator) => {
                                state.stage = CreateStage::Rendering;
                                (state, CreateAction::GenerateConfigs(generator))
                            },
                        }
                    },
                }
            },
            (CreateStage::Rendering, CreateEvent::Rendered) => {
                self.advance(
                    state.rollup_id.as_str(),
                    RollupStatus::Creating,
                    RollupStatus::Created,
                );
                state.stage = CreateStage::Finished;
                let id = state.rollup_id.clone();
                (state, CreateAction::Done(id))
            },
            (CreateStage::Rendering, CreateEvent::RenderFailed(reason)) => {
                self.advance(
                    state.rollup_id.as_str(),
                    RollupStatus::Creating,
                    RollupStatus::Failed(
                        String::from_str("Config generation failed: ").concat(reason.as_str()),
                    ),
                );
                (
                    state,
                    CreateAction::Fail(
                        RaasError::with_detail(
                            ErrorKind::Io,
                            "Failed to generate config files: ",
                            reason.as_str(),
                        ),
                    ),
                )
            },
            (CreateStage::Idle, _) => (
                state,
                Self::refuse(ErrorKind::Precondition, "The event does not answer the request"),
            ),
            _ => self.confused(state),
        }
    }

    /// One transition of the creation of a rollup: `create_step` at the time
    /// of the call, whatever that time is.
    pub fn create_rollup(&mut self, state: CreateState, event: CreateEvent) -> (next: (
        CreateState,
        CreateAction,
    ))
        ensures
            exists|now: Seq<char>|
                (final(self)@, next.0@, next.1@) == #[trigger] create_step(
                    old(self)@,
                    state@,
                    event@,
                    now,
                ),
    {
        let now = current_time();
        self.create_rollup_at(state, event, now)
    }

    /// One transition of the start of the rollup `rollup_id`.
    pub fn start_rollup(&mut self, rollup_id: &str, event: &LifecycleEvent) -> (action:
        LifecycleAction)
        ensures
            (final(self)@, action@) == start_step(old(self)@, rollup_id@, event@),
    {
        match event {
            LifecycleEvent::Requested => match find_id(&self.rollups, rollup_id) {
                None => LifecycleAction::Fail(
                    RaasError::new(ErrorKind::NotFound, "Rollup not found"),
                ),
                Some(i) => {
                    let startable = match &self.rollups[i].status {
                        RollupStatus::Created => true,
                        RollupStatus::Stopped => true,
                        _ => false,
                    };
                    if startable {
                        let node = EspressoDockerManager::new(
                            self.rollups[i].workspace_dir.as_str(),
                            self.rollups[i].config_dir.as_str(),
                            self.rollups[i].vm_id.as_str(),
                        );
                        self.set_status(i, RollupStatus::Starting);
                        LifecycleAction::Start(node)
                    } else {
                        let status = self.rollups[i].status.to_string();
                        LifecycleAction::Fail(
                            RaasError::with_detail(
                                ErrorKind::Precondition,
                                "Rollup cannot be started while it is ",
                                status.as_str(),
                            ),
                        )
                    }
                },
            },
            LifecycleEvent::Succeeded => {
                self.advance(rollup_id, RollupStatus::Starting, RollupStatus::Running);
                LifecycleAction::Done
            },
            LifecycleEvent::Failed(reason) => {
                self.advance(
                    rollup_id,
                    RollupStatus::Starting,
                    RollupStatus::Failed(reason.clone()),
                );
                LifecycleAction::Fail(RaasError::new(ErrorKind::Infrastructure, reason.as_str()))
            },
        }
    }

    /// One transition of the stop of the rollup `rollup_id`.
    pub fn stop_rollup(&mut self, rollup_id: &str, event: &LifecycleEvent) -> (action:
        LifecycleAction)
        ensures
            (final(self)@, action@) == stop_step(old(self)@, rollup_id@, event@),
    {
        match event {
            LifecycleEvent::Requested => match find_id(&self.rollups, rollup_id) {
                None => LifecycleAction::Fail(
                    RaasError::new(ErrorKind::NotFound, "Rollup not found"),
                ),
                Some(i) => {
                    let stoppable = match &self.rollups[i].status {
                        RollupStatus::Running => true,
                        RollupStatus::Deleting => true,
                        _ => false,
                    };
                    if stoppable {
                        let node = EspressoDockerManager::new(
                            self.rollups[i].workspace_dir.as_str(),
                            self.rollups[i].config_dir.as_str(),
                            self.rollups[i].vm_id.as_str(),
                        );
                        self.set_status(i, RollupStatus::Stopping);
                        LifecycleAction::Stop(node)
                    } else {
                        let status = self.rollups[i].status.to_string();
                        LifecycleAction::Fail(
                            RaasError::with_detail(
                                ErrorKind::Precondition,
                                "Rollup cannot be stopped while it is ",
                                status.as_str(),
                            ),
                        )
                    }
                },
            },
            LifecycleEvent::Succeeded => {
                self.advance(rollup_id, RollupStatus::Stopping, RollupStatus::Stopped);
                LifecycleAction::Done
            },
            LifecycleEvent::Failed(reason) => {
                self.advance(
                    rollup_id,
                    RollupStatus::Stopping,
                    RollupStatus::Failed(reason.clone()),
                );
                LifecycleAction::Fail(RaasError::new(ErrorKind::Infrastructure, reason.as_str()))
            },
        }
    }

    /// One transition of the deletion of the rollup `rollup_id`.
    pub fn delete_rollup(&mut self, rollup_id: &str, event: &LifecycleEvent) -> (action:
        LifecycleAction)
        ensures
            (final(self)@, action@) == delete_step(old(self)@, rollup_id@, event@),
    {
        let found = find_id(&self.rollups, rollup_id);
        let running = match found {
            Some(i) => match &self.rollups[i].status {
                RollupStatus::Running => true,
                _ => false,
            },
            None => false,
        };
        match event {
            LifecycleEvent::Requested => match found {
                None => LifecycleAction::Fail(
                    RaasError::new(ErrorKind::NotFound, "Rollup not found"),
                ),
                Some(i) => {
                    if running {
                        self.set_status(i, RollupStatus::Deleting);
                        LifecycleAction::StopFirst
                    } else {
                        self.remove_at(i);
                        LifecycleAction::Done
                    }
                },
            },
            LifecycleEvent::Succeeded => match found {
                None => LifecycleAction::Done,
                Some(i) => {
                    if running {
                        LifecycleAction::Fail(
                            RaasError::new(
                                ErrorKind::Precondition,
                                "Rollup cannot be deleted while it is Running",
                            ),
                        )
                    } else {
                        self.remove_at(i);
                        LifecycleAction::Done
                    }
                },
            },
            LifecycleEvent::Failed(reason) => LifecycleAction::Fail(
                RaasError::new(ErrorKind::Infrastructure, reason.as_str()),
            ),
        }
    }
}

} // verus!
