//! The containers of one rollup: brought up from its manifest on a network
//! of its own, and taken down through the container service, or through the
//! command line where the service fails.

use crate::docker::manifest::{
    attached, compose_environment, compose_labels, compose_networks, compose_settings, labelled,
    manifest_services, parse, scope,
};
use crate::error::{ErrorKind, RaasError, RaasErrorView};
use crate::host::{copy_strings, texts, Command, CommandView, FilePath, FilePathView};
use docktopus::ComposeConfig;
use vstd::prelude::*;
use vstd::string::*;

verus! {

/// How often the creation of the network is tried.
pub const NETWORK_ATTEMPTS: u32 = 3;

/// The seconds between two tries to create the network.
pub const NETWORK_BACKOFF_SECS: u64 = 2;

/// The label that marks what belongs to a project.
pub const PROJECT_LABEL: &'static str = "project";

/// The version that a manifest is deployed under.
pub const COMPOSE_VERSION: &'static str = "3";

/// The command-line tool that stands in for the container service.
pub const COMPOSE_TOOL: &'static str = "docker-compose";

/// Where the manifest of a project is, and what the project is called.
#[derive(Debug)]
pub struct DockerComposeOptions {
    pub compose_file_path: FilePath,
    pub config_dir: String,
    pub project_name: String,
}

/// The mathematical value of a `DockerComposeOptions`.
pub struct DockerComposeOptionsView {
    pub compose_file_path: FilePathView,
    pub config_dir: Seq<char>,
    pub project_name: Seq<char>,
}

impl View for DockerComposeOptions {
    type V = DockerComposeOptionsView;

    open spec fn view(&self) -> DockerComposeOptionsView {
        DockerComposeOptionsView {
            compose_file_path: self.compose_file_path@,
            config_dir: self.config_dir@,
            project_name: self.project_name@,
        }
    }
}

impl Clone for DockerComposeOptions {
    fn clone(&self) -> (copy: Self)
        ensures
            copy@ == self@,
    {
        DockerComposeOptions {
            compose_file_path: self.compose_file_path.clone(),
            config_dir: self.config_dir.clone(),
            project_name: self.project_name.clone(),
        }
    }
}

/// The container that runs a service.
#[derive(Debug)]
pub struct ServiceContainer {
    pub service: String,
    pub container_id: String,
}

/// The mathematical value of a `ServiceContainer`.
pub struct ServiceContainerView {
    pub service: Seq<char>,
    pub container_id: Seq<char>,
}

impl View for ServiceContainer {
    type V = ServiceContainerView;

    open spec fn view(&self) -> ServiceContainerView {
        ServiceContainerView { service: self.service@, container_id: self.container_id@ }
    }
}

impl Clone for ServiceContainer {
    fn clone(&self) -> (copy: Self)
        ensures
            copy@ == self@,
    {
        ServiceContainer {
            service: self.service.clone(),
            container_id: self.container_id.clone(),
        }
    }
}

/// The values of `list`.
pub open spec fn containers(list: Seq<ServiceContainer>) -> Seq<ServiceContainerView> {
    Seq::new(list.len(), |i: int| list[i]@)
}

/// What is asked of the container service, of the file system or of the
/// command line.
#[derive(Debug)]
pub enum DockerRequest {
    /// Connect to the container service.
    Connect,
    /// Read the manifest as text, or report that there is no such file.
    ReadManifest { path: FilePath },
    /// Create the network, trying `attempts` times with `backoff_secs`
    /// seconds in between, and give it the label.
    CreateNetwork { name: String, attempts: u32, backoff_secs: u64, label: String, value: String },
    /// Bring up the services of the manifest and report their containers.
    Deploy { config: ComposeConfig },
    StopContainer { container_id: String },
    RemoveContainer { container_id: String },
    RemoveNetwork { name: String },
    /// Report the status of the container.
    Inspect { container_id: String },
    /// Report what the container has logged.
    Logs { container_id: String },
    /// Run the command in the container and report what it printed.
    Exec { container_id: String, argv: Vec<String> },
    /// Run the command-line tool to its end.
    Run { command: Command },
}

/// The mathematical value of a `DockerRequest`. Of a manifest it holds, for
/// each service, what stands in its fields of plain text, its environment,
/// what it is attached to and what it is labelled with.
pub enum DockerRequestView {
    Connect,
    ReadManifest { path: FilePathView },
    CreateNetwork {
        name: Seq<char>,
        attempts: u32,
        backoff_secs: u64,
        label: Seq<char>,
        value: Seq<char>,
    },
    Deploy {
        settings: Map<Seq<char>, Map<Seq<char>, Seq<Seq<char>>>>,
        environment: Map<Seq<char>, Map<Seq<char>, Seq<char>>>,
        networks: Map<Seq<char>, Seq<Seq<char>>>,
        labels: Map<Seq<char>, Map<Seq<char>, Seq<char>>>,
    },
    StopContainer { container_id: Seq<char> },
    RemoveContainer { container_id: Seq<char> },
    RemoveNetwork { name: Seq<char> },
    Inspect { container_id: Seq<char> },
    Logs { container_id: Seq<char> },
    Exec { container_id: Seq<char>, argv: Seq<Seq<char>> },
    Run { command: CommandView },
}

impl View for DockerRequest {
    type V = DockerRequestView;

    open spec fn view(&self) -> DockerRequestView {
        match self {
            DockerRequest::Connect => DockerRequestView::Connect,
            DockerRequest::ReadManifest { path } => DockerRequestView::ReadManifest { path: path@ },
            DockerRequest::CreateNetwork {
                name,
                attempts,
                backoff_secs,
                label,
                value,
            } => DockerRequestView::CreateNetwork {
                name: name@,
                attempts: *attempts,
                backoff_secs: *backoff_secs,
                label: label@,
                value: value@,
            },
            DockerRequest::Deploy { config } => DockerRequestView::Deploy {
                settings: compose_settings(*config),
                environment: compose_environment(*config),
                networks: compose_networks(*config),
                labels: compose_labels(*config),
            },
            DockerRequest::StopContainer { container_id } => DockerRequestView::StopContainer {
                container_id: container_id@,
            },
            DockerRequest::RemoveContainer { container_id } => DockerRequestView::RemoveContainer {
                container_id: container_id@,
            },
            DockerRequest::RemoveNetwork { name } => DockerRequestView::RemoveNetwork {
                name: name@,
            },
            DockerRequest::Inspect { container_id } => DockerRequestView::Inspect {
                container_id: container_id@,
            },
            DockerRequest::Logs { container_id } => DockerRequestView::Logs {
                container_id: container_id@,
            },
            DockerRequest::Exec { container_id, argv } => DockerRequestView::Exec {
                container_id: container_id@,
                argv: texts(argv@),
            },
            DockerRequest::Run { command } => DockerRequestView::Run { command: command@ },
        }
    }
}

/// How a `DockerRequest` ended.
#[derive(Debug)]
pub enum DockerReply {
    /// There is no such file.
    Missing,
    /// The request was carried out and there is nothing to report.
    Done,
    /// The request was carried out: the text that was asked for.
    Text(String),
    /// The request could not be carried out: the reason.
    Failed(String),
    /// The services were brought up: their containers.
    Deployed(Vec<ServiceContainer>),
    /// The command-line tool ran to its end.
    Exited { success: bool, stdout: String, stderr: String },
}

/// The mathematical value of a `DockerReply`.
pub enum DockerReplyView {
    Missing,
    Done,
    Text(Seq<char>),
    Failed(Seq<char>),
    Deployed(Seq<ServiceContainerView>),
    Exited { success: bool, stdout: Seq<char>, stderr: Seq<char> },
}

impl View for DockerReply {
    type V = DockerReplyView;

    open spec fn view(&self) -> DockerReplyView {
        match self {
            DockerReply::Missing => DockerReplyView::Missing,
            DockerReply::Done => DockerReplyView::Done,
            DockerReply::Text(text) => DockerReplyView::Text(text@),
            DockerReply::Failed(reason) => DockerReplyView::Failed(reason@),
            DockerReply::Deployed(list) => DockerReplyView::Deployed(containers(list@)),
            DockerReply::Exited { success, stdout, stderr } => DockerReplyView::Exited {
                success: *success,
                stdout: stdout@,
                stderr: stderr@,
            },
        }
    }
}

/// What is to happen next in an operation on containers.
#[derive(Debug)]
pub enum DockerAction {
    /// The host carries out the request and hands back its reply.
    Ask(DockerRequest),
    /// Nothing more: the operation ended well, with this text as its result.
    Finish(String),
    /// Nothing more: the operation failed.
    Fail(RaasError),
    /// Nothing: the operation had ended before.
    Halt,
}

/// The mathematical value of a `DockerAction`.
pub enum DockerActionView {
    Ask(DockerRequestView),
    Finish(Seq<char>),
    Fail(RaasErrorView),
    Halt,
}

impl View for DockerAction {
    type V = DockerActionView;

    open spec fn view(&self) -> DockerActionView {
        match self {
            DockerAction::Ask(request) => DockerActionView::Ask(request@),
            DockerAction::Finish(text) => DockerActionView::Finish(text@),
            DockerAction::Fail(error) => DockerActionView::Fail(error@),
            DockerAction::Halt => DockerActionView::Halt,
        }
    }
}

/// The failure of an operation: an error of `kind` with the text `message`.
pub open spec fn fail(kind: ErrorKind, message: Seq<char>) -> DockerActionView {
    DockerActionView::Fail(RaasErrorView { kind, message })
}

/// The failure of an operation that was handed a reply of the wrong form.
pub open spec fn misused() -> DockerActionView {
    fail(ErrorKind::Precondition, "The reply does not answer the request"@)
}

/// The action `fail(kind, message)`.
fn failing(kind: ErrorKind, message: &str) -> (action: DockerAction)
    ensures
        action@ == fail(kind, message@),
{
    DockerAction::Fail(RaasError::new(kind, message))
}

/// The action `fail(kind, prefix + detail)`.
fn failing_with(kind: ErrorKind, prefix: &str, detail: &str) -> (action: DockerAction)
    ensures
        action@ == fail(kind, prefix@ + detail@),
{
    DockerAction::Fail(RaasError::with_detail(kind, prefix, detail))
}

/// The action `misused()`.
fn misusing() -> (action: DockerAction)
    ensures
        action@ == misused(),
{
    failing(ErrorKind::Precondition, "The reply does not answer the request")
}

/// The name of the network of the project `project`.
pub open spec fn network_name(project: Seq<char>) -> Seq<char> {
    "network-"@ + project
}

/// Position of the first container of `service` in `list` at or after
/// `from`.
pub open spec fn position_from(list: Seq<ServiceContainerView>, service: Seq<char>, from: int)
    -> Option<int>
    decreases list.len() - from,
{
    if from < 0 || from >= list.len() {
        None
    } else if list[from].service == service {
        Some(from)
    } else {
        position_from(list, service, from + 1)
    }
}

/// The container that runs `service`, if one is known.
pub open spec fn container_of(list: Seq<ServiceContainerView>, service: Seq<char>) -> Option<
    Seq<char>,
> {
    match position_from(list, service, 0) {
        Some(i) => Some(list[i].container_id),
        None => None,
    }
}

/// No service has two containers in `list`.
pub open spec fn one_container_each(list: Seq<ServiceContainerView>) -> bool {
    forall|i: int, j: int|
        0 <= i < j < list.len() ==> (#[trigger] list[i]).service != (#[trigger] list[j]).service
}

/// `list` with `container` as the container of its service: in the place of
/// the one known so far, or at the end.
pub open spec fn record(list: Seq<ServiceContainerView>, container: ServiceContainerView) -> Seq<
    ServiceContainerView,
> {
    match position_from(list, container.service, 0) {
        Some(i) => list.update(i, container),
        None => list.push(container),
    }
}

/// `list` with each of `new` recorded, in order.
pub open spec fn record_all(list: Seq<ServiceContainerView>, new: Seq<ServiceContainerView>)
    -> Seq<ServiceContainerView>
    decreases new.len(),
{
    if new.len() == 0 {
        list
    } else {
        record(record_all(list, new.drop_last()), new.last())
    }
}

/// `position_from` finds the first container of the service, and `None`
/// where there is none.
pub proof fn lemma_position_from(list: Seq<ServiceContainerView>, service: Seq<char>, from: int)
    requires
        0 <= from,
    ensures
        match position_from(list, service, from) {
            Some(i) => from <= i < list.len() && list[i].service == service && forall|j: int|
                from <= j < i ==> list[j].service != service,
            None => forall|j: int| from <= j < list.len() ==> list[j].service != service,
        },
    decreases list.len() - from,
{
    if from < list.len() && list[from].service != service {
        lemma_position_from(list, service, from + 1);
    }
}

/// Recording a container leaves each service with one container.
pub proof fn lemma_record_keeps_one_each(
    list: Seq<ServiceContainerView>,
    container: ServiceContainerView,
)
    requires
        one_container_each(list),
    ensures
        one_container_each(record(list, container)),
{
    lemma_position_from(list, container.service, 0);
}

/// The command line that takes the project down.
pub open spec fn down_command(options: DockerComposeOptionsView) -> CommandView {
    CommandView {
        program: COMPOSE_TOOL@,
        args: seq!["-f"@, options.compose_file_path.text(), "-p"@, options.project_name, "down"@],
        dir: None,
    }
}

/// The command line that prints what `service` has logged.
pub open spec fn logs_command(options: DockerComposeOptionsView, service: Seq<char>)
    -> CommandView {
    CommandView {
        program: COMPOSE_TOOL@,
        args: seq![
            "-f"@,
            options.compose_file_path.text(),
            "-p"@,
            options.project_name,
            "logs"@,
            service,
        ],
        dir: None,
    }
}

/// Where the bringing up of containers stands.
#[derive(Debug)]
pub enum StartStage {
    /// Nothing was asked for yet.
    Idle,
    ReadingManifest,
    /// The manifest is parsed and scoped; the network is being created.
    CreatingNetwork { config: ComposeConfig },
    Deploying,
    Finished,
    Failed,
}

/// The mathematical value of a `StartStage`.
pub enum StartStageView {
    Idle,
    ReadingManifest,
    CreatingNetwork {
        settings: Map<Seq<char>, Map<Seq<char>, Seq<Seq<char>>>>,
        environment: Map<Seq<char>, Map<Seq<char>, Seq<char>>>,
        networks: Map<Seq<char>, Seq<Seq<char>>>,
        labels: Map<Seq<char>, Map<Seq<char>, Seq<char>>>,
    },
    Deploying,
    Finished,
    Failed,
}

impl View for StartStage {
    type V = StartStageView;

    open spec fn view(&self) -> StartStageView {
        match self {
            StartStage::Idle => StartStageView::Idle,
            StartStage::ReadingManifest => StartStageView::ReadingManifest,
            StartStage::CreatingNetwork { config } => StartStageView::CreatingNetwork {
                settings: compose_settings(*config),
                environment: compose_environment(*config),
                networks: compose_networks(*config),
                labels: compose_labels(*config),
            },
            StartStage::Deploying => StartStageView::Deploying,
            StartStage::Finished => StartStageView::Finished,
            StartStage::Failed => StartStageView::Failed,
        }
    }
}

/// Where the taking down of containers stands.
#[derive(Clone, Copy, Debug, PartialEq, Eq, Structural)]
pub enum StopStage {
    /// Nothing was asked for yet.
    Idle,
    /// The container at this position is being stopped.
    Stopping(usize),
    /// The container at this position is being removed.
    Removing(usize),
    RemovingNetwork,
    /// The container service failed; the command line is taking the project
    /// down.
    FallingBack,
    Finished,
    Failed,
}

/// Where a question about one service stands.
#[derive(Clone, Copy, Debug, PartialEq, Eq, Structural)]
pub enum QueryStage {
    /// Nothing was asked for yet.
    Idle,
    Asked,
    Finished,
}

/// The containers of one project.
#[derive(Debug)]
pub struct DockerComposeManager {
    options: DockerComposeOptions,
    container_ids: Vec<ServiceContainer>,
}

/// The mathematical value of a `DockerComposeManager`.
pub struct DockerComposeManagerView {
    pub options: DockerComposeOptionsView,
    pub containers: Seq<ServiceContainerView>,
}

impl View for DockerComposeManager {
    type V = DockerComposeManagerView;

    closed spec fn view(&self) -> DockerComposeManagerView {
        DockerComposeManagerView {
            options: self.options@,
            containers: containers(self.container_ids@),
        }
    }
}

/// What the next stage and the action are when containers are brought up:
/// `stage` and `reply` come in, `next` and `action` go out, and the
/// manager's value goes from `before` to `after`.
///
/// The manifest is read, parsed and scoped to the project's network and
/// label: every service that the parser reads from it is attached to that
/// network alone and carries that label alone, and keeps its environment and
/// what the manifest gives it in its fields of plain text. Then the network is created;
/// then the services are deployed and their containers recorded. The first
/// failure ends the operation.
pub open spec fn start_follows(
    before: DockerComposeManagerView,
    stage: StartStageView,
    reply: DockerReplyView,
    after: DockerComposeManagerView,
    next: StartStageView,
    action: DockerActionView,
) -> bool {
    let project = before.options.project_name;
    match stage {
        StartStageView::Idle => {
            &&& after == before
            &&& next is ReadingManifest
            &&& action == DockerActionView::Ask(
                DockerRequestView::ReadManifest { path: before.options.compose_file_path },
            )
        },
        StartStageView::ReadingManifest => {
            &&& after == before
            &&& match reply {
                DockerReplyView::Missing => next is Failed && action == fail(
                    ErrorKind::NotFound,
                    "Docker compose file not found at "@ + before.options.compose_file_path.text(),
                ),
                DockerReplyView::Failed(reason) => next is Failed && action == fail(
                    ErrorKind::Io,
                    reason,
                ),
                DockerReplyView::Text(content) => match manifest_services(content) {
                    None => {
                        &&& next is Failed
                        &&& action matches DockerActionView::Fail(error)
                        &&& error.kind == ErrorKind::Parse
                        &&& exists|reason: Seq<char>|
                            error.message == "Failed to parse compose file: "@ + reason
                    },
                    Some(services) => {
                        &&& next == (StartStageView::CreatingNetwork {
                            settings: services.0,
                            environment: services.1,
                            networks: attached(services.0.dom(), network_name(project)),
                            labels: labelled(services.0.dom(), PROJECT_LABEL@, project),
                        })
                        &&& action == DockerActionView::Ask(
                            DockerRequestView::CreateNetwork {
                                name: network_name(project),
                                attempts: NETWORK_ATTEMPTS,
                                backoff_secs: NETWORK_BACKOFF_SECS,
                                label: PROJECT_LABEL@,
                                value: project,
                            },
                        )
                    },
                },
                _ => next is Failed && action == misused(),
            }
        },
        StartStageView::CreatingNetwork { settings, environment, networks, labels } => {
            &&& after == before
            &&& match reply {
                DockerReplyView::Done => next is Deploying && action == DockerActionView::Ask(
                    DockerRequestView::Deploy { settings, environment, networks, labels },
                ),
                DockerReplyView::Failed(reason) => next is Failed && action == fail(
                    ErrorKind::Infrastructure,
                    "Failed to create network: "@ + reason,
                ),
                _ => next is Failed && action == misused(),
            }
        },
        StartStageView::Deploying => match reply {
            DockerReplyView::Deployed(list) => {
                &&& after.options == before.options
                &&& after.containers == record_all(before.containers, list)
                &&& next is Finished
                &&& action == DockerActionView::Finish(Seq::empty())
            },
            DockerReplyView::Failed(reason) => {
                &&& after == before
                &&& next is Failed
                &&& action == fail(
                    ErrorKind::Infrastructure,
                    "Failed to deploy compose configuration: "@ + reason,
                )
            },
            _ => after == before && next is Failed && action == misused(),
        },
        _ => after == before && next == stage && action == DockerActionView::Halt,
    }
}

/// The request that opens the falling back to the command line.
pub open spec fn fall_back(manager: DockerComposeManagerView) -> (StopStage, DockerActionView) {
    (
        StopStage::FallingBack,
        DockerActionView::Ask(DockerRequestView::Run { command: down_command(manager.options) }),
    )
}

/// The request that removes the project's network.
pub open spec fn remove_network(manager: DockerComposeManagerView) -> (
    StopStage,
    DockerActionView,
) {
    (
        StopStage::RemovingNetwork,
        DockerActionView::Ask(
            DockerRequestView::RemoveNetwork { name: network_name(manager.options.project_name) },
        ),
    )
}

/// The request that stops the container at position `i`, or, where there is
/// none, the one that removes the network.
pub open spec fn stop_from(manager: DockerComposeManagerView, i: int) -> (
    StopStage,
    DockerActionView,
) {
    if 0 <= i < manager.containers.len() {
        (
            StopStage::Stopping(i as usize),
            DockerActionView::Ask(
                DockerRequestView::StopContainer {
                    container_id: manager.containers[i].container_id,
                },
            ),
        )
    } else {
        remove_network(manager)
    }
}

/// One transition of the taking down of containers.
///
/// Each container is stopped and then removed through the container
/// service, in the order in which the containers were recorded, and the
/// network is removed after the last. At the first request that the service
/// does not carry out, the rest is left to the command line, which takes
/// the whole project down; only its failure fails the operation.
pub open spec fn stop_step(
    manager: DockerComposeManagerView,
    stage: StopStage,
    reply: DockerReplyView,
) -> (StopStage, DockerActionView) {
    match stage {
        StopStage::Idle => stop_from(manager, 0),
        StopStage::Stopping(i) => if i >= manager.containers.len() {
            (StopStage::Failed, misused())
        } else if reply is Done {
            (
                StopStage::Removing(i),
                DockerActionView::Ask(
                    DockerRequestView::RemoveContainer {
                        container_id: manager.containers[i as int].container_id,
                    },
                ),
            )
        } else {
            fall_back(manager)
        },
        StopStage::Removing(i) => if i >= manager.containers.len() {
            (StopStage::Failed, misused())
        } else if reply is Done {
            stop_from(manager, i + 1)
        } else {
            fall_back(manager)
        },
        StopStage::RemovingNetwork => if reply is Done {
            (StopStage::Finished, DockerActionView::Finish(Seq::empty()))
        } else {
            fall_back(manager)
        },
        StopStage::FallingBack => match reply {
            DockerReplyView::Exited { success, stdout, stderr } => if success {
                (StopStage::Finished, DockerActionView::Finish(Seq::empty()))
            } else {
                (
                    StopStage::Failed,
                    fail(ErrorKind::Infrastructure, "Failed to stop containers: "@ + stderr),
                )
            },
            DockerReplyView::Failed(reason) => (StopStage::Failed, fail(ErrorKind::Io, reason)),
            _ => (StopStage::Failed, misused()),
        },
        StopStage::Finished => (StopStage::Finished, DockerActionView::Halt),
        StopStage::Failed => (StopStage::Failed, DockerActionView::Halt),
    }
}

/// One transition of the question for the status of `service`.
///
/// A service without a known container has no status to ask for. The
/// container service reports the status as text, or that it has none.
pub open spec fn status_step(
    manager: DockerComposeManagerView,
    service: Seq<char>,
    stage: QueryStage,
    reply: DockerReplyView,
) -> (QueryStage, DockerActionView) {
    match stage {
        QueryStage::Idle => match container_of(manager.containers, service) {
            Some(container_id) => (
                QueryStage::Asked,
                DockerActionView::Ask(DockerRequestView::Inspect { container_id }),
            ),
            None => (
                QueryStage::Finished,
                fail(ErrorKind::NotFound, "Container ID not found for service "@ + service),
            ),
        },
        QueryStage::Asked => (
            QueryStage::Finished,
            match reply {
                DockerReplyView::Text(status) => DockerActionView::Finish(status),
                DockerReplyView::Done => fail(
                    ErrorKind::Infrastructure,
                    "Could not determine container status"@,
                ),
                DockerReplyView::Failed(reason) => fail(
                    ErrorKind::Infrastructure,
                    "Failed to inspect container: "@ + reason,
                ),
                _ => misused(),
            },
        ),
        QueryStage::Finished => (QueryStage::Finished, DockerActionView::Halt),
    }
}

/// One transition of the question for the logs of `service`.
///
/// The logs of a service with a known container come from the container
/// service; those of any other service come from the command line.
pub open spec fn logs_step(
    manager: DockerComposeManagerView,
    service: Seq<char>,
    stage: QueryStage,
    reply: DockerReplyView,
) -> (QueryStage, DockerActionView) {
    match stage {
        QueryStage::Idle => (
            QueryStage::Asked,
            match container_of(manager.containers, service) {
                Some(container_id) => DockerActionView::Ask(
                    DockerRequestView::Logs { container_id },
                ),
                None => DockerActionView::Ask(
                    DockerRequestView::Run { command: logs_command(manager.options, service) },
                ),
            },
        ),
        QueryStage::Asked => (
            QueryStage::Finished,
            if container_of(manager.containers, service) is Some {
                match reply {
                    DockerReplyView::Text(logs) => DockerActionView::Finish(logs),
                    DockerReplyView::Failed(reason) => fail(
                        ErrorKind::Infrastructure,
                        "Failed to get container logs: "@ + reason,
                    ),
                    _ => misused(),
                }
            } else {
                match reply {
                    DockerReplyView::Exited { success, stdout, stderr } => if success {
                        DockerActionView::Finish(stdout)
                    } else {
                        fail(ErrorKind::Process, "Failed to get logs for service "@ + service)
                    },
                    DockerReplyView::Failed(reason) => fail(ErrorKind::Io, reason),
                    _ => misused(),
                }
            },
        ),
        QueryStage::Finished => (QueryStage::Finished, DockerActionView::Halt),
    }
}

/// One transition of the running of `command` in the container of `service`.
pub open spec fn exec_step(
    manager: DockerComposeManagerView,
    service: Seq<char>,
    command: Seq<Seq<char>>,
    stage: QueryStage,
    reply: DockerReplyView,
) -> (QueryStage, DockerActionView) {
    match stage {
        QueryStage::Idle => match container_of(manager.containers, service) {
            Some(container_id) => (
                QueryStage::Asked,
                DockerActionView::Ask(DockerRequestView::Exec { container_id, argv: command }),
            ),
            None => (
                QueryStage::Finished,
                fail(ErrorKind::NotFound, "Container ID not found for service "@ + service),
            ),
        },
        QueryStage::Asked => (
            QueryStage::Finished,
            match reply {
                DockerReplyView::Text(output) => DockerActionView::Finish(output),
                DockerReplyView::Failed(reason) => fail(
                    ErrorKind::Infrastructure,
                    "Failed to execute command: "@ + reason,
                ),
                _ => misused(),
            },
        ),
        QueryStage::Finished => (QueryStage::Finished, DockerActionView::Halt),
    }
}

/// Whether `a` and `b` are the same text.
pub fn same_text(a: &str, b: &str) -> (same: bool)
    ensures
        same == (a@ == b@),
{
    a.to_owned() == b.to_owned()
}

/// A copy of `list`.
pub fn copy_containers(list: &Vec<ServiceContainer>) -> (copy: Vec<ServiceContainer>)
    ensures
        containers(copy@) == containers(list@),
{
    let mut copy: Vec<ServiceContainer> = Vec::new();
    let mut i: usize = 0;
    while i < list.len()
        invariant
            i <= list@.len(),
            copy@.len() == i,
            forall|j: int| 0 <= j < i ==> (#[trigger] copy@[j])@ == list@[j]@,
        decreases list@.len() - i,
    {
        copy.push(list[i].clone());
        i += 1;
    }
    copy
}

/// Where in `list` the container of `service` stands.
fn position(list: &Vec<ServiceContainer>, service: &str) -> (r: Option<usize>)
    ensures
        match r {
            Some(i) => position_from(containers(list@), service@, 0) == Some(i as int) && i
                < list@.len(),
            None => position_from(containers(list@), service@, 0) is None,
        },
{
    let mut i: usize = 0;
    while i < list.len()
        invariant
            i <= list@.len(),
            position_from(containers(list@), service@, 0) == position_from(
                containers(list@),
                service@,
                i as int,
            ),
        decreases list@.len() - i,
    {
        if same_text(list[i].service.as_str(), service) {
            return Some(i);
        }
        i += 1;
    }
    None
}

/// Records each of `new` in `list`, in order.
fn record_each(list: &mut Vec<ServiceContainer>, new: &Vec<ServiceContainer>)
    requires
        one_container_each(containers(old(list)@)),
    ensures
        containers(final(list)@) == record_all(containers(old(list)@), containers(new@)),
        one_container_each(containers(final(list)@)),
{
    let ghost all = containers(new@);
    let ghost start = containers(list@);
    let mut i: usize = 0;
    while i < new.len()
        invariant
            i <= new@.len(),
            all == containers(new@),
            containers(list@) == record_all(start, all.take(i as int)),
            one_container_each(containers(list@)),
        decreases new@.len() - i,
    {
        let container = new[i].clone();
        let ghost before = containers(list@);
        proof {
            lemma_record_keeps_one_each(before, container@);
        }
        match position(list, container.service.as_str()) {
            Some(at) => {
                list.set(at, container);
                assert(containers(list@) =~= before.update(at as int, container@));
            },
            None => {
                list.push(container);
            },
        }
        proof {
            assert(all.take(i + 1).drop_last() =~= all.take(i as int));
        }
        i += 1;
    }
    proof {
        assert(all.take(i as int) =~= all);
    }
}

impl DockerComposeManager {
    /// What holds of every manager: no service has two containers.
    #[verifier::type_invariant]
    spec fn one_each(&self) -> bool {
        one_container_each(containers(self.container_ids@))
    }

    /// The manager of the project that `options` name, with no container
    /// known.
    pub fn new(options: DockerComposeOptions) -> (manager: Self)
        ensures
            manager@ == (DockerComposeManagerView {
                options: options@,
                containers: Seq::empty(),
            }),
    {
        let manager = DockerComposeManager { options, container_ids: Vec::new() };
        assert(containers(manager.container_ids@) =~= Seq::empty());
        manager
    }

    /// What the manager was made with.
    pub fn options(&self) -> (options: &DockerComposeOptions)
        ensures
            options@ == self@.options,
    {
        &self.options
    }

    /// The containers that are known, in the order in which their services
    /// were first recorded.
    pub fn containers(&self) -> (list: &Vec<ServiceContainer>)
        ensures
            containers(list@) == self@.containers,
            one_container_each(self@.containers),
    {
        proof {
            use_type_invariant(self);
        }
        &self.container_ids
    }

    /// The container that runs `service`, if one is known.
    pub fn container_id(&self, service: &str) -> (r: Option<String>)
        ensures
            match r {
                Some(id) => container_of(self@.containers, service@) == Some(id@),
                None => container_of(self@.containers, service@) is None,
            },
    {
        match position(&self.container_ids, service) {
            Some(i) => Some(self.container_ids[i].container_id.clone()),
            None => None,
        }
    }

    /// Records each of `new` as the container of its service, in order.
    fn record_each(&mut self, new: &Vec<ServiceContainer>)
        ensures
            final(self)@.options == old(self)@.options,
            final(self)@.containers == record_all(old(self)@.containers, containers(new@)),
    {
        proof {
            use_type_invariant(&*self);
        }
        let mut list = copy_containers(&self.container_ids);
        record_each(&mut list, new);
        self.container_ids = list;
    }

    /// The name of the project's network.
    fn network(&self) -> (name: String)
        ensures
            name@ == network_name(self@.options.project_name),
    {
        String::from_str("network-").concat(self.options.project_name.as_str())
    }

    /// One transition of the bringing up of the project's containers.
    pub fn start_containers(&mut self, stage: StartStage, reply: DockerReply) -> (next: (
        StartStage,
        DockerAction,
    ))
        ensures
            start_follows(old(self)@, stage@, reply@, final(self)@, next.0@, next.1@),
    {
        match stage {
            StartStage::Idle => (
                StartStage::ReadingManifest,
                DockerAction::Ask(
                    DockerRequest::ReadManifest { path: self.options.compose_file_path.clone() },
                ),
            ),
            StartStage::ReadingManifest => match reply {
                DockerReply::Missing => {
                    let path = self.options.compose_file_path.to_string();
                    (
                        StartStage::Failed,
                        failing_with(
                            ErrorKind::NotFound,
                            "Docker compose file not found at ",
                            path.as_str(),
                        ),
                    )
                },
                DockerReply::Failed(reason) => (
                    StartStage::Failed,
                    failing(ErrorKind::Io, reason.as_str()),
                ),
                DockerReply::Text(content) => match parse(content.as_str()) {
                    Err(error) => (StartStage::Failed, DockerAction::Fail(error)),
                    Ok(parsed) => {
                        let mut config = parsed;
                        let name = self.network();
                        scope(
                            &mut config,
                            name.as_str(),
                            PROJECT_LABEL,
                            self.options.project_name.as_str(),
                            COMPOSE_VERSION,
                        );
                        (
                            StartStage::CreatingNetwork { config },
                            DockerAction::Ask(
                                DockerRequest::CreateNetwork {
                                    name,
                                    attempts: NETWORK_ATTEMPTS,
                                    backoff_secs: NETWORK_BACKOFF_SECS,
                                    label: String::from_str(PROJECT_LABEL),
                                    value: self.options.project_name.clone(),
                                },
                            ),
                        )
                    },
                },
                _ => (StartStage::Failed, misusing()),
            },
            StartStage::CreatingNetwork { config } => match reply {
                DockerReply::Done => (
                    StartStage::Deploying,
                    DockerAction::Ask(DockerRequest::Deploy { config }),
                ),
                DockerReply::Failed(reason) => (
                    StartStage::Failed,
                    failing_with(
                        ErrorKind::Infrastructure,
                        "Failed to create network: ",
                        reason.as_str(),
                    ),
                ),
                _ => (StartStage::Failed, misusing()),
            },
            StartStage::Deploying => match reply {
                DockerReply::Deployed(list) => {
                    self.record_each(&list);
                    (StartStage::Finished, DockerAction::Finish(String::new()))
                },
                DockerReply::Failed(reason) => (
                    StartStage::Failed,
                    failing_with(
                        ErrorKind::Infrastructure,
                        "Failed to deploy compose configuration: ",
                        reason.as_str(),
                    ),
                ),
                _ => (StartStage::Failed, misusing()),
            },
            StartStage::Finished => (StartStage::Finished, DockerAction::Halt),
            StartStage::Failed => (StartStage::Failed, DockerAction::Halt),
        }
    }

    /// The command line of the tool for this project, up to its verb.
    fn compose_command(&self) -> (command: Command)
        ensures
            command@ == (CommandView {
                program: COMPOSE_TOOL@,
                args: seq![
                    "-f"@,
                    self@.options.compose_file_path.text(),
                    "-p"@,
                    self@.options.project_name,
                ],
                dir: None,
            }),
    {
        let path = self.options.compose_file_path.to_string();
        let command = Command::new(COMPOSE_TOOL, None).arg("-f").arg(path.as_str()).arg("-p").arg(
            self.options.project_name.as_str(),
        );
        assert(command@.args =~= seq![
            "-f"@,
            self@.options.compose_file_path.text(),
            "-p"@,
            self@.options.project_name,
        ]);
        command
    }

    /// The falling back to the command line.
    fn fall_back(&self) -> (next: (StopStage, DockerAction))
        ensures
            (next.0, next.1@) == fall_back(self@),
    {
        let command = self.compose_command().arg("down");
        assert(command@.args =~= down_command(self@.options).args);
        (StopStage::FallingBack, DockerAction::Ask(DockerRequest::Run { command }))
    }

    /// The stopping of the container at position `i`, or the removal of the
    /// network where there is none.
    fn stop_from(&self, i: usize) -> (next: (StopStage, DockerAction))
        ensures
            (next.0, next.1@) == stop_from(self@, i as int),
    {
        if i < self.container_ids.len() {
            (
                StopStage::Stopping(i),
                DockerAction::Ask(
                    DockerRequest::StopContainer {
                        container_id: self.container_ids[i].container_id.clone(),
                    },
                ),
            )
        } else {
            (
                StopStage::RemovingNetwork,
                DockerAction::Ask(DockerRequest::RemoveNetwork { name: self.network() }),
            )
        }
    }

    /// One transition of the taking down of the project's containers.
    pub fn stop_containers(&self, stage: StopStage, reply: &DockerReply) -> (next: (
        StopStage,
        DockerAction,
    ))
        ensures
            (next.0, next.1@) == stop_step(self@, stage, reply@),
    {
        let done = match reply {
            DockerReply::Done => true,
            _ => false,
        };
        match stage {
            StopStage::Idle => self.stop_from(0),
            StopStage::Stopping(i) => {
                if i >= self.container_ids.len() {
                    (StopStage::Failed, misusing())
                } else if done {
                    (
                        StopStage::Removing(i),
                        DockerAction::Ask(
                            DockerRequest::RemoveContainer {
                                container_id: self.container_ids[i].container_id.clone(),
                            },
                        ),
                    )
                } else {
                    self.fall_back()
                }
            },
            StopStage::Removing(i) => {
                if i >= self.container_ids.len() {
                    (StopStage::Failed, misusing())
                } else if done {
                    self.stop_from(i + 1)
                } else {
                    self.fall_back()
                }
            },
            StopStage::RemovingNetwork => {
                if done {
                    (StopStage::Finished, DockerAction::Finish(String::new()))
                } else {
                    self.fall_back()
                }
            },
            StopStage::FallingBack => match reply {
                DockerReply::Exited { success, stdout, stderr } => {
                    if *success {
                        (StopStage::Finished, DockerAction::Finish(String::new()))
                    } else {
                        (
                            StopStage::Failed,
                            failing_with(
                                ErrorKind::Infrastructure,
                                "Failed to stop containers: ",
                                stderr.as_str(),
                            ),
                        )
                    }
                },
                DockerReply::Failed(reason) => (
                    StopStage::Failed,
                    failing(ErrorKind::Io, reason.as_str()),
                ),
                _ => (StopStage::Failed, misusing()),
            },
            StopStage::Finished => (StopStage::Finished, DockerAction::Halt),
            StopStage::Failed => (StopStage::Failed, DockerAction::Halt),
        }
    }

    /// One transition of the question for the status of `service_name`.
    pub fn get_service_status(&self, service_name: &str, stage: QueryStage, reply: &DockerReply)
        -> (next: (QueryStage, DockerAction))
        ensures
            (next.0, next.1@) == status_step(self@, service_name@, stage, reply@),
    {
        match stage {
            QueryStage::Idle => match self.container_id(service_name) {
                Some(container_id) => (
                    QueryStage::Asked,
                    DockerAction::Ask(DockerRequest::Inspect { container_id }),
                ),
                None => (
                    QueryStage::Finished,
                    failing_with(
                        ErrorKind::NotFound,
                        "Container ID not found for service ",
                        service_name,
                    ),
                ),
            },
            QueryStage::Asked => (
                QueryStage::Finished,
                match reply {
                    DockerReply::Text(status) => DockerAction::Finish(status.clone()),
                    DockerReply::Done => failing(
                        ErrorKind::Infrastructure,
                        "Could not determine container status",
                    ),
                    DockerReply::Failed(reason) => failing_with(
                        ErrorKind::Infrastructure,
                        "Failed to inspect container: ",
                        reason.as_str(),
                    ),
                    _ => misusing(),
                },
            ),
            QueryStage::Finished => (QueryStage::Finished, DockerAction::Halt),
        }
    }

    /// One transition of the question for the logs of `service_name`.
    pub fn get_service_logs(&self, service_name: &str, stage: QueryStage, reply: &DockerReply)
        -> (next: (QueryStage, DockerAction))
        ensures
            (next.0, next.1@) == logs_step(self@, service_name@, stage, reply@),
    {
        let known = self.container_id(service_name);
        match stage {
            QueryStage::Idle => (
                QueryStage::Asked,
                match known {
                    Some(container_id) => DockerAction::Ask(DockerRequest::Logs { container_id }),
                    None => {
                        let command = self.compose_command().arg("logs").arg(service_name);
                        assert(command@.args =~= logs_command(
                            self@.options,
                            service_name@,
                        ).args);
                        DockerAction::Ask(DockerRequest::Run { command })
                    },
                },
            ),
            QueryStage::Asked => (
                QueryStage::Finished,
                match known {
                    Some(_) => match reply {
                        DockerReply::Text(logs) => DockerAction::Finish(logs.clone()),
                        DockerReply::Failed(reason) => failing_with(
                            ErrorKind::Infrastructure,
                            "Failed to get container logs: ",
                            reason.as_str(),
                        ),
                        _ => misusing(),
                    },
                    None => match reply {
                        DockerReply::Exited { success, stdout, stderr } => {
                            if *success {
                                DockerAction::Finish(stdout.clone())
                            } else {
                                failing_with(
                                    ErrorKind::Process,
                                    "Failed to get logs for service ",
                                    service_name,
                                )
                            }
                        },
                        DockerReply::Failed(reason) => failing(ErrorKind::Io, reason.as_str()),
                        _ => misusing(),
                    },
                },
            ),
            QueryStage::Finished => (QueryStage::Finished, DockerAction::Halt),
        }
    }

    /// One transition of the running of `command` in the container of
    /// `service_name`.
    pub fn exec_command(
        &self,
        service_name: &str,
        command: &Vec<String>,
        stage: QueryStage,
        reply: &DockerReply,
    ) -> (next: (QueryStage, DockerAction))
        ensures
            (next.0, next.1@) == exec_step(self@, service_name@, texts(command@), stage, reply@),
    {
        match stage {
            QueryStage::Idle => match self.container_id(service_name) {
                Some(container_id) => (
                    QueryStage::Asked,
                    DockerAction::Ask(
                        DockerRequest::Exec { container_id, argv: copy_strings(command) },
                    ),
                ),
                None => (
                    QueryStage::Finished,
                    failing_with(
                        ErrorKind::NotFound,
                        "Container ID not found for service ",
                        service_name,
                    ),
                ),
            },
            QueryStage::Asked => (
                QueryStage::Finished,
                match reply {
                    DockerReply::Text(output) => DockerAction::Finish(output.clone()),
                    DockerReply::Failed(reason) => failing_with(
                        ErrorKind::Infrastructure,
                        "Failed to execute command: ",
                        reason.as_str(),
                    ),
                    _ => misusing(),
                },
            ),
            QueryStage::Finished => (QueryStage::Finished, DockerAction::Halt),
        }
    }
}

} // verus!
