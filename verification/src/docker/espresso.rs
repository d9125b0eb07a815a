//! The node of one rollup as a project of containers.

use crate::docker::container::{
    down_command, exec_step, fail, logs_step, misused, network_name, start_follows, status_step,
    stop_step, DockerAction, DockerActionView, DockerComposeManager, DockerComposeManagerView,
    DockerComposeOptions, DockerComposeOptionsView, DockerReply, DockerReplyView, DockerRequest,
    DockerRequestView, QueryStage, StartStage, StartStageView, StopStage,
};
use crate::error::{ErrorKind, RaasError};
use crate::host::{texts, FilePath, FilePathView};
use vstd::prelude::*;
use vstd::string::*;

verus! {

/// The service whose container is the node itself.
pub const NODE_SERVICE: &'static str = "nitro";

/// The name of the manifest, below the workspace.
pub const MANIFEST_NAME: &'static str = "docker-compose.yml";

/// The containers of one rollup's node, once they were brought up.
#[derive(Debug)]
pub struct EspressoDockerManager {
    compose_manager: Option<DockerComposeManager>,
    workspace_dir: String,
    config_dir: String,
    vm_id: String,
}

/// The mathematical value of an `EspressoDockerManager`.
pub struct EspressoDockerManagerView {
    pub compose_manager: Option<DockerComposeManagerView>,
    pub workspace_dir: Seq<char>,
    pub config_dir: Seq<char>,
    pub vm_id: Seq<char>,
}

impl View for EspressoDockerManager {
    type V = EspressoDockerManagerView;

    closed spec fn view(&self) -> EspressoDockerManagerView {
        EspressoDockerManagerView {
            compose_manager: match self.compose_manager {
                Some(manager) => Some(manager@),
                None => None,
            },
            workspace_dir: self.workspace_dir@,
            config_dir: self.config_dir@,
            vm_id: self.vm_id@,
        }
    }
}

impl EspressoDockerManagerView {
    /// The project that the node's containers form: its manifest in the
    /// workspace, and its name made from the instance's identifier.
    pub open spec fn options(self) -> DockerComposeOptionsView {
        DockerComposeOptionsView {
            compose_file_path: FilePathView { base: self.workspace_dir, relative: MANIFEST_NAME@ },
            config_dir: self.config_dir,
            project_name: "espresso-"@ + self.vm_id,
        }
    }

    /// The manager of the project before any container is known.
    pub open spec fn fresh(self) -> DockerComposeManagerView {
        DockerComposeManagerView { options: self.options(), containers: Seq::empty() }
    }

    /// The project of the node's containers as far as the node knows it:
    /// with the containers that were brought up through the node, or with
    /// none, by its name alone.
    pub open spec fn project(self) -> DockerComposeManagerView {
        match self.compose_manager {
            Some(manager) => manager,
            None => self.fresh(),
        }
    }
}

/// Where the bringing up of a node stands.
#[derive(Debug)]
pub enum EspressoStart {
    /// Nothing was asked for yet.
    Idle,
    Connecting,
    /// The container service answers; the project is being brought up.
    Starting { manager: DockerComposeManager, stage: StartStage },
    Finished,
    Failed,
}

/// The mathematical value of an `EspressoStart`.
pub enum EspressoStartView {
    Idle,
    Connecting,
    Starting { manager: DockerComposeManagerView, stage: StartStageView },
    Finished,
    Failed,
}

impl View for EspressoStart {
    type V = EspressoStartView;

    open spec fn view(&self) -> EspressoStartView {
        match self {
            EspressoStart::Idle => EspressoStartView::Idle,
            EspressoStart::Connecting => EspressoStartView::Connecting,
            EspressoStart::Starting { manager, stage } => EspressoStartView::Starting {
                manager: manager@,
                stage: stage@,
            },
            EspressoStart::Finished => EspressoStartView::Finished,
            EspressoStart::Failed => EspressoStartView::Failed,
        }
    }
}

/// The failure of an operation that needs the containers to have been
/// brought up.
pub open spec fn not_initialized() -> DockerActionView {
    fail(ErrorKind::Precondition, "Docker compose manager not initialized"@)
}

/// What the next stage and the action are when a node is brought up.
///
/// First the container service is connected to. Then the project is brought
/// up as `start_follows` says, from a manager that knows no container. Only
/// when that has ended well does the node keep the manager.
pub open spec fn node_start_follows(
    before: EspressoDockerManagerView,
    progress: EspressoStartView,
    reply: DockerReplyView,
    after: EspressoDockerManagerView,
    next: EspressoStartView,
    action: DockerActionView,
) -> bool {
    match progress {
        EspressoStartView::Idle => {
            &&& after == before
            &&& next is Connecting
            &&& action == DockerActionView::Ask(DockerRequestView::Connect)
        },
        EspressoStartView::Connecting => {
            &&& after == before
            &&& match reply {
                DockerReplyView::Done => {
                    &&& next matches EspressoStartView::Starting { manager, stage }
                    &&& start_follows(
                        before.fresh(),
                        StartStageView::Idle,
                        reply,
                        manager,
                        stage,
                        action,
                    )
                },
                DockerReplyView::Failed(reason) => next is Failed && action == fail(
                    ErrorKind::Infrastructure,
                    reason,
                ),
                _ => next is Failed && action == misused(),
            }
        },
        EspressoStartView::Starting { manager, stage } => match action {
            DockerActionView::Finish(_) => {
                &&& next is Finished
                &&& after.compose_manager matches Some(brought)
                &&& after == (EspressoDockerManagerView {
                    compose_manager: Some(brought),
                    ..before
                })
                &&& start_follows(manager, stage, reply, brought, StartStageView::Finished, action)
            },
            DockerActionView::Fail(_) => {
                &&& next is Failed
                &&& after == before
                &&& start_follows(manager, stage, reply, manager, StartStageView::Failed, action)
            },
            _ => {
                &&& after == before
                &&& next matches EspressoStartView::Starting { manager: brought, stage: reached }
                &&& start_follows(manager, stage, reply, brought, reached, action)
            },
        },
        _ => after == before && next == progress && action == DockerActionView::Halt,
    }
}

/// A node that knows no container is taken down by the name of its project
/// alone: the taking down asks for the project's network to be removed and
/// ends well when that is done; where it is not done, the command line is
/// asked to take the whole project down, and the taking down ends well when
/// that command does.
pub proof fn law_unknown_node_is_taken_down_by_name(
    node: EspressoDockerManagerView,
    reply: DockerReplyView,
    reason: Seq<char>,
    stdout: Seq<char>,
    stderr: Seq<char>,
)
    requires
        node.compose_manager is None,
    ensures
        stop_step(node.project(), StopStage::Idle, reply) == (
            StopStage::RemovingNetwork,
            DockerActionView::Ask(
                DockerRequestView::RemoveNetwork {
                    name: network_name(node.options().project_name),
                },
            ),
        ),
        stop_step(node.project(), StopStage::RemovingNetwork, DockerReplyView::Done) == (
            StopStage::Finished,
            DockerActionView::Finish(Seq::empty()),
        ),
        stop_step(node.project(), StopStage::RemovingNetwork, DockerReplyView::Failed(reason)) == (
            StopStage::FallingBack,
            DockerActionView::Ask(
                DockerRequestView::Run { command: down_command(node.options()) },
            ),
        ),
        stop_step(
            node.project(),
            StopStage::FallingBack,
            DockerReplyView::Exited { success: true, stdout, stderr },
        ) == (StopStage::Finished, DockerActionView::Finish(Seq::empty())),
{
}

impl EspressoDockerManager {
    /// The node of the instance `vm_id`, with its workspace and its
    /// configuration directory; its containers are not brought up.
    pub fn new(workspace_dir: &str, config_dir: &str, vm_id: &str) -> (node: Self)
        ensures
            node@ == (EspressoDockerManagerView {
                compose_manager: None,
                workspace_dir: workspace_dir@,
                config_dir: config_dir@,
                vm_id: vm_id@,
            }),
    {
        EspressoDockerManager {
            compose_manager: None,
            workspace_dir: String::from_str(workspace_dir),
            config_dir: String::from_str(config_dir),
            vm_id: String::from_str(vm_id),
        }
    }

    /// The identifier of the instance.
    pub fn vm_id(&self) -> (id: &str)
        ensures
            id@ == self@.vm_id,
    {
        self.vm_id.as_str()
    }

    /// Whether the containers were brought up through this value.
    pub fn is_started(&self) -> (started: bool)
        ensures
            started == (self@.compose_manager is Some),
    {
        self.compose_manager.is_some()
    }

    /// The project that the node's containers form.
    fn options(&self) -> (options: DockerComposeOptions)
        ensures
            options@ == self@.options(),
    {
        DockerComposeOptions {
            compose_file_path: FilePath::new(self.workspace_dir.as_str(), MANIFEST_NAME),
            config_dir: self.config_dir.clone(),
            project_name: String::from_str("espresso-").concat(self.vm_id.as_str()),
        }
    }

    /// One transition of the bringing up of the node's containers.
    pub fn start(&mut self, progress: EspressoStart, reply: DockerReply) -> (next: (
        EspressoStart,
        DockerAction,
    ))
        ensures
            node_start_follows(old(self)@, progress@, reply@, final(self)@, next.0@, next.1@),
    {
        match progress {
            EspressoStart::Idle => (
                EspressoStart::Connecting,
                DockerAction::Ask(DockerRequest::Connect),
            ),
            EspressoStart::Connecting => match reply {
                DockerReply::Done => {
                    let mut manager = DockerComposeManager::new(self.options());
                    let (stage, action) = manager.start_containers(StartStage::Idle, reply);
                    (EspressoStart::Starting { manager, stage }, action)
                },
                DockerReply::Failed(reason) => (
                    EspressoStart::Failed,
                    DockerAction::Fail(
                        RaasError::new(ErrorKind::Infrastructure, reason.as_str()),
                    ),
                ),
                _ => (
                    EspressoStart::Failed,
                    DockerAction::Fail(
                        RaasError::new(
                            ErrorKind::Precondition,
                            "The reply does not answer the request",
                        ),
                    ),
                ),
            },
            EspressoStart::Starting { manager, stage } => {
                let mut manager = manager;
                let (stage, action) = manager.start_containers(stage, reply);
                match action {
                    DockerAction::Finish(text) => {
                        self.compose_manager = Some(manager);
                        (EspressoStart::Finished, DockerAction::Finish(text))
                    },
                    DockerAction::Fail(error) => (
                        EspressoStart::Failed,
                        DockerAction::Fail(error),
                    ),
                    other => (EspressoStart::Starting { manager, stage }, other),
                }
            },
            EspressoStart::Finished => (EspressoStart::Finished, DockerAction::Halt),
            EspressoStart::Failed => (EspressoStart::Failed, DockerAction::Halt),
        }
    }

    /// The failure `not_initialized()`.
    fn uninitialized() -> (action: DockerAction)
        ensures
            action@ == not_initialized(),
    {
        DockerAction::Fail(
            RaasError::new(ErrorKind::Precondition, "Docker compose manager not initialized"),
        )
    }

    /// One transition of the taking down of the node's containers: that of
    /// its project. A node that knows no container takes the project down
    /// by its name: it asks for the network to be removed, and leaves the
    /// rest to the command line where that fails.
    pub fn stop(&self, stage: StopStage, reply: &DockerReply) -> (next: (StopStage, DockerAction))
        ensures
            (next.0, next.1@) == stop_step(self@.project(), stage, reply@),
    {
        match &self.compose_manager {
            Some(manager) => manager.stop_containers(stage, reply),
            None => DockerComposeManager::new(self.options()).stop_containers(stage, reply),
        }
    }

    /// One transition of the question for the node's status: that of the
    /// node's service, or `NotRunning` at once where the containers were not
    /// brought up.
    pub fn get_status(&self, stage: QueryStage, reply: &DockerReply) -> (next: (
        QueryStage,
        DockerAction,
    ))
        ensures
            (next.0, next.1@) == match self@.compose_manager {
                Some(manager) => status_step(manager, NODE_SERVICE@, stage, reply@),
                None => (QueryStage::Finished, DockerActionView::Finish("NotRunning"@)),
            },
    {
        match &self.compose_manager {
            Some(manager) => manager.get_service_status(NODE_SERVICE, stage, reply),
            None => (QueryStage::Finished, DockerAction::Finish(String::from_str("NotRunning"))),
        }
    }

    /// One transition of the question for the node's logs: that of the
    /// node's service in its project. A node that knows no container asks
    /// the command line.
    pub fn get_logs(&self, stage: QueryStage, reply: &DockerReply) -> (next: (
        QueryStage,
        DockerAction,
    ))
        ensures
            (next.0, next.1@) == logs_step(self@.project(), NODE_SERVICE@, stage, reply@),
    {
        match &self.compose_manager {
            Some(manager) => manager.get_service_logs(NODE_SERVICE, stage, reply),
            None => DockerComposeManager::new(self.options()).get_service_logs(
                NODE_SERVICE,
                stage,
                reply,
            ),
        }
    }

    /// One transition of the running of `command` in the node's container;
    /// a failure where the node knows no container.
    pub fn exec_command(&self, command: &Vec<String>, stage: QueryStage, reply: &DockerReply)
        -> (next: (QueryStage, DockerAction))
        ensures
            (next.0, next.1@) == match self@.compose_manager {
                Some(manager) => exec_step(manager, NODE_SERVICE@, texts(command@), stage, reply@),
                None => (QueryStage::Finished, not_initialized()),
            },
    {
        match &self.compose_manager {
            Some(manager) => manager.exec_command(NODE_SERVICE, command, stage, reply),
            None => (QueryStage::Finished, Self::uninitialized()),
        }
    }
}

} // verus!
