//! The operations on rollups as callers see them: by rollup identifier or by
//! service identifier, with errors that say which operation failed.

use crate::docker::rollup::{
    blank_config, create_step, current_time, delete_step, first, has_service_id, has_vm_id,
    idle_creation, lookup, no_address, records, start_step, stop_step, CreateAction,
    CreateActionView, CreateEvent, CreateEventView, CreateRequest, CreateRequestView, CreateState,
    CreateStateView, LifecycleAction, LifecycleActionView, LifecycleEvent, LifecycleEventView,
    RollupInfoView, RollupManager,
};
use crate::error::{ErrorKind, RaasError, RaasErrorView};
use crate::host::{FilePath, FilePathView, Reply, ReplyView};
use crate::text::{decimal, decimal_string};
use crate::{RollupConfig, RollupConfigView};
use vstd::prelude::*;
use vstd::string::*;

verus! {

/// The directory under which every instance has its own.
pub const INSTANCES_DIR: &'static str = "/tmp/espresso/";

/// The workspace of the instance `vm_id`.
pub open spec fn workspace_of(vm_id: Seq<char>) -> Seq<char> {
    INSTANCES_DIR@ + vm_id + "/workspace"@
}

/// The configuration directory of the instance `vm_id`.
pub open spec fn config_dir_of(vm_id: Seq<char>) -> Seq<char> {
    INSTANCES_DIR@ + vm_id + "/config"@
}

/// The workspace of the instance `vm_id`.
pub fn workspace_dir(vm_id: &str) -> (dir: String)
    ensures
        dir@ == workspace_of(vm_id@),
{
    String::from_str(INSTANCES_DIR).concat(vm_id).concat("/workspace")
}

/// The configuration directory of the instance `vm_id`.
pub fn config_dir(vm_id: &str) -> (dir: String)
    ensures
        dir@ == config_dir_of(vm_id@),
{
    String::from_str(INSTANCES_DIR).concat(vm_id).concat("/config")
}

/// The error `error` as the failure of the operation that `prefix` names.
pub open spec fn wrapped(prefix: Seq<char>, error: RaasErrorView) -> RaasErrorView {
    RaasErrorView { kind: error.kind, message: prefix + error.message }
}

/// The action `action` with its failure, if it is one, said to be that of
/// the operation that `prefix` names.
pub open spec fn reported(prefix: Seq<char>, action: LifecycleActionView) -> LifecycleActionView {
    match action {
        LifecycleActionView::Fail(error) => LifecycleActionView::Fail(wrapped(prefix, error)),
        other => other,
    }
}

/// The action `reported(prefix, action)`.
fn report(prefix: &str, action: LifecycleAction) -> (r: LifecycleAction)
    ensures
        r@ == reported(prefix@, action@),
{
    match action {
        LifecycleAction::Fail(error) => LifecycleAction::Fail(
            RaasError::with_detail(error.kind, prefix, error.message.as_str()),
        ),
        other => other,
    }
}

/// The failure of an operation that finds no rollup: `prefix`, then what was
/// looked for.
pub open spec fn unknown(prefix: Seq<char>, wanted: Seq<char>) -> LifecycleActionView {
    LifecycleActionView::Fail(RaasErrorView { kind: ErrorKind::NotFound, message: prefix + wanted })
}

/// The action `unknown(prefix, wanted)`.
fn no_rollup(prefix: &str, wanted: &str) -> (action: LifecycleAction)
    ensures
        action@ == unknown(prefix@, wanted@),
{
    LifecycleAction::Fail(RaasError::with_detail(ErrorKind::NotFound, prefix, wanted))
}

/// One transition of an operation on the rollup `id` as callers see it.
/// `step` is the transition of the registry.
///
/// A request for a rollup that the registry does not know fails and names
/// the identifier. Any other failure says which operation failed.
pub open spec fn by_rollup_id(
    registry: Seq<RollupInfoView>,
    id: Seq<char>,
    event: LifecycleEventView,
    step: (Seq<RollupInfoView>, LifecycleActionView),
    failure: Seq<char>,
) -> (Seq<RollupInfoView>, LifecycleActionView) {
    if event is Requested && lookup(registry, id) is None {
        (registry, unknown("Rollup not found for rollup_id: "@, id))
    } else {
        (step.0, reported(failure, step.1))
    }
}

/// One transition of an operation on the first rollup of the service
/// `service_id` as callers see it. `step` is the transition of the registry
/// for the rollup that is named.
pub open spec fn by_service_id(
    registry: Seq<RollupInfoView>,
    service_id: u64,
    step: spec_fn(Seq<char>) -> (Seq<RollupInfoView>, LifecycleActionView),
    failure: Seq<char>,
) -> (Seq<RollupInfoView>, LifecycleActionView) {
    match first(registry, has_service_id(service_id)) {
        None => (
            registry,
            unknown("Rollup not found for service_id: "@, decimal(service_id as nat)),
        ),
        Some(record) => (step(record.rollup_id).0, reported(failure, step(record.rollup_id).1)),
    }
}

/// Starts the rollup `rollup_id`: `start_step`, as callers see it.
pub fn start_rollup(
    manager: &mut RollupManager,
    rollup_id: &str,
    event: &LifecycleEvent,
) -> (action: LifecycleAction)
    ensures
        (final(manager)@, action@) == by_rollup_id(
            old(manager)@,
            rollup_id@,
            event@,
            start_step(old(manager)@, rollup_id@, event@),
            "Failed to start rollup: "@,
        ),
{
    let asked = match event {
        LifecycleEvent::Requested => true,
        _ => false,
    };
    if asked && manager.get_rollup(rollup_id).is_none() {
        return no_rollup("Rollup not found for rollup_id: ", rollup_id);
    }
    report("Failed to start rollup: ", manager.start_rollup(rollup_id, event))
}

/// Stops the rollup `rollup_id`: `stop_step`, as callers see it.
pub fn stop_rollup(
    manager: &mut RollupManager,
    rollup_id: &str,
    event: &LifecycleEvent,
) -> (action: LifecycleAction)
    ensures
        (final(manager)@, action@) == by_rollup_id(
            old(manager)@,
            rollup_id@,
            event@,
            stop_step(old(manager)@, rollup_id@, event@),
            "Failed to stop rollup: "@,
        ),
{
    let asked = match event {
        LifecycleEvent::Requested => true,
        _ => false,
    };
    if asked && manager.get_rollup(rollup_id).is_none() {
        return no_rollup("Rollup not found for rollup_id: ", rollup_id);
    }
    report("Failed to stop rollup: ", manager.stop_rollup(rollup_id, event))
}

/// Deletes the rollup `rollup_id`: `delete_step`, as callers see it.
pub fn delete_rollup(
    manager: &mut RollupManager,
    rollup_id: &str,
    event: &LifecycleEvent,
) -> (action: LifecycleAction)
    ensures
        (final(manager)@, action@) == by_rollup_id(
            old(manager)@,
            rollup_id@,
            event@,
            delete_step(old(manager)@, rollup_id@, event@),
            "Failed to delete rollup: "@,
        ),
{
    let asked = match event {
        LifecycleEvent::Requested => true,
        _ => false,
    };
    if asked && manager.get_rollup(rollup_id).is_none() {
        return no_rollup("Rollup not found for rollup_id: ", rollup_id);
    }
    report("Failed to delete rollup: ", manager.delete_rollup(rollup_id, event))
}

/// Starts the first rollup of the service `service_id`.
pub fn start_rollup_by_service_id(
    manager: &mut RollupManager,
    service_id: u64,
    event: &LifecycleEvent,
) -> (action: LifecycleAction)
    ensures
        (final(manager)@, action@) == by_service_id(
            old(manager)@,
            service_id,
            |id: Seq<char>| start_step(old(manager)@, id, event@),
            "Failed to start rollup: "@,
        ),
{
    match manager.get_rollup_by_service_id(service_id) {
        None => {
            let wanted = decimal_string(service_id);
            no_rollup("Rollup not found for service_id: ", wanted.as_str())
        },
        Some(record) => report(
            "Failed to start rollup: ",
            manager.start_rollup(record.rollup_id.as_str(), event),
        ),
    }
}

/// Stops the first rollup of the service `service_id`.
pub fn stop_rollup_by_service_id(
    manager: &mut RollupManager,
    service_id: u64,
    event: &LifecycleEvent,
) -> (action: LifecycleAction)
    ensures
        (final(manager)@, action@) == by_service_id(
            old(manager)@,
            service_id,
            |id: Seq<char>| stop_step(old(manager)@, id, event@),
            "Failed to stop rollup: "@,
        ),
{
    match manager.get_rollup_by_service_id(service_id) {
        None => {
            let wanted = decimal_string(service_id);
            no_rollup("Rollup not found for service_id: ", wanted.as_str())
        },
        Some(record) => report(
            "Failed to stop rollup: ",
            manager.stop_rollup(record.rollup_id.as_str(), event),
        ),
    }
}

/// Deletes the first rollup of the service `service_id`.
pub fn delete_rollup_by_service_id(
    manager: &mut RollupManager,
    service_id: u64,
    event: &LifecycleEvent,
) -> (action: LifecycleAction)
    ensures
        (final(manager)@, action@) == by_service_id(
            old(manager)@,
            service_id,
            |id: Seq<char>| delete_step(old(manager)@, id, event@),
            "Failed to delete rollup: "@,
        ),
{
    match manager.get_rollup_by_service_id(service_id) {
        None => {
            let wanted = decimal_string(service_id);
            no_rollup("Rollup not found for service_id: ", wanted.as_str())
        },
        Some(record) => report(
            "Failed to delete rollup: ",
            manager.delete_rollup(record.rollup_id.as_str(), event),
        ),
    }
}

/// The status, as text, of the rollup `rollup_id`; an error of kind
/// `NotFound` where the registry holds no such rollup.
pub fn get_rollup_status(manager: &RollupManager, rollup_id: &str) -> (r: Result<String, RaasError>)
    ensures
        match r {
            Ok(text) => lookup(manager@, rollup_id@) matches Some(record) && text@
                == record.status.text(),
            Err(error) => lookup(manager@, rollup_id@) is None && error@ == (RaasErrorView {
                kind: ErrorKind::NotFound,
                message: "Rollup not found for rollup_id: "@ + rollup_id@,
            }),
        },
{
    match manager.get_rollup(rollup_id) {
        Some(record) => Ok(record.status.to_string()),
        None => Err(
            RaasError::with_detail(
                ErrorKind::NotFound,
                "Rollup not found for rollup_id: ",
                rollup_id,
            ),
        ),
    }
}

/// The status, as text, of the rollup that the instance `vm_id` runs; an
/// error of kind `NotFound` where no rollup runs on that instance.
pub fn get_rollup_status_by_vm_id(manager: &RollupManager, vm_id: &str) -> (r: Result<
    String,
    RaasError,
>)
    ensures
        match r {
            Ok(text) => first(manager@, has_vm_id(vm_id@)) matches Some(record) && text@
                == record.status.text(),
            Err(error) => first(manager@, has_vm_id(vm_id@)) is None && error@ == (RaasErrorView {
                kind: ErrorKind::NotFound,
                message: "Rollup not found for vm_id: "@ + vm_id@,
            }),
        },
{
    match manager.get_rollup_by_vm_id(vm_id) {
        Some(record) => Ok(record.status.to_string()),
        None => Err(
            RaasError::with_detail(ErrorKind::NotFound, "Rollup not found for vm_id: ", vm_id),
        ),
    }
}

/// What a listing shows of one rollup, as texts.
#[derive(Debug)]
pub struct RollupSummary {
    pub service_id: String,
    pub rollup_id: String,
    pub vm_id: String,
    pub status: String,
    pub created_at: String,
}

/// The mathematical value of a `RollupSummary`.
pub struct RollupSummaryView {
    pub service_id: Seq<char>,
    pub rollup_id: Seq<char>,
    pub vm_id: Seq<char>,
    pub status: Seq<char>,
    pub created_at: Seq<char>,
}

impl View for RollupSummary {
    type V = RollupSummaryView;

    open spec fn view(&self) -> RollupSummaryView {
        RollupSummaryView {
            service_id: self.service_id@,
            rollup_id: self.rollup_id@,
            vm_id: self.vm_id@,
            status: self.status@,
            created_at: self.created_at@,
        }
    }
}

/// What a listing shows of `record`.
pub open spec fn summary(record: RollupInfoView) -> RollupSummaryView {
    RollupSummaryView {
        service_id: decimal(record.service_id as nat),
        rollup_id: record.rollup_id,
        vm_id: record.vm_id,
        status: record.status.text(),
        created_at: record.created_at,
    }
}

/// A summary of every rollup, in the order of the registry.
pub fn list_rollups(manager: &RollupManager) -> (list: Vec<RollupSummary>)
    ensures
        list@.len() == manager@.len(),
        forall|i: int| 0 <= i < list@.len() ==> (#[trigger] list@[i])@ == summary(manager@[i]),
{
    let all = manager.list_rollups();
    let mut list: Vec<RollupSummary> = Vec::new();
    let mut i: usize = 0;
    while i < all.len()
        invariant
            i <= all@.len(),
            records(all@) == manager@,
            list@.len() == i,
            forall|j: int| 0 <= j < i ==> (#[trigger] list@[j])@ == summary(manager@[j]),
        decreases all@.len() - i,
    {
        list.push(
            RollupSummary {
                service_id: decimal_string(all[i].service_id),
                rollup_id: all[i].rollup_id.clone(),
                vm_id: all[i].vm_id.clone(),
                status: all[i].status.to_string(),
                created_at: all[i].created_at.clone(),
            },
        );
        i += 1;
    }
    list
}

/// Where the setting up of a rollup stands.
#[derive(Clone, Copy, Debug, PartialEq, Eq, Structural)]
pub enum SetupStage {
    /// Nothing was asked for yet.
    Idle,
    CreatingWorkspace,
    CreatingConfigDir,
    /// The directories exist; the rollup is being created.
    Creating,
    Finished,
    Failed,
}

/// The state of the setting up of a rollup between two requests.
#[derive(Debug)]
pub struct SetupState {
    pub stage: SetupStage,
    pub service_id: u64,
    pub rollup_id: String,
    pub vm_id: String,
    pub config: RollupConfig,
    /// The state of the creation, once it has begun.
    pub creation: CreateState,
}

/// The mathematical value of a `SetupState`.
pub struct SetupStateView {
    pub stage: SetupStage,
    pub service_id: u64,
    pub rollup_id: Seq<char>,
    pub vm_id: Seq<char>,
    pub config: RollupConfigView,
    pub creation: CreateStateView,
}

impl View for SetupState {
    type V = SetupStateView;

    open spec fn view(&self) -> SetupStateView {
        SetupStateView {
            stage: self.stage,
            service_id: self.service_id,
            rollup_id: self.rollup_id@,
            vm_id: self.vm_id@,
            config: self.config@,
            creation: self.creation@,
        }
    }
}

impl SetupState {
    /// The state of a setting up of which nothing was asked for yet: at the
    /// stage `Idle`, for service zero, with no rollup and no instance named,
    /// with the configuration `blank_config()`, and with a creation of
    /// which nothing was asked for either.
    pub fn new() -> (state: Self)
        ensures
            state@ == idle_setup(),
    {
        let state = SetupState {
            stage: SetupStage::Idle,
            service_id: 0,
            rollup_id: String::new(),
            vm_id: String::new(),
            config: RollupConfig {
                chain_id: 0,
                initial_chain_owner: [0u8; 20],
                validators: Vec::new(),
                batch_poster_address: [0u8; 20],
                batch_poster_manager: [0u8; 20],
                network: crate::NetworkType::Geth,
            },
            creation: CreateState::new(),
        };
        proof {
            assert(state.config.initial_chain_owner@ =~= no_address());
            assert(state.config.batch_poster_address@ =~= no_address());
            assert(state.config.batch_poster_manager@ =~= no_address());
            assert(state.config@.validators =~= Seq::empty());
        }
        state
    }
}

/// The state of a setting up of which nothing was asked for yet.
pub open spec fn idle_setup() -> SetupStateView {
    SetupStateView {
        stage: SetupStage::Idle,
        service_id: 0,
        rollup_id: Seq::empty(),
        vm_id: Seq::empty(),
        config: blank_config(),
        creation: idle_creation(),
    }
}

/// What is reported to the setting up of a rollup.
#[derive(Debug)]
pub enum SetupEvent {
    /// The rollup is asked for.
    Begin { service_id: u64, rollup_id: String, vm_id: String, config: RollupConfig },
    /// How the creation of a directory ended.
    Directory(Reply),
    /// What the creation is told.
    Create(CreateEvent),
}

/// The mathematical value of a `SetupEvent`.
pub enum SetupEventView {
    Begin { service_id: u64, rollup_id: Seq<char>, vm_id: Seq<char>, config: RollupConfigView },
    Directory(ReplyView),
    Create(CreateEventView),
}

impl View for SetupEvent {
    type V = SetupEventView;

    open spec fn view(&self) -> SetupEventView {
        match self {
            SetupEvent::Begin { service_id, rollup_id, vm_id, config } => SetupEventView::Begin {
                service_id: *service_id,
                rollup_id: rollup_id@,
                vm_id: vm_id@,
                config: config@,
            },
            SetupEvent::Directory(reply) => SetupEventView::Directory(reply@),
            SetupEvent::Create(event) => SetupEventView::Create(event@),
        }
    }
}

/// What is to happen next in the setting up of a rollup.
#[derive(Debug)]
pub enum SetupAction {
    /// The host creates the directory, and those above it, unless they
    /// exist.
    CreateDirectory(FilePath),
    /// The host does what the creation asks and reports it as a
    /// `SetupEvent::Create`.
    Create(CreateAction),
    /// Nothing more: the rollup is set up.
    Done(bool),
    /// Nothing more: the setting up failed.
    Fail(RaasError),
    /// Nothing: the setting up had ended before.
    Halt,
}

/// The mathematical value of a `SetupAction`.
pub enum SetupActionView {
    CreateDirectory(FilePathView),
    Create(CreateActionView),
    Done(bool),
    Fail(RaasErrorView),
    Halt,
}

impl View for SetupAction {
    type V = SetupActionView;

    open spec fn view(&self) -> SetupActionView {
        match self {
            SetupAction::CreateDirectory(path) => SetupActionView::CreateDirectory(path@),
            SetupAction::Create(action) => SetupActionView::Create(action@),
            SetupAction::Done(done) => SetupActionView::Done(*done),
            SetupAction::Fail(error) => SetupActionView::Fail(error@),
            SetupAction::Halt => SetupActionView::Halt,
        }
    }
}

/// The directory `dir` itself.
pub open spec fn directory(dir: Seq<char>) -> FilePathView {
    FilePathView { base: dir, relative: Seq::empty() }
}

/// The failure of a setting up: an error of `kind` with the text `message`.
pub open spec fn abandoned(kind: ErrorKind, message: Seq<char>) -> SetupActionView {
    SetupActionView::Fail(RaasErrorView { kind, message })
}

/// The failure of a setting up that was handed an event of the wrong form.
pub open spec fn confused() -> SetupActionView {
    abandoned(ErrorKind::Precondition, "The event does not answer the request"@)
}

/// The stage of the setting up after the creation has answered with
/// `action`: ended where the creation has ended, else waiting for what the
/// creation asks of the host.
pub open spec fn stage_after(action: CreateActionView) -> SetupStage {
    match action {
        CreateActionView::Done(_) => SetupStage::Finished,
        CreateActionView::Fail(_) => SetupStage::Failed,
        _ => SetupStage::Creating,
    }
}

/// What the setting up answers after the creation has answered with
/// `action`: the end of the creation is the end of the setting up, its
/// failure is reported as the failure to create the rollup, and what it asks
/// of the host is passed on.
pub open spec fn action_after(action: CreateActionView) -> SetupActionView {
    match action {
        CreateActionView::Done(_) => SetupActionView::Done(true),
        CreateActionView::Fail(error) => SetupActionView::Fail(
            wrapped("Failed to create rollup: "@, error),
        ),
        CreateActionView::Halt => SetupActionView::Halt,
        other => SetupActionView::Create(other),
    }
}

/// What the setting up makes of one transition of the creation.
pub open spec fn passed_on(
    state: SetupStateView,
    step: (Seq<RollupInfoView>, CreateStateView, CreateActionView),
) -> (Seq<RollupInfoView>, SetupStateView, SetupActionView) {
    (
        step.0,
        SetupStateView { stage: stage_after(step.2), creation: step.1, ..state },
        action_after(step.2),
    )
}

/// One transition of the setting up of a rollup. `now` is the time at which
/// a record is made.
///
/// The workspace and the configuration directory of the instance are
/// created, in this order, below the directory of all instances. Then the
/// rollup is created in the registry as `create_step` says.
pub open spec fn setup_step(
    registry: Seq<RollupInfoView>,
    state: SetupStateView,
    event: SetupEventView,
    now: Seq<char>,
) -> (Seq<RollupInfoView>, SetupStateView, SetupActionView) {
    let failed = SetupStateView { stage: SetupStage::Failed, ..state };
    match state.stage {
        SetupStage::Finished => (registry, state, SetupActionView::Halt),
        SetupStage::Failed => (registry, state, SetupActionView::Halt),
        SetupStage::Idle => match event {
            SetupEventView::Begin { service_id, rollup_id, vm_id, config } => (
                registry,
                SetupStateView {
                    stage: SetupStage::CreatingWorkspace,
                    service_id,
                    rollup_id,
                    vm_id,
                    config,
                    creation: state.creation,
                },
                SetupActionView::CreateDirectory(directory(workspace_of(vm_id))),
            ),
            _ => (registry, failed, confused()),
        },
        SetupStage::CreatingWorkspace => match event {
            SetupEventView::Directory(ReplyView::Done(_)) => (
                registry,
                SetupStateView { stage: SetupStage::CreatingConfigDir, ..state },
                SetupActionView::CreateDirectory(directory(config_dir_of(state.vm_id))),
            ),
            SetupEventView::Directory(ReplyView::Failed(reason)) => (
                registry,
                failed,
                abandoned(
                    ErrorKind::Io,
                    "Failed to create workspace directory "@ + workspace_of(state.vm_id) + ": "@
                        + reason,
                ),
            ),
            _ => (registry, failed, confused()),
        },
        SetupStage::CreatingConfigDir => match event {
            SetupEventView::Directory(ReplyView::Done(_)) => passed_on(
                state,
                create_step(
                    registry,
                    state.creation,
                    CreateEventView::Request(
                        CreateRequestView {
                            service_id: state.service_id,
                            rollup_id: state.rollup_id,
                            vm_id: state.vm_id,
                            config: state.config,
                            workspace_dir: workspace_of(state.vm_id),
                            config_dir: config_dir_of(state.vm_id),
                        },
                    ),
                    now,
                ),
            ),
            SetupEventView::Directory(ReplyView::Failed(reason)) => (
                registry,
                failed,
                abandoned(
                    ErrorKind::Io,
                    "Failed to create config directory "@ + config_dir_of(state.vm_id) + ": "@
                        + reason,
                ),
            ),
            _ => (registry, failed, confused()),
        },
        SetupStage::Creating => match event {
            SetupEventView::Create(event) => passed_on(
                state,
                create_step(registry, state.creation, event, now),
            ),
            _ => (registry, failed, confused()),
        },
    }
}

/// What the setting up makes of one transition of the creation.
fn pass_on(state: SetupState, creation: CreateState, action: CreateAction) -> (next: (
    SetupState,
    SetupAction,
))
    ensures
        next.0@ == (SetupStateView {
            stage: stage_after(action@),
            creation: creation@,
            ..state@
        }),
        next.1@ == action_after(action@),
{
    let mut state = state;
    state.creation = creation;
    match action {
        CreateAction::Done(_) => {
            state.stage = SetupStage::Finished;
            (state, SetupAction::Done(true))
        },
        CreateAction::Fail(error) => {
            state.stage = SetupStage::Failed;
            (
                state,
                SetupAction::Fail(
                    RaasError::with_detail(
                        error.kind,
                        "Failed to create rollup: ",
                        error.message.as_str(),
                    ),
                ),
            )
        },
        CreateAction::Halt => {
            state.stage = SetupStage::Creating;
            (state, SetupAction::Halt)
        },
        other => {
            state.stage = SetupStage::Creating;
            (state, SetupAction::Create(other))
        },
    }
}

/// The failure `confused()`.
fn confuse() -> (action: SetupAction)
    ensures
        action@ == confused(),
{
    SetupAction::Fail(
        RaasError::new(ErrorKind::Precondition, "The event does not answer the request"),
    )
}

/// One transition of the setting up of a rollup, at the time `now`.
pub fn create_rollup_at(
    manager: &mut RollupManager,
    state: SetupState,
    event: SetupEvent,
    now: String,
) -> (next: (SetupState, SetupAction))
    ensures
        (final(manager)@, next.0@, next.1@) == setup_step(
            old(manager)@,
            state@,
            event@,
            now@,
        ),
{
    let mut state = state;
    match state.stage {
        SetupStage::Finished | SetupStage::Failed => {
            return (state, SetupAction::Halt);
        },
        _ => {},
    }
    let stage = state.stage;
    state.stage = SetupStage::Failed;
    match (stage, event) {
        (SetupStage::Idle, SetupEvent::Begin { service_id, rollup_id, vm_id, config }) => {
            let path = FilePath { base: workspace_dir(vm_id.as_str()), relative: String::new() };
            (
                SetupState {
                    stage: SetupStage::CreatingWorkspace,
                    service_id,
                    rollup_id,
                    vm_id,
                    config,
                    creation: state.creation,
                },
                SetupAction::CreateDirectory(path),
            )
        },
        (SetupStage::CreatingWorkspace, SetupEvent::Directory(Reply::Done(_))) => {
            let path = FilePath {
                base: config_dir(state.vm_id.as_str()),
                relative: String::new(),
            };
            state.stage = SetupStage::CreatingConfigDir;
            (state, SetupAction::CreateDirectory(path))
        },
        (SetupStage::CreatingWorkspace, SetupEvent::Directory(Reply::Failed(reason))) => {
            let dir = workspace_dir(state.vm_id.as_str());
            let message = String::from_str("Failed to create workspace directory ").concat(
                dir.as_str(),
            ).concat(": ").concat(reason.as_str());
            (state, SetupAction::Fail(RaasError { kind: ErrorKind::Io, message }))
        },
        (SetupStage::CreatingConfigDir, SetupEvent::Directory(Reply::Done(_))) => {
            let request = CreateRequest {
                service_id: state.service_id,
                rollup_id: state.rollup_id.clone(),
                vm_id: state.vm_id.clone(),
                config: state.config.clone(),
                workspace_dir: workspace_dir(state.vm_id.as_str()),
                config_dir: config_dir(state.vm_id.as_str()),
            };
            let blank = SetupState {
                stage: state.stage,
                service_id: state.service_id,
                rollup_id: state.rollup_id,
                vm_id: state.vm_id,
                config: state.config,
                creation: CreateState::new(),
            };
            let (creation, action) = manager.create_rollup_at(
                state.creation,
                CreateEvent::Request(request),
                now,
            );
            pass_on(blank, creation, action)
        },
        (SetupStage::CreatingConfigDir, SetupEvent::Directory(Reply::Failed(reason))) => {
            let dir = config_dir(state.vm_id.as_str());
            let message = String::from_str("Failed to create config directory ").concat(
                dir.as_str(),
            ).concat(": ").concat(reason.as_str());
            (state, SetupAction::Fail(RaasError { kind: ErrorKind::Io, message }))
        },
        (SetupStage::Creating, SetupEvent::Create(event)) => {
            let blank = SetupState {
                stage: state.stage,
                service_id: state.service_id,
                rollup_id: state.rollup_id,
                vm_id: state.vm_id,
                config: state.config,
                creation: CreateState::new(),
            };
            let (creation, action) = manager.create_rollup_at(state.creation, event, now);
            pass_on(blank, creation, action)
        },
        _ => (state, confuse()),
    }
}

/// One transition of the setting up of a rollup: `setup_step` at the time of
/// the call, whatever that time is.
pub fn create_rollup(manager: &mut RollupManager, state: SetupState, event: SetupEvent) -> (next: (
    SetupState,
    SetupAction,
))
    ensures
        exists|now: Seq<char>|
            (final(manager)@, next.0@, next.1@) == #[trigger] setup_step(
                old(manager)@,
                state@,
                event@,
                now,
            ),
{
    let now = current_time();
    create_rollup_at(manager, state, event, now)
}

} // verus!
