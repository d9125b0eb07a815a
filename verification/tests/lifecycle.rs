use espresso_raas_blueprint::deployer::rollup::{DeployError, DeployStep, DeploymentResult};
use espresso_raas_blueprint::docker::container::{
    DockerAction, DockerReply, DockerRequest, ServiceContainer, StopStage,
};
use espresso_raas_blueprint::docker::espresso::EspressoStart;
use espresso_raas_blueprint::docker::helpers::{
    config_dir, create_rollup, create_rollup_at, delete_rollup, delete_rollup_by_service_id,
    get_rollup_status, get_rollup_status_by_vm_id, list_rollups, start_rollup,
    start_rollup_by_service_id, stop_rollup,
    stop_rollup_by_service_id, workspace_dir, SetupAction, SetupEvent, SetupStage, SetupState,
};
use espresso_raas_blueprint::docker::jobs::{create_docker_rollup, create_docker_rollup_as};
use espresso_raas_blueprint::docker::rollup::{
    CreateAction, CreateEvent, CreateRequest, CreateStage, CreateState, LifecycleAction,
    LifecycleEvent, RollupManager, RollupStatus,
};
use espresso_raas_blueprint::error::{ErrorKind, RaasError};
use espresso_raas_blueprint::{NetworkType, RollupConfig, RollupConfigParams};

fn address(text: &str) -> [u8; 20] {
    espresso_raas_blueprint::address::decode(text).unwrap()
}

fn params() -> RollupConfigParams {
    RollupConfigParams {
        chain_id: 42,
        initial_chain_owner: address("123456789abcdef0123456789abcdef012345678"),
        validators: vec![
            address("abcdef0123456789abcdef0123456789abcdef01"),
            address("9876543210abcdef9876543210abcdef98765432"),
        ],
        batch_poster_address: address("2468ace02468ace02468ace02468ace02468ace0"),
        batch_poster_manager: address("1357bdf91357bdf91357bdf91357bdf91357bdf9"),
        is_mainnet: false,
        network: NetworkType::Geth,
    }
}

fn config() -> RollupConfig {
    RollupConfig::from(params())
}

fn request(service_id: u64, rollup_id: &str, vm_id: &str) -> CreateRequest {
    CreateRequest {
        service_id,
        rollup_id: rollup_id.to_string(),
        vm_id: vm_id.to_string(),
        config: config(),
        workspace_dir: format!("/tmp/espresso/{}/workspace", vm_id),
        config_dir: format!("/tmp/espresso/{}/config", vm_id),
    }
}

fn deployed() -> DeploymentResult {
    DeploymentResult {
        rollup_creator_address: "0xC".to_string(),
        rollup_proxy_address: "0xP".to_string(),
        upgrade_executor_address: "0xE".to_string(),
        deployment_block: 9,
        chain_id: 42,
    }
}

fn deploy_keys() -> CreateEvent {
    CreateEvent::DeployKeys {
        private_key: Some("pk".to_string()),
        arbiscan_api_key: Some("api".to_string()),
        arbitrum_rpc_url: Some("http://rpc".to_string()),
    }
}

fn node_keys() -> CreateEvent {
    CreateEvent::NodeKeys {
        validator_key: Some("vk".to_string()),
        batch_poster_key: Some("bk".to_string()),
    }
}

fn status(manager: &RollupManager, id: &str) -> RollupStatus {
    manager.get_rollup_status(id).unwrap()
}

fn failure(action: LifecycleAction) -> RaasError {
    match action {
        LifecycleAction::Fail(error) => error,
        other => panic!("expected a failure, got {:?}", other),
    }
}

fn refusal(action: CreateAction) -> RaasError {
    match action {
        CreateAction::Fail(error) => error,
        other => panic!("expected a failure, got {:?}", other),
    }
}

/// Creates the rollup `id` and leaves it `Created`.
fn created(manager: &mut RollupManager, service_id: u64, id: &str, vm_id: &str) {
    let (state, action) = manager.create_rollup(
        CreateState::new(),
        CreateEvent::Request(request(service_id, id, vm_id)),
    );
    assert!(matches!(action, CreateAction::ReadDeployKeys));
    assert_eq!(status(manager, id), RollupStatus::Creating);
    let (state, action) = manager.create_rollup(state, deploy_keys());
    assert!(matches!(action, CreateAction::Deploy(_)));
    let (state, action) = manager.create_rollup(state, CreateEvent::Deployed(deployed()));
    assert!(matches!(action, CreateAction::ReadNodeKeys));
    let (state, action) = manager.create_rollup(state, node_keys());
    assert!(matches!(action, CreateAction::GenerateConfigs(_)));
    assert_eq!(status(manager, id), RollupStatus::Creating);
    let (state, action) = manager.create_rollup(state, CreateEvent::Rendered);
    match action {
        CreateAction::Done(done) => assert_eq!(done, id),
        other => panic!("unexpected {:?}", other),
    }
    assert_eq!(state.stage, CreateStage::Finished);
    assert_eq!(status(manager, id), RollupStatus::Created);
}

/// Creates the rollup `id` and leaves it `Running`.
fn running(manager: &mut RollupManager, service_id: u64, id: &str, vm_id: &str) {
    created(manager, service_id, id, vm_id);
    assert!(matches!(
        manager.start_rollup(id, &LifecycleEvent::Requested),
        LifecycleAction::Start(_)
    ));
    assert!(matches!(manager.start_rollup(id, &LifecycleEvent::Succeeded), LifecycleAction::Done));
    assert_eq!(status(manager, id), RollupStatus::Running);
}

#[test]
fn test_rollup_creation() {
    let mut manager = RollupManager::new();
    let service_id = 7;
    // The request is turned into the beginning of a setting up.
    let begin = create_docker_rollup(service_id, params());
    let (rollup_id, vm_id) = match &begin {
        SetupEvent::Begin { service_id: s, rollup_id, vm_id, config } => {
            assert_eq!(*s, service_id);
            assert_eq!(config.chain_id, 42);
            (rollup_id.clone(), vm_id.clone())
        }
        other => panic!("unexpected {:?}", other),
    };
    assert!(!rollup_id.is_empty());
    println!("Rollup ID: {}", rollup_id);
    // The directories are made, then the rollup is created.
    let (state, action) = create_rollup(&mut manager, SetupState::new(), begin);
    match action {
        SetupAction::CreateDirectory(path) => {
            assert_eq!(path.base, format!("/tmp/espresso/{}/workspace", vm_id));
            assert_eq!(path.relative, "");
        }
        other => panic!("unexpected {:?}", other),
    }
    let done = || SetupEvent::Directory(espresso_raas_blueprint::host::Reply::Done(String::new()));
    let (state, action) = create_rollup(&mut manager, state, done());
    match action {
        SetupAction::CreateDirectory(path) => {
            assert_eq!(path.base, format!("/tmp/espresso/{}/config", vm_id))
        }
        other => panic!("unexpected {:?}", other),
    }
    assert!(manager.get_rollup(&rollup_id).is_none());
    let (state, action) = create_rollup(&mut manager, state, done());
    assert!(matches!(action, SetupAction::Create(CreateAction::ReadDeployKeys)));
    assert_eq!(status(&manager, &rollup_id), RollupStatus::Creating);
    let (state, action) = create_rollup(&mut manager, state, SetupEvent::Create(deploy_keys()));
    match action {
        SetupAction::Create(CreateAction::Deploy(deployment)) => {
            assert_eq!(deployment.chain_id, 42);
            assert_eq!(
                deployment.initial_chain_owner,
                "0x123456789abcdef0123456789abcdef012345678"
            );
            assert_eq!(deployment.validators[0], "0xabcdef0123456789abcdef0123456789abcdef01");
            assert_eq!(deployment.validators[1], "0x9876543210abcdef9876543210abcdef98765432");
            assert_eq!(
                deployment.batch_poster_address,
                "0x2468ace02468ace02468ace02468ace02468ace0"
            );
            assert_eq!(
                deployment.batch_poster_manager,
                "0x1357bdf91357bdf91357bdf91357bdf91357bdf9"
            );
            assert_eq!(deployment.workspace_dir, format!("/tmp/espresso/{}/workspace", vm_id));
            assert_eq!(deployment.private_key, "pk");
            assert_eq!(deployment.arbiscan_api_key, "api");
        }
        other => panic!("unexpected {:?}", other),
    }
    let (state, action) =
        create_rollup(&mut manager, state, SetupEvent::Create(CreateEvent::Deployed(deployed())));
    assert!(matches!(action, SetupAction::Create(CreateAction::ReadNodeKeys)));
    let (state, action) = create_rollup(&mut manager, state, SetupEvent::Create(node_keys()));
    assert!(matches!(action, SetupAction::Create(CreateAction::GenerateConfigs(_))));
    let (state, action) =
        create_rollup(&mut manager, state, SetupEvent::Create(CreateEvent::Rendered));
    assert!(matches!(action, SetupAction::Done(true)));
    assert_eq!(state.stage, SetupStage::Finished);
    assert_eq!(status(&manager, &rollup_id), RollupStatus::Created);
    // The rollup is started.
    let action = start_rollup(&mut manager, &rollup_id, &LifecycleEvent::Requested);
    match action {
        LifecycleAction::Start(node) => assert_eq!(node.vm_id(), vm_id),
        other => panic!("unexpected {:?}", other),
    }
    assert_eq!(status(&manager, &rollup_id), RollupStatus::Starting);
    assert!(matches!(
        start_rollup(&mut manager, &rollup_id, &LifecycleEvent::Succeeded),
        LifecycleAction::Done
    ));
    assert_eq!(status(&manager, &rollup_id), RollupStatus::Running);
    let record = manager.get_rollup_by_service_id(service_id).unwrap();
    assert_eq!(record.service_id, service_id);
    assert_eq!(record.rollup_id, rollup_id);
}

#[test]
fn new_rollups_get_identifiers_of_their_own() {
    let first = create_docker_rollup(1, params());
    let second = create_docker_rollup(1, params());
    match (first, second) {
        (
            SetupEvent::Begin { rollup_id: a, vm_id: va, .. },
            SetupEvent::Begin { rollup_id: b, vm_id: vb, .. },
        ) => {
            assert_ne!(a, b);
            assert_eq!(a.chars().count(), 36);
            assert_eq!(b.chars().count(), 36);
            assert_eq!(va, format!("docker-rollup-1-{}", a));
            assert_eq!(vb, format!("docker-rollup-1-{}", b));
        }
        other => panic!("unexpected {:?}", other),
    }
    match create_docker_rollup_as(18446744073709551615, params(), "abc".to_string()) {
        SetupEvent::Begin { service_id, rollup_id, vm_id, config } => {
            assert_eq!(service_id, u64::MAX);
            assert_eq!(rollup_id, "abc");
            assert_eq!(vm_id, "docker-rollup-18446744073709551615-abc");
            assert_eq!(config.validators.len(), 2);
        }
        other => panic!("unexpected {:?}", other),
    }
}

#[test]
fn a_record_is_made_at_the_time_of_the_call() {
    let mut manager = RollupManager::new();
    let (_, action) =
        manager.create_rollup(CreateState::new(), CreateEvent::Request(request(1, "r1", "vm1")));
    assert!(matches!(action, CreateAction::ReadDeployKeys));
    let record = manager.get_rollup("r1").unwrap();
    let made = chrono::DateTime::parse_from_rfc3339(&record.created_at).unwrap();
    let age = chrono::Utc::now().signed_duration_since(made);
    assert!(age.num_seconds().abs() < 60);

    let (_, action) = manager.create_rollup_at(
        CreateState::new(),
        CreateEvent::Request(request(1, "r2", "vm2")),
        "2024-01-02T03:04:05+00:00".to_string(),
    );
    assert!(matches!(action, CreateAction::ReadDeployKeys));
    let record = manager.get_rollup("r2").unwrap();
    assert_eq!(record.created_at, "2024-01-02T03:04:05+00:00");
    assert_eq!(record.status, RollupStatus::Creating);
    assert_eq!(record.workspace_dir, "/tmp/espresso/vm2/workspace");
    assert_eq!(record.config_dir, "/tmp/espresso/vm2/config");
    assert_eq!(record.vm_id, "vm2");
    assert_eq!(record.service_id, 1);
    assert_eq!(record.config.chain_id, 42);
}

#[test]
fn a_second_record_under_the_same_identifier_is_refused() {
    let mut manager = RollupManager::new();
    created(&mut manager, 1, "r1", "vm1");
    let (state, action) =
        manager.create_rollup(CreateState::new(), CreateEvent::Request(request(2, "r1", "vm9")));
    let error = refusal(action);
    assert_eq!(error.kind, ErrorKind::Precondition);
    assert_eq!(error.message, "Rollup already exists");
    assert_eq!(state.stage, CreateStage::Failed);
    let (_, action) =
        manager.create_rollup(CreateState::new(), CreateEvent::Request(request(2, "r9", "vm1")));
    assert_eq!(refusal(action).message, "Instance already exists");
    assert_eq!(manager.list_rollups().len(), 1);
    assert_eq!(status(&manager, "r1"), RollupStatus::Created);
}

#[test]
fn a_failed_deployment_leaves_the_record_failed() {
    let mut manager = RollupManager::new();
    let (state, _) =
        manager.create_rollup(CreateState::new(), CreateEvent::Request(request(1, "r1", "vm1")));
    let (state, _) = manager.create_rollup(state, deploy_keys());
    let error = DeployError {
        step: DeployStep::DeployContracts,
        error: RaasError::new(ErrorKind::Process, "Deployment failed: out of gas"),
    };
    let (state, action) = manager.create_rollup(state, CreateEvent::DeployFailed(error));
    let error = refusal(action);
    assert_eq!(error.kind, ErrorKind::Process);
    assert_eq!(
        error.message,
        "Failed to deploy contracts: step 6: Deployment failed: out of gas"
    );
    assert_eq!(
        status(&manager, "r1"),
        RollupStatus::Failed(
            "Contract deployment failed: step 6: Deployment failed: out of gas".to_string()
        )
    );
    assert_eq!(
        status(&manager, "r1").to_string(),
        "Failed: Contract deployment failed: step 6: Deployment failed: out of gas"
    );
    assert_eq!(state.stage, CreateStage::Failed);
    let (_, action) = manager.create_rollup(state, node_keys());
    assert!(matches!(action, CreateAction::Halt));
}

#[test]
fn a_failed_rendering_leaves_the_record_failed() {
    let mut manager = RollupManager::new();
    let (state, _) =
        manager.create_rollup(CreateState::new(), CreateEvent::Request(request(1, "r1", "vm1")));
    let (state, _) = manager.create_rollup(state, deploy_keys());
    let (state, _) = manager.create_rollup(state, CreateEvent::Deployed(deployed()));
    let (state, action) = manager.create_rollup(state, node_keys());
    match action {
        CreateAction::GenerateConfigs(generator) => {
            let shown = format!("{:?}", generator);
            assert!(shown.contains("rollup_address: \"0xP\""));
            assert!(shown.contains("upgrade_executor_address: \"0xE\""));
            assert!(shown.contains("deployment_block: 9"));
            assert!(shown.contains("chain_id: 42"));
            assert!(shown.contains("validator_key: \"vk\""));
            assert!(shown.contains("batch_poster_key: \"bk\""));
            assert!(shown.contains("arbitrum_rpc_url: \"http://rpc\""));
            assert!(shown.contains("config_dir: \"/tmp/espresso/vm1/config\""));
        }
        other => panic!("unexpected {:?}", other),
    }
    let (_, action) =
        manager.create_rollup(state, CreateEvent::RenderFailed("disk full".to_string()));
    let error = refusal(action);
    assert_eq!(error.kind, ErrorKind::Io);
    assert_eq!(error.message, "Failed to generate config files: disk full");
    assert_eq!(
        status(&manager, "r1"),
        RollupStatus::Failed("Config generation failed: disk full".to_string())
    );
}

#[test]
fn a_missing_key_ends_the_creation() {
    let names = [
        (None, Some("a"), Some("u"), "DEPLOYER_PRIVATE_KEY"),
        (Some("p"), None, Some("u"), "ARBISCAN_API_KEY"),
        (Some("p"), Some("a"), None, "ARBITRUM_RPC_URL"),
        (None, None, None, "DEPLOYER_PRIVATE_KEY"),
    ];
    for (private_key, api_key, url, name) in names {
        let mut manager = RollupManager::new();
        let (state, _) = manager
            .create_rollup(CreateState::new(), CreateEvent::Request(request(1, "r1", "vm1")));
        let (state, action) = manager.create_rollup(
            state,
            CreateEvent::DeployKeys {
                private_key: private_key.map(String::from),
                arbiscan_api_key: api_key.map(String::from),
                arbitrum_rpc_url: url.map(String::from),
            },
        );
        let error = refusal(action);
        assert_eq!(error.kind, ErrorKind::Configuration);
        assert_eq!(error.message, format!("{} environment variable not set", name));
        assert_eq!(state.stage, CreateStage::Failed);
        assert_eq!(
            status(&manager, "r1"),
            RollupStatus::Failed(format!("{} environment variable not set", name))
        );
    }
    for (validator, poster, name) in [
        (None, Some("b"), "VALIDATOR_PRIVATE_KEY"),
        (Some("v"), None, "BATCH_POSTER_PRIVATE_KEY"),
    ] {
        let mut manager = RollupManager::new();
        let (state, _) = manager
            .create_rollup(CreateState::new(), CreateEvent::Request(request(1, "r1", "vm1")));
        let (state, _) = manager.create_rollup(state, deploy_keys());
        let (state, _) = manager.create_rollup(state, CreateEvent::Deployed(deployed()));
        let (_, action) = manager.create_rollup(
            state,
            CreateEvent::NodeKeys {
                validator_key: validator.map(String::from),
                batch_poster_key: poster.map(String::from),
            },
        );
        assert_eq!(refusal(action).message, format!("{} environment variable not set", name));
        assert_eq!(
            status(&manager, "r1"),
            RollupStatus::Failed(format!("{} environment variable not set", name))
        );
    }
}

#[test]
fn an_event_out_of_turn_ends_the_creation() {
    let mut manager = RollupManager::new();
    let (state, action) = manager.create_rollup(CreateState::new(), CreateEvent::Rendered);
    assert_eq!(refusal(action).message, "The event does not answer the request");
    assert_eq!(state.stage, CreateStage::Failed);
    assert!(manager.list_rollups().is_empty());
    let (state, _) =
        manager.create_rollup(CreateState::new(), CreateEvent::Request(request(1, "r1", "vm1")));
    let (_, action) = manager.create_rollup(state, node_keys());
    assert_eq!(refusal(action).kind, ErrorKind::Precondition);
    assert_eq!(
        status(&manager, "r1"),
        RollupStatus::Failed("The event does not answer the request".to_string())
    );
}

#[test]
fn start_runs_a_created_or_stopped_rollup() {
    let mut manager = RollupManager::new();
    created(&mut manager, 1, "r1", "vm1");
    match manager.start_rollup("r1", &LifecycleEvent::Requested) {
        LifecycleAction::Start(node) => {
            assert_eq!(node.vm_id(), "vm1");
            assert!(!node.is_started());
        }
        other => panic!("unexpected {:?}", other),
    }
    assert_eq!(status(&manager, "r1"), RollupStatus::Starting);
    assert!(matches!(
        manager.start_rollup("r1", &LifecycleEvent::Succeeded),
        LifecycleAction::Done
    ));
    assert_eq!(status(&manager, "r1"), RollupStatus::Running);
    // A running rollup cannot be started.
    let error = failure(manager.start_rollup("r1", &LifecycleEvent::Requested));
    assert_eq!(error.kind, ErrorKind::Precondition);
    assert_eq!(error.message, "Rollup cannot be started while it is Running");
    assert_eq!(status(&manager, "r1"), RollupStatus::Running);
    // Once stopped, it can be started again.
    assert!(matches!(
        manager.stop_rollup("r1", &LifecycleEvent::Requested),
        LifecycleAction::Stop(_)
    ));
    assert_eq!(status(&manager, "r1"), RollupStatus::Stopping);
    assert!(matches!(manager.stop_rollup("r1", &LifecycleEvent::Succeeded), LifecycleAction::Done));
    assert_eq!(status(&manager, "r1"), RollupStatus::Stopped);
    assert!(matches!(
        manager.start_rollup("r1", &LifecycleEvent::Requested),
        LifecycleAction::Start(_)
    ));
}

#[test]
fn a_failed_start_leaves_the_record_failed() {
    let mut manager = RollupManager::new();
    created(&mut manager, 1, "r1", "vm1");
    manager.start_rollup("r1", &LifecycleEvent::Requested);
    let error =
        failure(manager.start_rollup("r1", &LifecycleEvent::Failed("no daemon".to_string())));
    assert_eq!(error.kind, ErrorKind::Infrastructure);
    assert_eq!(error.message, "no daemon");
    assert_eq!(status(&manager, "r1"), RollupStatus::Failed("no daemon".to_string()));
    // A failed rollup is not started again.
    let error = failure(manager.start_rollup("r1", &LifecycleEvent::Requested));
    assert_eq!(error.message, "Rollup cannot be started while it is Failed: no daemon");
}

#[test]
fn stop_is_refused_unless_the_rollup_runs() {
    let mut manager = RollupManager::new();
    created(&mut manager, 1, "r1", "vm1");
    let error = failure(manager.stop_rollup("r1", &LifecycleEvent::Requested));
    assert_eq!(error.kind, ErrorKind::Precondition);
    assert_eq!(error.message, "Rollup cannot be stopped while it is Created");
    assert_eq!(status(&manager, "r1"), RollupStatus::Created);
    // A report that nothing asked for changes nothing.
    assert!(matches!(manager.stop_rollup("r1", &LifecycleEvent::Succeeded), LifecycleAction::Done));
    assert_eq!(status(&manager, "r1"), RollupStatus::Created);
    assert!(matches!(
        manager.start_rollup("r1", &LifecycleEvent::Succeeded),
        LifecycleAction::Done
    ));
    assert_eq!(status(&manager, "r1"), RollupStatus::Created);
}

#[test]
fn a_node_without_containers_is_taken_down_by_its_name() {
    let mut manager = RollupManager::new();
    running(&mut manager, 1, "r1", "vm1");
    let node = match manager.stop_rollup("r1", &LifecycleEvent::Requested) {
        LifecycleAction::Stop(node) => node,
        other => panic!("unexpected {:?}", other),
    };
    // The node was not brought up through this value: it knows no container
    // and asks for the network to be removed.
    let (stage, action) = node.stop(StopStage::Idle, &DockerReply::Done);
    assert_eq!(stage, StopStage::RemovingNetwork);
    match action {
        DockerAction::Ask(DockerRequest::RemoveNetwork { name }) => {
            assert_eq!(name, "network-espresso-vm1")
        }
        other => panic!("unexpected {:?}", other),
    }
    // The network is in use, so the command line takes the project down.
    let (stage, action) = node.stop(stage, &DockerReply::Failed("network in use".to_string()));
    assert_eq!(stage, StopStage::FallingBack);
    match action {
        DockerAction::Ask(DockerRequest::Run { command }) => assert_eq!(
            command.args,
            vec!["-f", "/tmp/espresso/vm1/workspace/docker-compose.yml", "-p", "espresso-vm1", "down"]
        ),
        other => panic!("unexpected {:?}", other),
    }
    let (stage, action) = node.stop(
        stage,
        &DockerReply::Exited { success: true, stdout: String::new(), stderr: String::new() },
    );
    assert_eq!(stage, StopStage::Finished);
    assert!(matches!(action, DockerAction::Finish(_)));
    assert!(matches!(
        stop_rollup(&mut manager, "r1", &LifecycleEvent::Succeeded),
        LifecycleAction::Done
    ));
    assert_eq!(status(&manager, "r1"), RollupStatus::Stopped);
}

#[test]
fn a_failed_fallback_fails_the_stop_and_the_record() {
    let mut manager = RollupManager::new();
    running(&mut manager, 1, "r1", "vm1");
    let node = match manager.stop_rollup("r1", &LifecycleEvent::Requested) {
        LifecycleAction::Stop(node) => node,
        other => panic!("unexpected {:?}", other),
    };
    let (stage, _) = node.stop(StopStage::Idle, &DockerReply::Done);
    let (stage, _) = node.stop(stage, &DockerReply::Failed("network in use".to_string()));
    let (stage, action) = node.stop(
        stage,
        &DockerReply::Exited {
            success: false,
            stdout: String::new(),
            stderr: "daemon not running".to_string(),
        },
    );
    assert_eq!(stage, StopStage::Failed);
    let reason = match action {
        DockerAction::Fail(error) => error.message,
        other => panic!("unexpected {:?}", other),
    };
    let error = failure(stop_rollup(&mut manager, "r1", &LifecycleEvent::Failed(reason)));
    assert_eq!(error.kind, ErrorKind::Infrastructure);
    assert_eq!(
        error.message,
        "Failed to stop rollup: Failed to stop containers: daemon not running"
    );
    assert_eq!(
        status(&manager, "r1"),
        RollupStatus::Failed("Failed to stop containers: daemon not running".to_string())
    );
}

#[test]
fn a_failing_container_service_and_command_line_fail_the_record() {
    let mut manager = RollupManager::new();
    created(&mut manager, 1, "r1", "vm1");
    // The node is brought up.
    let mut node = match manager.start_rollup("r1", &LifecycleEvent::Requested) {
        LifecycleAction::Start(node) => node,
        other => panic!("unexpected {:?}", other),
    };
    let replies = vec![
        DockerReply::Done,
        DockerReply::Done,
        DockerReply::Text("version: \"3\"\nservices:\n  nitro:\n    image: nitro\n".to_string()),
        DockerReply::Done,
        DockerReply::Deployed(vec![ServiceContainer {
            service: "nitro".to_string(),
            container_id: "c1".to_string(),
        }]),
    ];
    let mut progress = EspressoStart::Idle;
    let mut last = None;
    for reply in replies {
        let (next, action) = node.start(progress, reply);
        progress = next;
        last = Some(action);
    }
    assert!(matches!(last, Some(DockerAction::Finish(_))));
    manager.start_rollup("r1", &LifecycleEvent::Succeeded);
    assert_eq!(status(&manager, "r1"), RollupStatus::Running);
    // The stop of its container fails, and the command line fails too.
    assert!(matches!(
        manager.stop_rollup("r1", &LifecycleEvent::Requested),
        LifecycleAction::Stop(_)
    ));
    let (stage, action) = node.stop(StopStage::Idle, &DockerReply::Done);
    assert!(matches!(action, DockerAction::Ask(_)));
    let (stage, action) = node.stop(stage, &DockerReply::Failed("no such container".to_string()));
    assert_eq!(stage, StopStage::FallingBack);
    match action {
        DockerAction::Ask(DockerRequest::Run { command }) => {
            assert_eq!(command.program, "docker-compose");
            assert_eq!(
                command.args,
                vec![
                    "-f",
                    "/tmp/espresso/vm1/workspace/docker-compose.yml",
                    "-p",
                    "espresso-vm1",
                    "down"
                ]
            );
        }
        other => panic!("unexpected {:?}", other),
    }
    let (stage, action) = node.stop(
        stage,
        &DockerReply::Exited {
            success: false,
            stdout: String::new(),
            stderr: "cannot connect".to_string(),
        },
    );
    assert_eq!(stage, StopStage::Failed);
    let reason = match action {
        DockerAction::Fail(error) => error.to_string(),
        other => panic!("unexpected {:?}", other),
    };
    assert_eq!(reason, "Failed to stop containers: cannot connect");
    let error = failure(manager.stop_rollup("r1", &LifecycleEvent::Failed(reason)));
    assert_eq!(error.message, "Failed to stop containers: cannot connect");
    assert_eq!(
        status(&manager, "r1"),
        RollupStatus::Failed("Failed to stop containers: cannot connect".to_string())
    );
}

#[test]
fn delete_removes_what_does_not_run() {
    let mut manager = RollupManager::new();
    created(&mut manager, 1, "r1", "vm1");
    created(&mut manager, 2, "r2", "vm2");
    assert!(matches!(
        manager.delete_rollup("r1", &LifecycleEvent::Requested),
        LifecycleAction::Done
    ));
    assert!(manager.get_rollup("r1").is_none());
    assert_eq!(manager.get_rollup_status("r1").unwrap_err().kind, ErrorKind::NotFound);
    assert_eq!(status(&manager, "r2"), RollupStatus::Created);
    assert_eq!(manager.list_rollups().len(), 1);
}

#[test]
fn delete_stops_a_running_rollup_first() {
    let mut manager = RollupManager::new();
    running(&mut manager, 1, "r1", "vm1");
    assert!(matches!(
        manager.delete_rollup("r1", &LifecycleEvent::Requested),
        LifecycleAction::StopFirst
    ));
    assert_eq!(status(&manager, "r1"), RollupStatus::Deleting);
    assert!(matches!(
        manager.stop_rollup("r1", &LifecycleEvent::Requested),
        LifecycleAction::Stop(_)
    ));
    assert_eq!(status(&manager, "r1"), RollupStatus::Stopping);
    assert!(matches!(manager.stop_rollup("r1", &LifecycleEvent::Succeeded), LifecycleAction::Done));
    assert_eq!(status(&manager, "r1"), RollupStatus::Stopped);
    assert!(matches!(
        manager.delete_rollup("r1", &LifecycleEvent::Succeeded),
        LifecycleAction::Done
    ));
    assert!(manager.get_rollup("r1").is_none());
}

#[test]
fn delete_keeps_the_record_when_the_stop_fails() {
    let mut manager = RollupManager::new();
    running(&mut manager, 1, "r1", "vm1");
    manager.delete_rollup("r1", &LifecycleEvent::Requested);
    manager.stop_rollup("r1", &LifecycleEvent::Requested);
    manager.stop_rollup("r1", &LifecycleEvent::Failed("stuck".to_string()));
    let error = failure(delete_rollup(&mut manager, "r1", &LifecycleEvent::Failed("stuck".to_string())));
    assert_eq!(error.message, "Failed to delete rollup: stuck");
    assert_eq!(status(&manager, "r1"), RollupStatus::Failed("stuck".to_string()));
    // A record that runs again is not removed by a late report.
    let mut manager = RollupManager::new();
    running(&mut manager, 1, "r1", "vm1");
    let error = failure(manager.delete_rollup("r1", &LifecycleEvent::Succeeded));
    assert_eq!(error.kind, ErrorKind::Precondition);
    assert_eq!(error.message, "Rollup cannot be deleted while it is Running");
    assert_eq!(status(&manager, "r1"), RollupStatus::Running);
}

#[test]
fn records_are_found_by_instance_and_by_service() {
    let mut manager = RollupManager::new();
    created(&mut manager, 10, "r1", "vm1");
    created(&mut manager, 20, "r2", "vm2");
    created(&mut manager, 10, "r3", "vm3");
    let by_id = manager.get_rollup("r2").unwrap();
    let by_vm = manager.get_rollup_by_vm_id("vm2").unwrap();
    let by_service = manager.get_rollup_by_service_id(20).unwrap();
    for record in [&by_id, &by_vm, &by_service] {
        assert_eq!(record.rollup_id, "r2");
        assert_eq!(record.vm_id, "vm2");
        assert_eq!(record.service_id, 20);
        assert_eq!(record.status, RollupStatus::Created);
    }
    assert_eq!(manager.get_rollup_by_service_id(10).unwrap().rollup_id, "r1");
    assert!(manager.get_rollup_by_vm_id("vm9").is_none());
    assert!(manager.get_rollup_by_service_id(30).is_none());
    let ids: Vec<String> = manager.list_rollups().into_iter().map(|r| r.rollup_id).collect();
    assert_eq!(ids, vec!["r1", "r2", "r3"]);
    // A snapshot is a copy.
    let mut snapshot = manager.get_rollup("r1").unwrap();
    snapshot.status = RollupStatus::Running;
    assert_eq!(status(&manager, "r1"), RollupStatus::Created);
}

#[test]
fn an_unknown_rollup_is_not_found() {
    let mut manager = RollupManager::default();
    let error = manager.get_rollup_status("nope").unwrap_err();
    assert_eq!(error.kind, ErrorKind::NotFound);
    assert_eq!(error.message, "Rollup not found");
    assert_eq!(error.to_string(), "Rollup not found");
    let error = get_rollup_status(&manager, "nope").unwrap_err();
    assert_eq!(error.kind, ErrorKind::NotFound);
    assert_eq!(error.message, "Rollup not found for rollup_id: nope");
    let error = get_rollup_status_by_vm_id(&manager, "vm-nope").unwrap_err();
    assert_eq!(error.kind, ErrorKind::NotFound);
    assert_eq!(error.message, "Rollup not found for vm_id: vm-nope");
    let requested = LifecycleEvent::Requested;
    assert_eq!(failure(manager.start_rollup("nope", &requested)).kind, ErrorKind::NotFound);
    assert_eq!(failure(manager.stop_rollup("nope", &requested)).kind, ErrorKind::NotFound);
    assert_eq!(failure(manager.delete_rollup("nope", &requested)).kind, ErrorKind::NotFound);
    for action in [
        start_rollup(&mut manager, "nope", &requested),
        stop_rollup(&mut manager, "nope", &requested),
        delete_rollup(&mut manager, "nope", &requested),
    ] {
        assert_eq!(failure(action).message, "Rollup not found for rollup_id: nope");
    }
    for action in [
        start_rollup_by_service_id(&mut manager, 5, &requested),
        stop_rollup_by_service_id(&mut manager, 5, &requested),
        delete_rollup_by_service_id(&mut manager, 5, &requested),
    ] {
        assert_eq!(failure(action).message, "Rollup not found for service_id: 5");
    }
    assert_eq!(
        manager.update_rollup_status("nope", RollupStatus::Running).unwrap_err().message,
        "Rollup not found"
    );
}

#[test]
fn helpers_say_which_operation_failed() {
    let mut manager = RollupManager::new();
    created(&mut manager, 3, "r1", "vm1");
    assert_eq!(get_rollup_status(&manager, "r1").unwrap(), "Created");
    assert_eq!(get_rollup_status_by_vm_id(&manager, "vm1").unwrap(), "Created");
    // The status is asked for by rollup, not by instance.
    assert!(get_rollup_status(&manager, "vm1").is_err());
    assert!(get_rollup_status_by_vm_id(&manager, "r1").is_err());
    let error = failure(stop_rollup(&mut manager, "r1", &LifecycleEvent::Requested));
    assert_eq!(error.kind, ErrorKind::Precondition);
    assert_eq!(error.message, "Failed to stop rollup: Rollup cannot be stopped while it is Created");
    assert!(matches!(
        start_rollup_by_service_id(&mut manager, 3, &LifecycleEvent::Requested),
        LifecycleAction::Start(_)
    ));
    let error = failure(start_rollup_by_service_id(
        &mut manager,
        3,
        &LifecycleEvent::Failed("boom".to_string()),
    ));
    assert_eq!(error.message, "Failed to start rollup: boom");
    assert_eq!(get_rollup_status(&manager, "r1").unwrap(), "Failed: boom");
    manager.update_rollup_status("r1", RollupStatus::Running).unwrap();
    assert!(matches!(
        stop_rollup_by_service_id(&mut manager, 3, &LifecycleEvent::Requested),
        LifecycleAction::Stop(_)
    ));
    assert!(matches!(
        stop_rollup_by_service_id(&mut manager, 3, &LifecycleEvent::Succeeded),
        LifecycleAction::Done
    ));
    assert!(matches!(
        delete_rollup_by_service_id(&mut manager, 3, &LifecycleEvent::Requested),
        LifecycleAction::Done
    ));
    assert!(list_rollups(&manager).is_empty());
}

#[test]
fn a_listing_shows_every_rollup_as_texts() {
    let mut manager = RollupManager::new();
    manager.create_rollup_at(
        CreateState::new(),
        CreateEvent::Request(request(12, "r1", "vm1")),
        "t1".to_string(),
    );
    manager.create_rollup_at(
        CreateState::new(),
        CreateEvent::Request(request(0, "r2", "vm2")),
        "t2".to_string(),
    );
    manager.update_rollup_status("r2", RollupStatus::Failed("why".to_string())).unwrap();
    let list = list_rollups(&manager);
    let shown: Vec<String> = list
        .iter()
        .map(|s| {
            format!("{}|{}|{}|{}|{}", s.service_id, s.rollup_id, s.vm_id, s.status, s.created_at)
        })
        .collect();
    assert_eq!(shown, vec!["12|r1|vm1|Creating|t1", "0|r2|vm2|Failed: why|t2"]);
}

#[test]
fn status_texts() {
    let texts = [
        (RollupStatus::Creating, "Creating"),
        (RollupStatus::Created, "Created"),
        (RollupStatus::Starting, "Starting"),
        (RollupStatus::Running, "Running"),
        (RollupStatus::Stopping, "Stopping"),
        (RollupStatus::Stopped, "Stopped"),
        (RollupStatus::Deleting, "Deleting"),
        (RollupStatus::Failed("x".to_string()), "Failed: x"),
    ];
    for (status, text) in texts {
        assert_eq!(status.to_string(), text);
        assert_eq!(status.clone(), status);
    }
    assert_ne!(RollupStatus::Failed("a".to_string()), RollupStatus::Failed("b".to_string()));
    assert_ne!(RollupStatus::Running, RollupStatus::Stopped);
}

#[test]
fn directories_are_named_after_the_instance() {
    assert_eq!(workspace_dir("vm1"), "/tmp/espresso/vm1/workspace");
    assert_eq!(config_dir("vm1"), "/tmp/espresso/vm1/config");
}

#[test]
fn a_directory_that_cannot_be_made_ends_the_setting_up() {
    let failed =
        |reason: &str| SetupEvent::Directory(espresso_raas_blueprint::host::Reply::Failed(reason.to_string()));
    let done = || SetupEvent::Directory(espresso_raas_blueprint::host::Reply::Done(String::new()));
    let begin = || create_docker_rollup_as(1, params(), "r1".to_string());
    let mut manager = RollupManager::new();
    let (state, _) = create_rollup_at(&mut manager, SetupState::new(), begin(), "t".to_string());
    let (state, action) = create_rollup_at(&mut manager, state, failed("denied"), "t".to_string());
    match action {
        SetupAction::Fail(error) => {
            assert_eq!(error.kind, ErrorKind::Io);
            assert_eq!(
                error.message,
                "Failed to create workspace directory /tmp/espresso/docker-rollup-1-r1/workspace: denied"
            );
        }
        other => panic!("unexpected {:?}", other),
    }
    assert_eq!(state.stage, SetupStage::Failed);
    let (_, action) = create_rollup_at(&mut manager, state, done(), "t".to_string());
    assert!(matches!(action, SetupAction::Halt));

    let (state, _) = create_rollup_at(&mut manager, SetupState::new(), begin(), "t".to_string());
    let (state, _) = create_rollup_at(&mut manager, state, done(), "t".to_string());
    let (_, action) = create_rollup_at(&mut manager, state, failed("full"), "t".to_string());
    match action {
        SetupAction::Fail(error) => assert_eq!(
            error.message,
            "Failed to create config directory /tmp/espresso/docker-rollup-1-r1/config: full"
        ),
        other => panic!("unexpected {:?}", other),
    }
    assert!(manager.list_rollups().is_empty());

    // A creation that fails is reported as the failure to create the rollup.
    let (state, _) = create_rollup_at(&mut manager, SetupState::new(), begin(), "t".to_string());
    let (state, _) = create_rollup_at(&mut manager, state, done(), "t".to_string());
    let (state, _) = create_rollup_at(&mut manager, state, done(), "t".to_string());
    let (_, action) = create_rollup_at(
        &mut manager,
        state,
        SetupEvent::Create(CreateEvent::DeployKeys {
            private_key: None,
            arbiscan_api_key: None,
            arbitrum_rpc_url: None,
        }),
        "t".to_string(),
    );
    match action {
        SetupAction::Fail(error) => {
            assert_eq!(error.kind, ErrorKind::Configuration);
            assert_eq!(
                error.message,
                "Failed to create rollup: DEPLOYER_PRIVATE_KEY environment variable not set"
            );
        }
        other => panic!("unexpected {:?}", other),
    }
}

#[test]
fn idle_states_hold_nothing() {
    let creation = CreateState::new();
    assert_eq!(creation.stage, CreateStage::Idle);
    assert_eq!(creation.rollup_id, "");
    assert_eq!(creation.workspace_dir, "");
    assert_eq!(creation.config_dir, "");
    assert_eq!(creation.rpc_url, "");
    assert!(creation.deployment.is_none());
    assert_eq!(creation.config.chain_id, 0);
    assert_eq!(creation.config.initial_chain_owner, [0u8; 20]);
    assert!(creation.config.validators.is_empty());
    assert_eq!(creation.config.batch_poster_address, [0u8; 20]);
    assert_eq!(creation.config.batch_poster_manager, [0u8; 20]);
    assert_eq!(creation.config.network, NetworkType::Geth);
    let setup = SetupState::new();
    assert_eq!(setup.stage, SetupStage::Idle);
    assert_eq!(setup.service_id, 0);
    assert_eq!(setup.rollup_id, "");
    assert_eq!(setup.vm_id, "");
    assert_eq!(setup.config.chain_id, 0);
    assert!(setup.config.validators.is_empty());
    assert_eq!(setup.creation.stage, CreateStage::Idle);
    assert_eq!(setup.creation.rpc_url, "");
    assert!(RollupManager::new().list_rollups().is_empty());
}
