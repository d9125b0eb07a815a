use espresso_raas_blueprint::docker::container::{
    DockerAction, DockerComposeManager, DockerComposeOptions, DockerReply, DockerRequest,
    QueryStage, ServiceContainer, StartStage, StopStage,
};
use espresso_raas_blueprint::docker::espresso::{EspressoDockerManager, EspressoStart};
use espresso_raas_blueprint::docker::manifest::{parse, scope};
use espresso_raas_blueprint::error::ErrorKind;
use espresso_raas_blueprint::host::FilePath;

const MANIFEST: &str = "version: \"3.8\"\n\
services:\n\
\x20 nitro:\n\
\x20   image: \"nitro:latest\"\n\
\x20   networks:\n\
\x20     - other\n\
\x20   ports:\n\
\x20     - \"8547:8547\"\n\
\x20 validator:\n\
\x20   image: \"validator:latest\"\n\
\x20   labels:\n\
\x20     old: label\n";

fn options() -> DockerComposeOptions {
    DockerComposeOptions {
        compose_file_path: FilePath::new("/ws", "docker-compose.yml"),
        config_dir: "/cfg".to_string(),
        project_name: "espresso-vm1".to_string(),
    }
}

fn container(service: &str, id: &str) -> ServiceContainer {
    ServiceContainer { service: service.to_string(), container_id: id.to_string() }
}

fn show(action: &DockerAction) -> String {
    match action {
        DockerAction::Ask(request) => match request {
            DockerRequest::Connect => "connect".to_string(),
            DockerRequest::ReadManifest { path } => {
                format!("read {}|{}", path.base, path.relative)
            }
            DockerRequest::CreateNetwork { name, attempts, backoff_secs, label, value } => {
                format!("network {} {}x{}s {}={}", name, attempts, backoff_secs, label, value)
            }
            DockerRequest::Deploy { config } => {
                let mut names: Vec<&String> = config.services.keys().collect();
                names.sort();
                format!("deploy {:?} version {}", names, config.version)
            }
            DockerRequest::StopContainer { container_id } => format!("stop {}", container_id),
            DockerRequest::RemoveContainer { container_id } => format!("remove {}", container_id),
            DockerRequest::RemoveNetwork { name } => format!("remove network {}", name),
            DockerRequest::Inspect { container_id } => format!("inspect {}", container_id),
            DockerRequest::Logs { container_id } => format!("logs {}", container_id),
            DockerRequest::Exec { container_id, argv } => format!("exec {} {:?}", container_id, argv),
            DockerRequest::Run { command } => {
                format!("run {} {:?} dir {}", command.program, command.args, command.dir.is_some())
            }
        },
        DockerAction::Finish(text) => format!("finish {:?}", text),
        DockerAction::Fail(error) => format!("fail {:?} {}", error.kind, error.message),
        DockerAction::Halt => "halt".to_string(),
    }
}

fn started() -> DockerComposeManager {
    let mut manager = DockerComposeManager::new(options());
    let (stage, _) = manager.start_containers(StartStage::Idle, DockerReply::Done);
    let (stage, _) = manager.start_containers(stage, DockerReply::Text(MANIFEST.to_string()));
    let (stage, _) = manager.start_containers(stage, DockerReply::Done);
    let (stage, action) = manager.start_containers(
        stage,
        DockerReply::Deployed(vec![container("nitro", "c1"), container("validator", "c2")]),
    );
    assert!(matches!(stage, StartStage::Finished));
    assert_eq!(show(&action), "finish \"\"");
    manager
}

#[test]
fn scope_attaches_every_service_to_the_network() {
    let mut config = parse(MANIFEST).unwrap();
    assert_eq!(config.version, "3.8");
    scope(&mut config, "network-p", "project", "p", "3");
    assert_eq!(config.version, "3");
    assert_eq!(config.services.len(), 2);
    for (name, service) in &config.services {
        assert_eq!(service.networks, Some(vec!["network-p".to_string()]), "for {}", name);
        let labels = service.labels.as_ref().unwrap();
        assert_eq!(labels.len(), 1);
        assert_eq!(labels.get("project"), Some(&"p".to_string()));
    }
    assert_eq!(config.services["nitro"].image, Some("nitro:latest".to_string()));
    assert_eq!(config.services["nitro"].ports, Some(vec!["8547:8547".to_string()]));
    assert_eq!(config.services["validator"].image, Some("validator:latest".to_string()));
    assert!(config.services["validator"].ports.is_none());
}

#[test]
fn parse_refuses_what_is_no_manifest() {
    let error = parse("services: [").unwrap_err();
    assert_eq!(error.kind, ErrorKind::Parse);
    assert!(error.message.starts_with("Failed to parse compose file: "));
    assert!(error.message.len() > "Failed to parse compose file: ".len());
}

#[test]
fn containers_are_brought_up_in_four_requests() {
    let mut manager = DockerComposeManager::new(options());
    assert!(manager.containers().is_empty());
    let (stage, action) = manager.start_containers(StartStage::Idle, DockerReply::Done);
    assert_eq!(show(&action), "read /ws|docker-compose.yml");
    let (stage, action) = manager.start_containers(stage, DockerReply::Text(MANIFEST.to_string()));
    assert_eq!(show(&action), "network network-espresso-vm1 3x2s project=espresso-vm1");
    match &stage {
        StartStage::CreatingNetwork { config } => {
            for service in config.services.values() {
                assert_eq!(service.networks, Some(vec!["network-espresso-vm1".to_string()]));
                assert_eq!(
                    service.labels.as_ref().unwrap().get("project"),
                    Some(&"espresso-vm1".to_string())
                );
            }
        }
        other => panic!("unexpected stage {:?}", other),
    }
    let (stage, action) = manager.start_containers(stage, DockerReply::Done);
    assert_eq!(show(&action), "deploy [\"nitro\", \"validator\"] version 3");
    let (stage, action) = manager.start_containers(
        stage,
        DockerReply::Deployed(vec![
            container("nitro", "c1"),
            container("validator", "c2"),
            container("nitro", "c3"),
        ]),
    );
    assert_eq!(show(&action), "finish \"\"");
    assert_eq!(manager.container_id("nitro"), Some("c3".to_string()));
    assert_eq!(manager.container_id("validator"), Some("c2".to_string()));
    assert_eq!(manager.container_id("other"), None);
    assert_eq!(manager.containers().len(), 2);
    let (stage, action) = manager.start_containers(stage, DockerReply::Done);
    assert!(matches!(stage, StartStage::Finished));
    assert_eq!(show(&action), "halt");
}

#[test]
fn bringing_up_fails_at_the_first_failure() {
    let cases: Vec<(Vec<DockerReply>, &str)> = vec![
        (
            vec![DockerReply::Missing],
            "fail NotFound Docker compose file not found at /ws/docker-compose.yml",
        ),
        (vec![DockerReply::Failed("denied".to_string())], "fail Io denied"),
        (vec![DockerReply::Done], "fail Precondition The reply does not answer the request"),
        (
            vec![DockerReply::Text(MANIFEST.to_string()), DockerReply::Failed("taken".to_string())],
            "fail Infrastructure Failed to create network: taken",
        ),
        (
            vec![
                DockerReply::Text(MANIFEST.to_string()),
                DockerReply::Done,
                DockerReply::Failed("no image".to_string()),
            ],
            "fail Infrastructure Failed to deploy compose configuration: no image",
        ),
    ];
    for (replies, expected) in cases {
        let mut manager = DockerComposeManager::new(options());
        let (mut stage, mut action) = manager.start_containers(StartStage::Idle, DockerReply::Done);
        for reply in replies {
            let next = manager.start_containers(stage, reply);
            stage = next.0;
            action = next.1;
        }
        assert_eq!(show(&action), expected);
        assert!(matches!(stage, StartStage::Failed));
        assert!(manager.containers().is_empty());
    }
    let mut manager = DockerComposeManager::new(options());
    let (stage, _) = manager.start_containers(StartStage::Idle, DockerReply::Done);
    let (stage, action) = manager.start_containers(stage, DockerReply::Text(": : :".to_string()));
    assert!(matches!(stage, StartStage::Failed));
    assert!(show(&action).starts_with("fail Parse Failed to parse compose file: "));
}

#[test]
fn containers_are_stopped_and_removed_one_by_one() {
    let manager = started();
    let mut asked = Vec::new();
    let (mut stage, action) = manager.stop_containers(StopStage::Idle, &DockerReply::Done);
    asked.push(show(&action));
    for _ in 0..5 {
        let next = manager.stop_containers(stage, &DockerReply::Done);
        stage = next.0;
        asked.push(show(&next.1));
    }
    assert_eq!(
        asked,
        vec![
            "stop c1",
            "remove c1",
            "stop c2",
            "remove c2",
            "remove network network-espresso-vm1",
            "finish \"\"",
        ]
    );
    assert_eq!(stage, StopStage::Finished);
    assert_eq!(show(&manager.stop_containers(stage, &DockerReply::Done).1), "halt");
}

#[test]
fn a_failing_service_leaves_the_rest_to_the_command_line() {
    let manager = started();
    let down = "run docker-compose [\"-f\", \"/ws/docker-compose.yml\", \"-p\", \"espresso-vm1\", \"down\"] dir false";
    let failed = DockerReply::Failed("no such container".to_string());
    // The stop of the first container fails.
    let (stage, _) = manager.stop_containers(StopStage::Idle, &DockerReply::Done);
    let (stage, action) = manager.stop_containers(stage, &failed);
    assert_eq!(stage, StopStage::FallingBack);
    assert_eq!(show(&action), down);
    // The removal of the second container fails.
    let (stage, action) = manager.stop_containers(StopStage::Removing(1), &failed);
    assert_eq!(stage, StopStage::FallingBack);
    assert_eq!(show(&action), down);
    // The removal of the network fails.
    let (stage, action) = manager.stop_containers(StopStage::RemovingNetwork, &failed);
    assert_eq!(stage, StopStage::FallingBack);
    assert_eq!(show(&action), down);
    // The command line succeeds.
    let (ended, action) = manager.stop_containers(
        stage,
        &DockerReply::Exited { success: true, stdout: String::new(), stderr: String::new() },
    );
    assert_eq!(ended, StopStage::Finished);
    assert_eq!(show(&action), "finish \"\"");
    // The command line fails too.
    let (ended, action) = manager.stop_containers(
        stage,
        &DockerReply::Exited {
            success: false,
            stdout: String::new(),
            stderr: "daemon not running".to_string(),
        },
    );
    assert_eq!(ended, StopStage::Failed);
    assert_eq!(show(&action), "fail Infrastructure Failed to stop containers: daemon not running");
    let (ended, action) =
        manager.stop_containers(stage, &DockerReply::Failed("no docker-compose".to_string()));
    assert_eq!(ended, StopStage::Failed);
    assert_eq!(show(&action), "fail Io no docker-compose");
}

#[test]
fn a_project_without_containers_only_loses_its_network() {
    let manager = DockerComposeManager::new(options());
    let (stage, action) = manager.stop_containers(StopStage::Idle, &DockerReply::Done);
    assert_eq!(stage, StopStage::RemovingNetwork);
    assert_eq!(show(&action), "remove network network-espresso-vm1");
    let (stage, action) = manager.stop_containers(StopStage::Stopping(0), &DockerReply::Done);
    assert_eq!(stage, StopStage::Failed);
    assert_eq!(show(&action), "fail Precondition The reply does not answer the request");
}

#[test]
fn status_is_asked_of_the_known_container() {
    let manager = started();
    let (stage, action) = manager.get_service_status("nitro", QueryStage::Idle, &DockerReply::Done);
    assert_eq!((stage, show(&action)), (QueryStage::Asked, "inspect c1".to_string()));
    let replies = vec![
        (DockerReply::Text("running".to_string()), "finish \"running\""),
        (DockerReply::Done, "fail Infrastructure Could not determine container status"),
        (
            DockerReply::Failed("gone".to_string()),
            "fail Infrastructure Failed to inspect container: gone",
        ),
        (DockerReply::Missing, "fail Precondition The reply does not answer the request"),
    ];
    for (reply, expected) in replies {
        let (stage, action) = manager.get_service_status("nitro", QueryStage::Asked, &reply);
        assert_eq!((stage, show(&action)), (QueryStage::Finished, expected.to_string()));
    }
    let (stage, action) = manager.get_service_status("ghost", QueryStage::Idle, &DockerReply::Done);
    assert_eq!(
        (stage, show(&action)),
        (QueryStage::Finished, "fail NotFound Container ID not found for service ghost".to_string())
    );
    let (_, action) = manager.get_service_status("nitro", QueryStage::Finished, &DockerReply::Done);
    assert_eq!(show(&action), "halt");
}

#[test]
fn logs_come_from_the_service_or_from_the_command_line() {
    let manager = started();
    let (_, action) = manager.get_service_logs("nitro", QueryStage::Idle, &DockerReply::Done);
    assert_eq!(show(&action), "logs c1");
    let (_, action) =
        manager.get_service_logs("nitro", QueryStage::Asked, &DockerReply::Text("l1".to_string()));
    assert_eq!(show(&action), "finish \"l1\"");
    let (_, action) =
        manager.get_service_logs("nitro", QueryStage::Asked, &DockerReply::Failed("x".to_string()));
    assert_eq!(show(&action), "fail Infrastructure Failed to get container logs: x");

    let (_, action) = manager.get_service_logs("ghost", QueryStage::Idle, &DockerReply::Done);
    assert_eq!(
        show(&action),
        "run docker-compose [\"-f\", \"/ws/docker-compose.yml\", \"-p\", \"espresso-vm1\", \"logs\", \"ghost\"] dir false"
    );
    let (_, action) = manager.get_service_logs(
        "ghost",
        QueryStage::Asked,
        &DockerReply::Exited { success: true, stdout: "out".to_string(), stderr: String::new() },
    );
    assert_eq!(show(&action), "finish \"out\"");
    let (_, action) = manager.get_service_logs(
        "ghost",
        QueryStage::Asked,
        &DockerReply::Exited { success: false, stdout: String::new(), stderr: "e".to_string() },
    );
    assert_eq!(show(&action), "fail Process Failed to get logs for service ghost");
    let (_, action) =
        manager.get_service_logs("ghost", QueryStage::Asked, &DockerReply::Failed("x".to_string()));
    assert_eq!(show(&action), "fail Io x");
    let (_, action) =
        manager.get_service_logs("ghost", QueryStage::Asked, &DockerReply::Text("t".to_string()));
    assert_eq!(show(&action), "fail Precondition The reply does not answer the request");
}

#[test]
fn commands_run_in_the_known_container() {
    let manager = started();
    let command = vec!["ls".to_string(), "-l".to_string()];
    let (_, action) = manager.exec_command("validator", &command, QueryStage::Idle, &DockerReply::Done);
    assert_eq!(show(&action), "exec c2 [\"ls\", \"-l\"]");
    let (_, action) = manager.exec_command(
        "validator",
        &command,
        QueryStage::Asked,
        &DockerReply::Text("total 0".to_string()),
    );
    assert_eq!(show(&action), "finish \"total 0\"");
    let (_, action) = manager.exec_command(
        "validator",
        &command,
        QueryStage::Asked,
        &DockerReply::Failed("denied".to_string()),
    );
    assert_eq!(show(&action), "fail Infrastructure Failed to execute command: denied");
    let (_, action) = manager.exec_command("ghost", &command, QueryStage::Idle, &DockerReply::Done);
    assert_eq!(show(&action), "fail NotFound Container ID not found for service ghost");
}

fn started_node() -> EspressoDockerManager {
    let mut node = EspressoDockerManager::new("/ws", "/cfg", "vm1");
    let (progress, action) = node.start(EspressoStart::Idle, DockerReply::Done);
    assert_eq!(show(&action), "connect");
    let (progress, action) = node.start(progress, DockerReply::Done);
    assert_eq!(show(&action), "read /ws|docker-compose.yml");
    let (progress, action) = node.start(progress, DockerReply::Text(MANIFEST.to_string()));
    assert_eq!(show(&action), "network network-espresso-vm1 3x2s project=espresso-vm1");
    assert!(!node.is_started());
    let (progress, action) = node.start(progress, DockerReply::Done);
    assert_eq!(show(&action), "deploy [\"nitro\", \"validator\"] version 3");
    let (progress, action) =
        node.start(progress, DockerReply::Deployed(vec![container("nitro", "n1")]));
    assert_eq!(show(&action), "finish \"\"");
    assert!(matches!(progress, EspressoStart::Finished));
    assert!(node.is_started());
    node
}

#[test]
fn a_node_keeps_its_containers_once_they_are_up() {
    let node = started_node();
    assert_eq!(node.vm_id(), "vm1");
    let (_, action) = node.get_status(QueryStage::Idle, &DockerReply::Done);
    assert_eq!(show(&action), "inspect n1");
    let (_, action) = node.get_logs(QueryStage::Idle, &DockerReply::Done);
    assert_eq!(show(&action), "logs n1");
    let (_, action) =
        node.exec_command(&vec!["date".to_string()], QueryStage::Idle, &DockerReply::Done);
    assert_eq!(show(&action), "exec n1 [\"date\"]");
    let (stage, action) = node.stop(StopStage::Idle, &DockerReply::Done);
    assert_eq!((stage, show(&action)), (StopStage::Stopping(0), "stop n1".to_string()));
}

#[test]
fn a_node_that_was_not_brought_up_works_by_its_name() {
    let node = EspressoDockerManager::new("/ws", "/cfg", "vm1");
    let not_initialized = "fail Precondition Docker compose manager not initialized";
    let (stage, action) = node.stop(StopStage::Idle, &DockerReply::Done);
    assert_eq!(
        (stage, show(&action)),
        (StopStage::RemovingNetwork, "remove network network-espresso-vm1".to_string())
    );
    let (stage, action) = node.stop(stage, &DockerReply::Failed("in use".to_string()));
    assert_eq!(stage, StopStage::FallingBack);
    assert_eq!(
        show(&action),
        "run docker-compose [\"-f\", \"/ws/docker-compose.yml\", \"-p\", \"espresso-vm1\", \"down\"] dir false"
    );
    let (stage, action) = node.get_status(QueryStage::Idle, &DockerReply::Done);
    assert_eq!((stage, show(&action)), (QueryStage::Finished, "finish \"NotRunning\"".to_string()));
    let (_, action) = node.get_logs(QueryStage::Idle, &DockerReply::Done);
    assert_eq!(
        show(&action),
        "run docker-compose [\"-f\", \"/ws/docker-compose.yml\", \"-p\", \"espresso-vm1\", \"logs\", \"nitro\"] dir false"
    );
    let (_, action) = node.exec_command(&Vec::new(), QueryStage::Idle, &DockerReply::Done);
    assert_eq!(show(&action), not_initialized);
}

#[test]
fn a_node_does_not_keep_containers_of_a_failed_start() {
    let mut node = EspressoDockerManager::new("/ws", "/cfg", "vm1");
    let (progress, _) = node.start(EspressoStart::Idle, DockerReply::Done);
    let (progress, action) = node.start(progress, DockerReply::Failed("no daemon".to_string()));
    assert_eq!(show(&action), "fail Infrastructure no daemon");
    assert!(matches!(progress, EspressoStart::Failed));
    assert_eq!(show(&node.start(progress, DockerReply::Done).1), "halt");

    let mut node = EspressoDockerManager::new("/ws", "/cfg", "vm1");
    let (progress, _) = node.start(EspressoStart::Idle, DockerReply::Done);
    let (progress, _) = node.start(progress, DockerReply::Done);
    let (progress, action) = node.start(progress, DockerReply::Missing);
    assert_eq!(
        show(&action),
        "fail NotFound Docker compose file not found at /ws/docker-compose.yml"
    );
    assert!(matches!(progress, EspressoStart::Failed));
    assert!(!node.is_started());
}
