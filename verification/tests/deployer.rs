use espresso_raas_blueprint::deployer::rollup::{
    DeployAction, DeployStage, DeployState, DeployStep, Deployer, DeploymentConfig,
    RollupDeployer,
};
use espresso_raas_blueprint::error::ErrorKind;
use espresso_raas_blueprint::host::Reply;
use espresso_raas_blueprint::{NetworkType, RollupConfig};

fn rollup_config() -> RollupConfig {
    RollupConfig {
        chain_id: 42,
        initial_chain_owner: [0x11u8; 20],
        validators: vec![[0x22u8; 20], [0x33u8; 20]],
        batch_poster_address: [0x44u8; 20],
        batch_poster_manager: [0x55u8; 20],
        network: NetworkType::Geth,
    }
}

fn deployer() -> RollupDeployer {
    RollupDeployer::new(DeploymentConfig::new(
        &rollup_config(),
        "private",
        "api",
        "/ws".to_string(),
    ))
}

fn done() -> Reply {
    Reply::Done(String::new())
}

fn exited(success: bool, stdout: &str, stderr: &str) -> Reply {
    Reply::Exited { success, stdout: stdout.to_string(), stderr: stderr.to_string() }
}

fn show(action: &DeployAction) -> String {
    match action {
        DeployAction::CreateDirectory(path) => format!("mkdir {}|{}", path.base, path.relative),
        DeployAction::Run(command) => {
            let dir = match &command.dir {
                Some(dir) => format!("{}|{}", dir.base, dir.relative),
                None => "-".to_string(),
            };
            format!("run {} {:?} in {}", command.program, command.args, dir)
        }
        DeployAction::WriteFile { path, content } => {
            format!("write {}|{} {:?}", path.base, path.relative, content)
        }
        DeployAction::ReadFile(path) => format!("read {}|{}", path.base, path.relative),
        DeployAction::Finish(result) => format!("finish {:?}", result),
        DeployAction::Abort(error) => format!("abort {}", error.to_string()),
        DeployAction::Halt => "halt".to_string(),
    }
}

const PROXY_OUTPUT: &str = "RollupProxy deployed to 0xPROXY\n\
    {\"upgradeExecutor\": {\"address\":\"0xEXEC\"}}\n\
    Deployment block: 123\n";

/// Drives a deployment with `replies`, one for each request, and returns
/// what was asked and how it ended.
fn drive(replies: Vec<Reply>) -> (Vec<String>, DeployState) {
    let deployer = deployer();
    let mut asked = Vec::new();
    let (mut state, action) = deployer.deploy(DeployState::new(), done());
    asked.push(show(&action));
    for reply in replies {
        let (next, action) = deployer.deploy(state, reply);
        state = next;
        asked.push(show(&action));
    }
    (asked, state)
}

fn good_replies() -> Vec<Reply> {
    vec![
        done(),
        exited(true, "", ""),
        exited(true, "", ""),
        exited(true, "", ""),
        exited(true, "", ""),
        exited(false, "", "warning: unused"),
        done(),
        Reply::Done("owner OWNER_ADDRESS chain YOUR_CHAIN_ID id ChainID v AN_OWNED_ADDRESS".to_string()),
        done(),
        exited(true, "log\nRollupCreator deployed to 0xCREATOR\n", ""),
        Reply::Done("A=\"1\"\n".to_string()),
        done(),
        exited(true, PROXY_OUTPUT, ""),
    ]
}

#[test]
fn a_deployment_asks_for_each_step_in_order() {
    let (asked, state) = drive(good_replies());
    let owner = "0x1111111111111111111111111111111111111111";
    let validator = "0x2222222222222222222222222222222222222222";
    assert_eq!(
        asked,
        vec![
            "mkdir /ws|".to_string(),
            "run git [\"clone\", \"https://github.com/EspressoSystems/nitro-contracts.git\"] in /ws|".to_string(),
            "run git [\"checkout\", \"develop\"] in /ws|nitro-contracts".to_string(),
            "run yarn [\"install\"] in /ws|nitro-contracts".to_string(),
            "run forge [\"install\"] in /ws|nitro-contracts".to_string(),
            "run yarn [\"build:all\"] in /ws|nitro-contracts".to_string(),
            "write /ws|nitro-contracts/.env \"ARBISCAN_API_KEY=\\\"api\\\"\\nDEVNET_PRIVKEY=\\\"private\\\"\\nESPRESSO_TEE_VERIFIER_ADDRESS=\\\"0x8354db765810dF8F24f1477B06e91E5b17a408bF\\\"\\n\"".to_string(),
            "read /ws|nitro-contracts/scripts/config.template.ts".to_string(),
            format!(
                "write /ws|nitro-contracts/scripts/config.ts \"owner {} chain 42 id 42 v {}\"",
                owner, validator
            ),
            "run npx [\"hardhat\", \"run\", \"scripts/deployment.ts\", \"--network\", \"arbSepolia\"] in /ws|nitro-contracts".to_string(),
            "read /ws|nitro-contracts/.env".to_string(),
            "write /ws|nitro-contracts/.env \"A=\\\"1\\\"\\nROLLUP_CREATOR_ADDRESS=\\\"0xCREATOR\\\"\\n\"".to_string(),
            "run npx [\"hardhat\", \"run\", \"scripts/createEthRollup.ts\", \"--network\", \"arbSepolia\"] in /ws|nitro-contracts".to_string(),
            "finish DeploymentResult { rollup_creator_address: \"0xCREATOR\", rollup_proxy_address: \"0xPROXY\", upgrade_executor_address: \"0xEXEC\", deployment_block: 123, chain_id: 42 }".to_string(),
        ]
    );
    assert_eq!(state.stage, DeployStage::Finished);
}

#[test]
fn a_failed_script_ends_the_deployment_with_its_stderr() {
    let mut replies = good_replies();
    replies.truncate(9);
    replies.push(exited(false, "", "Error: insufficient funds"));
    replies.push(done());
    replies.push(exited(true, PROXY_OUTPUT, ""));
    let (asked, state) = drive(replies);
    assert_eq!(asked[10], "abort step 6: Deployment failed: Error: insufficient funds");
    assert_eq!(asked[11], "halt");
    assert_eq!(asked[12], "halt");
    assert_eq!(state.stage, DeployStage::Failed(DeployStep::DeployContracts));
}

#[test]
fn every_step_fails_under_its_own_number() {
    let failing: Vec<(usize, Reply, &str)> = vec![
        (0, Reply::Failed("denied".to_string()), "abort step 1: denied"),
        (
            1,
            exited(false, "", "fatal: unable to access"),
            "abort step 2: Failed to clone contracts repository: fatal: unable to access",
        ),
        (
            2,
            exited(false, "", "error: pathspec"),
            "abort step 2: Failed to checkout branch: error: pathspec",
        ),
        (5, Reply::Failed("cannot spawn yarn".to_string()), "abort step 3: cannot spawn yarn"),
        (5, done(), "abort step 3: A command was answered as a file request"),
        (
            9,
            exited(true, "RollupCreator deployed to\n", ""),
            "abort step 6: Could not extract rollup creator address from output",
        ),
        (
            12,
            exited(true, "RollupProxy deployed to   \n", ""),
            "abort step 8: Could not extract rollup proxy address from output",
        ),
        (3, exited(false, "", "no yarn"), "abort step 3: Command 'yarn' failed: no yarn"),
        (4, exited(false, "", "no forge"), "abort step 3: Command 'forge' failed: no forge"),
        (6, Reply::Failed("full".to_string()), "abort step 4: full"),
        (7, Reply::Failed("gone".to_string()), "abort step 5: Failed to read config template: gone"),
        (8, Reply::Failed("full".to_string()), "abort step 5: Failed to write config.ts: full"),
        (9, exited(true, "nothing", ""), "abort step 6: Could not extract rollup creator address from output"),
        (10, Reply::Failed("gone".to_string()), "abort step 7: gone"),
        (11, Reply::Failed("full".to_string()), "abort step 7: full"),
        (12, exited(false, "", "boom"), "abort step 8: Rollup proxy deployment failed: boom"),
        (12, exited(true, "x", ""), "abort step 8: Could not extract rollup proxy address from output"),
        (
            12,
            exited(true, "RollupProxy deployed to 0xP", ""),
            "abort step 8: Could not extract upgrade executor address from deployments file",
        ),
        (
            12,
            exited(
                true,
                "RollupProxy deployed to 0xP\n\"upgradeExecutor\": \"address\":\"0xE\"\nDeployment block: x1",
                "",
            ),
            "abort step 8: Could not read the deployment block from output",
        ),
        (1, Reply::Failed("cannot spawn".to_string()), "abort step 2: cannot spawn"),
        (1, done(), "abort step 2: A command was answered as a file request"),
        (0, exited(true, "", ""), "abort step 1: A file request was answered as a command"),
    ];
    for (at, reply, expected) in failing {
        let mut replies = good_replies();
        replies.truncate(at);
        replies.push(reply);
        let (asked, state) = drive(replies);
        assert_eq!(asked.last().unwrap(), expected);
        assert!(matches!(state.stage, DeployStage::Failed(_)));
        assert_eq!(asked.len(), at + 2);
    }
}

#[test]
fn a_build_that_ends_with_warnings_is_tolerated() {
    for reply in [exited(false, "", "warning: unused variable"), exited(true, "", "")] {
        let mut replies = good_replies();
        replies[5] = reply;
        let (asked, state) = drive(replies);
        assert!(asked.last().unwrap().starts_with("finish"));
        assert_eq!(state.stage, DeployStage::Finished);
    }
}

#[test]
fn a_missing_block_marker_means_block_zero() {
    let mut replies = good_replies();
    replies[12] =
        exited(true, "RollupProxy deployed to 0xP\n\"upgradeExecutor\":\"address\":\"0xE\"", "");
    let (asked, _) = drive(replies);
    assert!(asked.last().unwrap().contains("deployment_block: 0"));
}

#[test]
fn a_deployment_without_validators_fails_at_the_script() {
    let mut config = rollup_config();
    config.validators.clear();
    let deployer =
        RollupDeployer::new(DeploymentConfig::new(&config, "private", "api", "/ws".to_string()));
    let (mut state, _) = deployer.deploy(DeployState::new(), done());
    let mut last = String::new();
    for reply in good_replies() {
        let (next, action) = deployer.deploy(state, reply);
        state = next;
        last = show(&action);
        if matches!(action, DeployAction::Abort(_)) {
            break;
        }
    }
    assert_eq!(last, "abort step 5: No validator address is configured");
    assert_eq!(state.stage, DeployStage::Failed(DeployStep::RenderScript));
}

#[test]
fn deployment_config_writes_addresses_as_text() {
    let config = DeploymentConfig::new(&rollup_config(), "private", "api", "/ws".to_string());
    assert_eq!(config.private_key, "private");
    assert_eq!(config.arbiscan_api_key, "api");
    assert_eq!(config.chain_id, 42);
    assert_eq!(config.initial_chain_owner, "0x1111111111111111111111111111111111111111");
    assert_eq!(
        config.validators,
        vec![
            "0x2222222222222222222222222222222222222222".to_string(),
            "0x3333333333333333333333333333333333333333".to_string(),
        ]
    );
    assert_eq!(config.batch_poster_address, "0x4444444444444444444444444444444444444444");
    assert_eq!(config.batch_poster_manager, "0x5555555555555555555555555555555555555555");
    assert_eq!(config.workspace_dir, "/ws");
}

#[test]
fn extractors_read_markers() {
    let deployer = deployer();
    assert_eq!(
        deployer.extract_rollup_creator_address("a\n RollupCreator deployed to  0xabc \nb").unwrap(),
        "0xabc"
    );
    for output in ["RollupCreator deployed", "RollupCreator deployed to\n", "RollupCreator deployed to \t\r\n0xabc"] {
        let error = deployer.extract_rollup_creator_address(output).unwrap_err();
        assert_eq!(error.kind, ErrorKind::Parse);
        assert_eq!(error.message, "Could not extract rollup creator address from output");
    }
    assert!(deployer.extract_rollup_proxy_address("x\nRollupProxy deployed to").is_err());
    assert_eq!(
        deployer.extract_rollup_proxy_address("RollupProxy deployed to 0x1 RollupProxy deployed to 0x2").unwrap(),
        "0x1"
    );
    assert_eq!(
        deployer.extract_rollup_proxy_address("none").unwrap_err().message,
        "Could not extract rollup proxy address from output"
    );
    assert_eq!(deployer.extract_deployment_block("Deployment block: 77").unwrap(), 77);
    assert_eq!(deployer.extract_deployment_block("Deployment block:+8 ").unwrap(), 8);
    assert_eq!(deployer.extract_deployment_block("no marker").unwrap(), 0);
    assert_eq!(
        deployer.extract_deployment_block("Deployment block: 1.5").unwrap_err().message,
        "Could not read the deployment block from output"
    );
    assert_eq!(
        deployer.extract_deployment_block("Deployment block: 18446744073709551616").unwrap_err().kind,
        ErrorKind::Parse
    );
}

#[test]
fn the_upgrade_executor_is_read_behind_its_key() {
    let deployer = deployer();
    for content in [
        "{\"rollup\":{\"address\":\"0xR\"},\"upgradeExecutor\":{\"address\":\"0xE1\"}}",
        "{\"upgradeExecutor\": {\"address\": \"0xE1\"}}",
        "{\n  \"upgradeExecutor\": {\n    \"address\":\n\t  \"0xE1\",\n    \"x\": 1\n  }\n}",
        "\"upgradeExecutor\":\"address\":\"0xE1\"\"address\":\"0xE2\"",
    ] {
        assert_eq!(
            deployer.extract_upgrade_executor_address(content).unwrap(),
            "0xE1",
            "for {:?}",
            content
        );
    }
    for content in [
        "",
        "\"address\":\"0xE\"",
        "\"address\":\"0xE\" \"upgradeExecutor\": {}",
        "\"upgradeExecutor\": {}",
        "\"upgradeExecutor\":\"address\":",
        "\"upgradeExecutor\":\"address\":   ",
        "\"upgradeExecutor\":\"address\": 5",
        "\"upgradeExecutor\":\"address\":\"",
        "\"upgradeExecutor\":\"address\":\"\"",
        "\"upgradeExecutor\":\"address\":\"0xE",
    ] {
        let error = deployer.extract_upgrade_executor_address(content).unwrap_err();
        assert_eq!(
            error.message,
            "Could not extract upgrade executor address from deployments file",
            "for {:?}",
            content
        );
    }
}

#[test]
fn the_script_deployer_reports_fixed_addresses() {
    let deployer =
        Deployer::new("0xme".to_string(), "key".to_string(), 7, "http://rpc".to_string());
    let command = deployer.deploy_command();
    assert_eq!(command.program, "sh");
    assert_eq!(
        command.args,
        vec![
            "-c".to_string(),
            "export PRIVATE_KEY=key && export RPC_URL=http://rpc && npm run deploy".to_string(),
        ]
    );
    assert!(command.dir.is_none());
    let result = deployer.deploy_contracts(&exited(true, "anything", "")).unwrap();
    assert_eq!(result.rollup_creator_address, "0x1234567890123456789012345678901234567890");
    assert_eq!(result.rollup_proxy_address, "0x0987654321098765432109876543210987654321");
    assert_eq!(result.upgrade_executor_address, "0x1234567890123456789012345678901234567890");
    assert_eq!(result.deployment_block, 0);
    assert_eq!(result.chain_id, 7);
    let error = deployer.deploy_contracts(&exited(false, "", "npm ERR")).unwrap_err();
    assert_eq!(error.kind, ErrorKind::Process);
    assert_eq!(error.message, "Deployment failed: npm ERR");
    assert_eq!(
        deployer.deploy_contracts(&Reply::Failed("no sh".to_string())).unwrap_err().kind,
        ErrorKind::Io
    );
}
