use espresso_raas_blueprint::deployer::config::{ChainAddresses, ConfigGenerator, ConfigTemplates};
use espresso_raas_blueprint::host::FileRequest;
use espresso_raas_blueprint::{NetworkType, RollupConfig, RollupConfigParams};

fn generator() -> ConfigGenerator {
    ConfigGenerator::new(
        "/tmp/espresso/vm/config",
        "/tmp/espresso/vm/workspace",
        42,
        "0xproxy".to_string(),
        "0xexecutor".to_string(),
        777,
        "validator-key".to_string(),
        "poster-key".to_string(),
        "http://rpc".to_string(),
    )
}

fn addresses() -> ChainAddresses {
    ChainAddresses {
        initial_chain_owner: "0xowner".to_string(),
        bridge: "0xbridge".to_string(),
        inbox: "0xinbox".to_string(),
        sequencer_inbox: "0xseq".to_string(),
        validator_utils: "0xutils".to_string(),
        validator_wallet_creator: "0xcreator".to_string(),
    }
}

#[test]
fn chain_info_replaces_placeholders_in_order() {
    let template = "{\"chain-id\": 10000000, \"owner\": \"INITIAL_CHAIN_OWNER_ADDRESS\", \
        \"bridge\": \"BRIDGE_ADDRESS\", \"inbox\": \"INBOX_ADDRESS\", \
        \"rollup\": \"ROLLUP_ADDRESS\", \"executor\": \"UPGRADE_EXECUTOR_ADDRESS\", \
        \"utils\": \"VALIDATOR_UTILS_ADDRESS\", \"wallet\": \"VALIDATOR_WALLET_CREATOR_ADDRESS\"}";
    let content = generator().copy_and_update_l2_chain_info(template, &addresses());
    assert_eq!(
        content,
        "{\"chain-id\": 42, \"owner\": \"0xowner\", \"bridge\": \"0xbridge\", \
         \"inbox\": \"0xinbox\", \"rollup\": \"0xproxy\", \"executor\": \"0xexecutor\", \
         \"utils\": \"0xutils\", \"wallet\": \"0xcreator\"}"
    );
}

#[test]
fn every_placeholder_gets_its_own_value() {
    // The block placeholder begins with the chain placeholder, and the
    // sequencer inbox placeholder ends with the inbox placeholder.
    let generator = generator();
    let content = generator.copy_and_update_l2_chain_info(
        "100000000 10000000 SEQUENCER_INBOX_ADDRESS INBOX_ADDRESS 1000000001 100000000",
        &addresses(),
    );
    assert_eq!(content, "777 42 0xseq 0xinbox 7771 777");
    let content = generator.copy_and_update_l2_chain_info(
        "UPGRADE_EXECUTOR_ADDRESS/ROLLUP_ADDRESS/VALIDATOR_WALLET_CREATOR_ADDRESS/VALIDATOR_UTILS_ADDRESS",
        &addresses(),
    );
    assert_eq!(content, "0xexecutor/0xproxy/0xcreator/0xutils");
}

#[test]
fn what_is_put_in_is_not_replaced_again() {
    let mut addresses = addresses();
    addresses.bridge = "INBOX_ADDRESS".to_string();
    addresses.initial_chain_owner = "10000000".to_string();
    let content = generator()
        .copy_and_update_l2_chain_info("BRIDGE_ADDRESS INITIAL_CHAIN_OWNER_ADDRESS", &addresses);
    assert_eq!(content, "INBOX_ADDRESS 10000000");
}

#[test]
fn generate_configs_lists_directories_then_files() {
    let templates = ConfigTemplates {
        l2_chain_info: "chain 10000000".to_string(),
        full_node: "full".to_string(),
        validation_node_config: "validation".to_string(),
        val_jwt: "jwt".to_string(),
        docker_compose: "services: {}".to_string(),
    };
    let files = generator().generate_configs(&templates, &addresses());
    let shown: Vec<String> = files
        .iter()
        .map(|file| match file {
            FileRequest::CreateDirectory(path) => format!("dir {}|{}", path.base, path.relative),
            FileRequest::WriteFile { path, content } => {
                format!("file {}|{}|{}", path.base, path.relative, content)
            }
        })
        .collect();
    assert_eq!(
        shown,
        vec![
            "dir /tmp/espresso/vm/config|",
            "dir /tmp/espresso/vm/workspace|",
            "file /tmp/espresso/vm/config|l2_chain_info.json|chain 42",
            "file /tmp/espresso/vm/config|full_node.json|full",
            "file /tmp/espresso/vm/config|validation_node_config.json|validation",
            "file /tmp/espresso/vm/config|val_jwt.hex|jwt",
            "file /tmp/espresso/vm/workspace|docker-compose.yml|services: {}",
        ]
    );
}

#[test]
fn network_type_tells_url_parent_and_name() {
    assert_eq!(NetworkType::Geth.rpc_url(), "http://localhost:8545");
    assert_eq!(NetworkType::ArbitrumMainnet.rpc_url(), "https://arb1.arbitrum.io/rpc");
    assert_eq!(NetworkType::ArbitrumSepolia.rpc_url(), "https://sepolia-rollup.arbitrum.io/rpc");
    assert_eq!(NetworkType::Geth.parent_chain_id(), 1337);
    assert_eq!(NetworkType::ArbitrumMainnet.parent_chain_id(), 1);
    assert_eq!(NetworkType::ArbitrumSepolia.parent_chain_id(), 11155111);
    assert_eq!(NetworkType::Geth.to_string(), "geth");
    assert_eq!(NetworkType::ArbitrumMainnet.to_string(), "arb1");
    assert_eq!(NetworkType::ArbitrumSepolia.to_string(), "arbSepolia");
    assert_eq!(NetworkType::default(), NetworkType::Geth);
}

#[test]
fn config_is_the_params_without_the_mainnet_flag() {
    let params = RollupConfigParams {
        chain_id: 42,
        initial_chain_owner: [1u8; 20],
        validators: vec![[2u8; 20], [3u8; 20]],
        batch_poster_address: [4u8; 20],
        batch_poster_manager: [5u8; 20],
        is_mainnet: true,
        network: NetworkType::ArbitrumSepolia,
    };
    let copy = params.clone();
    assert_eq!(copy.validators, params.validators);
    assert!(copy.is_mainnet);
    let config = RollupConfig::from(params);
    assert_eq!(config.chain_id, 42);
    assert_eq!(config.initial_chain_owner, [1u8; 20]);
    assert_eq!(config.validators, vec![[2u8; 20], [3u8; 20]]);
    assert_eq!(config.batch_poster_address, [4u8; 20]);
    assert_eq!(config.batch_poster_manager, [5u8; 20]);
    assert_eq!(config.network, NetworkType::ArbitrumSepolia);
    let defaults = RollupConfigParams::default();
    assert_eq!(defaults.chain_id, 0);
    assert!(defaults.validators.is_empty());
    assert_eq!(defaults.initial_chain_owner, [0u8; 20]);
}
