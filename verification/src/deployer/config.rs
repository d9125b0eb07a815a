//! Rendering of the node configuration files from their templates.

use crate::host::{file_requests, FilePath, FilePathView, FileRequest, FileRequestView};
use crate::text::{
    decimal, decimal_string, substitute, substitute_all, substitutions, Substitution,
    SubstitutionView,
};
use vstd::prelude::*;
use vstd::string::*;

verus! {

/// The texts that the configuration files are made from.
#[derive(Debug)]
pub struct ConfigTemplates {
    pub l2_chain_info: String,
    pub full_node: String,
    pub validation_node_config: String,
    pub val_jwt: String,
    pub docker_compose: String,
}

/// The mathematical value of a `ConfigTemplates`.
pub struct ConfigTemplatesView {
    pub l2_chain_info: Seq<char>,
    pub full_node: Seq<char>,
    pub validation_node_config: Seq<char>,
    pub val_jwt: Seq<char>,
    pub docker_compose: Seq<char>,
}

impl View for ConfigTemplates {
    type V = ConfigTemplatesView;

    open spec fn view(&self) -> ConfigTemplatesView {
        ConfigTemplatesView {
            l2_chain_info: self.l2_chain_info@,
            full_node: self.full_node@,
            validation_node_config: self.validation_node_config@,
            val_jwt: self.val_jwt@,
            docker_compose: self.docker_compose@,
        }
    }
}

/// The addresses of the parent chain's contracts that the chain information
/// names. An address that is not known is the empty text.
#[derive(Debug)]
pub struct ChainAddresses {
    pub initial_chain_owner: String,
    pub bridge: String,
    pub inbox: String,
    pub sequencer_inbox: String,
    pub validator_utils: String,
    pub validator_wallet_creator: String,
}

/// The mathematical value of a `ChainAddresses`.
pub struct ChainAddressesView {
    pub initial_chain_owner: Seq<char>,
    pub bridge: Seq<char>,
    pub inbox: Seq<char>,
    pub sequencer_inbox: Seq<char>,
    pub validator_utils: Seq<char>,
    pub validator_wallet_creator: Seq<char>,
}

impl View for ChainAddresses {
    type V = ChainAddressesView;

    open spec fn view(&self) -> ChainAddressesView {
        ChainAddressesView {
            initial_chain_owner: self.initial_chain_owner@,
            bridge: self.bridge@,
            inbox: self.inbox@,
            sequencer_inbox: self.sequencer_inbox@,
            validator_utils: self.validator_utils@,
            validator_wallet_creator: self.validator_wallet_creator@,
        }
    }
}

/// Renders the configuration files of one rollup's node.
#[derive(Debug)]
pub struct ConfigGenerator {
    config_dir: String,
    workspace_dir: String,
    chain_id: u64,
    rollup_address: String,
    upgrade_executor_address: String,
    deployment_block: u64,
    validator_key: String,
    batch_poster_key: String,
    arbitrum_rpc_url: String,
}

/// The mathematical value of a `ConfigGenerator`.
pub struct ConfigGeneratorView {
    pub config_dir: Seq<char>,
    pub workspace_dir: Seq<char>,
    pub chain_id: u64,
    pub rollup_address: Seq<char>,
    pub upgrade_executor_address: Seq<char>,
    pub deployment_block: u64,
    pub validator_key: Seq<char>,
    pub batch_poster_key: Seq<char>,
    pub arbitrum_rpc_url: Seq<char>,
}

impl View for ConfigGenerator {
    type V = ConfigGeneratorView;

    closed spec fn view(&self) -> ConfigGeneratorView {
        ConfigGeneratorView {
            config_dir: self.config_dir@,
            workspace_dir: self.workspace_dir@,
            chain_id: self.chain_id,
            rollup_address: self.rollup_address@,
            upgrade_executor_address: self.upgrade_executor_address@,
            deployment_block: self.deployment_block,
            validator_key: self.validator_key@,
            batch_poster_key: self.batch_poster_key@,
            arbitrum_rpc_url: self.arbitrum_rpc_url@,
        }
    }
}

/// The replacement of `placeholder` by `value`.
pub open spec fn put(placeholder: Seq<char>, value: Seq<char>) -> SubstitutionView {
    SubstitutionView { placeholder, value }
}

/// What the chain information puts in the place of which placeholder. Of
/// two placeholders of which one begins the other, the longer comes first.
pub open spec fn chain_substitutions(generator: ConfigGeneratorView, addresses: ChainAddressesView)
    -> Seq<SubstitutionView> {
    seq![
        put("100000000"@, decimal(generator.deployment_block as nat)),
        put("10000000"@, decimal(generator.chain_id as nat)),
        put("INITIAL_CHAIN_OWNER_ADDRESS"@, addresses.initial_chain_owner),
        put("BRIDGE_ADDRESS"@, addresses.bridge),
        put("SEQUENCER_INBOX_ADDRESS"@, addresses.sequencer_inbox),
        put("INBOX_ADDRESS"@, addresses.inbox),
        put("UPGRADE_EXECUTOR_ADDRESS"@, generator.upgrade_executor_address),
        put("ROLLUP_ADDRESS"@, generator.rollup_address),
        put("VALIDATOR_WALLET_CREATOR_ADDRESS"@, addresses.validator_wallet_creator),
        put("VALIDATOR_UTILS_ADDRESS"@, addresses.validator_utils),
    ]
}

/// The chain information made from `template`: in one pass, every
/// placeholder replaced by its value, so that the chain id, the deployment
/// block, the addresses of the parent chain's contracts and those of the
/// rollup and of its upgrade executor each stand in their own place.
pub open spec fn chain_info(
    generator: ConfigGeneratorView,
    template: Seq<char>,
    addresses: ChainAddressesView,
) -> Seq<char> {
    substitute(template, chain_substitutions(generator, addresses))
}

/// The file `name` in the configuration directory, with `content`.
pub open spec fn config_file(generator: ConfigGeneratorView, name: Seq<char>, content: Seq<char>)
    -> FileRequestView {
    FileRequestView::WriteFile {
        path: FilePathView { base: generator.config_dir, relative: name },
        content,
    }
}

/// What is to be written for a node: the two directories, then the chain
/// information, the three files that are copies of their templates, and the
/// container manifest in the workspace.
pub open spec fn generated(
    generator: ConfigGeneratorView,
    templates: ConfigTemplatesView,
    addresses: ChainAddressesView,
) -> Seq<FileRequestView> {
    seq![
        FileRequestView::CreateDirectory(
            FilePathView { base: generator.config_dir, relative: Seq::empty() },
        ),
        FileRequestView::CreateDirectory(
            FilePathView { base: generator.workspace_dir, relative: Seq::empty() },
        ),
        config_file(
            generator,
            "l2_chain_info.json"@,
            chain_info(generator, templates.l2_chain_info, addresses),
        ),
        config_file(generator, "full_node.json"@, templates.full_node),
        config_file(generator, "validation_node_config.json"@, templates.validation_node_config),
        config_file(generator, "val_jwt.hex"@, templates.val_jwt),
        FileRequestView::WriteFile {
            path: FilePathView { base: generator.workspace_dir, relative: "docker-compose.yml"@ },
            content: templates.docker_compose,
        },
    ]
}

impl ConfigGenerator {
    pub fn new(
        config_dir: &str,
        workspace_dir: &str,
        chain_id: u64,
        rollup_address: String,
        upgrade_executor_address: String,
        deployment_block: u64,
        validator_key: String,
        batch_poster_key: String,
        arbitrum_rpc_url: String,
    ) -> (generator: Self)
        ensures
            generator@ == (ConfigGeneratorView {
                config_dir: config_dir@,
                workspace_dir: workspace_dir@,
                chain_id,
                rollup_address: rollup_address@,
                upgrade_executor_address: upgrade_executor_address@,
                deployment_block,
                validator_key: validator_key@,
                batch_poster_key: batch_poster_key@,
                arbitrum_rpc_url: arbitrum_rpc_url@,
            }),
    {
        ConfigGenerator {
            config_dir: String::from_str(config_dir),
            workspace_dir: String::from_str(workspace_dir),
            chain_id,
            rollup_address,
            upgrade_executor_address,
            deployment_block,
            validator_key,
            batch_poster_key,
            arbitrum_rpc_url,
        }
    }

    /// The chain information made from `template`.
    pub fn copy_and_update_l2_chain_info(
        &self,
        template: &str,
        addresses: &ChainAddresses,
    ) -> (content: String)
        ensures
            content@ == chain_info(self@, template@, addresses@),
    {
        let chain = decimal_string(self.chain_id);
        let block = decimal_string(self.deployment_block);
        let mut pairs: Vec<Substitution> = Vec::new();
        pairs.push(Substitution::new("100000000", block.as_str()));
        pairs.push(Substitution::new("10000000", chain.as_str()));
        pairs.push(
            Substitution::new(
                "INITIAL_CHAIN_OWNER_ADDRESS",
                addresses.initial_chain_owner.as_str(),
            ),
        );
        pairs.push(Substitution::new("BRIDGE_ADDRESS", addresses.bridge.as_str()));
        pairs.push(
            Substitution::new("SEQUENCER_INBOX_ADDRESS", addresses.sequencer_inbox.as_str()),
        );
        pairs.push(Substitution::new("INBOX_ADDRESS", addresses.inbox.as_str()));
        pairs.push(
            Substitution::new("UPGRADE_EXECUTOR_ADDRESS", self.upgrade_executor_address.as_str()),
        );
        pairs.push(Substitution::new("ROLLUP_ADDRESS", self.rollup_address.as_str()));
        pairs.push(
            Substitution::new(
                "VALIDATOR_WALLET_CREATOR_ADDRESS",
                addresses.validator_wallet_creator.as_str(),
            ),
        );
        pairs.push(
            Substitution::new("VALIDATOR_UTILS_ADDRESS", addresses.validator_utils.as_str()),
        );
        assert(substitutions(pairs@) =~= chain_substitutions(self@, addresses@));
        substitute_all(template, &pairs)
    }

    /// The file `name` in the configuration directory, with `content`.
    fn write(&self, name: &str, content: String) -> (request: FileRequest)
        ensures
            request@ == config_file(self@, name@, content@),
    {
        FileRequest::WriteFile { path: FilePath::new(self.config_dir.as_str(), name), content }
    }

    /// What is to be written for the node, in the order in which it is to be
    /// written.
    pub fn generate_configs(
        &self,
        templates: &ConfigTemplates,
        addresses: &ChainAddresses,
    ) -> (files: Vec<FileRequest>)
        ensures
            file_requests(files@) == generated(self@, templates@, addresses@),
    {
        let mut files: Vec<FileRequest> = Vec::new();
        files.push(
            FileRequest::CreateDirectory(
                FilePath { base: self.config_dir.clone(), relative: String::new() },
            ),
        );
        files.push(
            FileRequest::CreateDirectory(
                FilePath { base: self.workspace_dir.clone(), relative: String::new() },
            ),
        );
        files.push(
            self.write(
                "l2_chain_info.json",
                self.copy_and_update_l2_chain_info(templates.l2_chain_info.as_str(), addresses),
            ),
        );
        files.push(self.write("full_node.json", templates.full_node.clone()));
        files.push(
            self.write("validation_node_config.json", templates.validation_node_config.clone()),
        );
        files.push(self.write("val_jwt.hex", templates.val_jwt.clone()));
        files.push(
            FileRequest::WriteFile {
                path: FilePath::new(self.workspace_dir.as_str(), "docker-compose.yml"),
                content: templates.docker_compose.clone(),
            },
        );
        files
    }
}

} // verus!
