//! The contract deployment pipeline: an ordered sequence of requests to the
//! host, each of which must end well before the next is made.

use crate::address::{address_text, to_text};
use crate::error::{ErrorKind, RaasError, RaasErrorView};
use crate::host::{
    copy_strings, texts, Command, CommandView, FilePath, FilePathView, Reply, ReplyView,
};
use crate::text::{
    chars_of, decimal, decimal_string, extract_stated, extract_value, find, find_between,
    find_from, first_value, parse_decimal, parse_u64, replace, replace_all, skip_space,
    skip_whitespace, slice_to_string, stated_value,
};
use crate::RollupConfig;
use vstd::prelude::*;
use vstd::string::*;

verus! {

/// Where the contracts' sources are fetched from.
pub const NITRO_CONTRACTS_REPO: &'static str =
    "https://github.com/EspressoSystems/nitro-contracts.git";

/// The branch of the sources that is deployed.
pub const NITRO_CONTRACTS_BRANCH: &'static str = "develop";

/// The directory, below the workspace, that holds the sources.
pub const NITRO_CONTRACTS_DIR: &'static str = "nitro-contracts";

/// The address of the verifier contract that the deployment refers to.
pub const TEE_VERIFIER_ADDRESS: &'static str = "0x8354db765810dF8F24f1477B06e91E5b17a408bF";

/// The network that the deployment scripts are run against.
pub const DEPLOY_NETWORK: &'static str = "arbSepolia";

/// What the deployment script prints before the creator contract's address.
pub const CREATOR_MARKER: &'static str = "RollupCreator deployed to";

/// What the proxy script prints before the proxy contract's address.
pub const PROXY_MARKER: &'static str = "RollupProxy deployed to";

/// What the proxy script prints before the number of the deployment block.
pub const BLOCK_MARKER: &'static str = "Deployment block:";

/// The key under which the proxy script reports the upgrade executor.
pub const EXECUTOR_KEY: &'static str = "\"upgradeExecutor\":";

/// The key of an address within a reported contract.
pub const ADDRESS_KEY: &'static str = "\"address\":";

/// What a deployment needs to know.
#[derive(Debug)]
pub struct DeploymentConfig {
    pub private_key: String,
    pub arbiscan_api_key: String,
    pub chain_id: u64,
    pub initial_chain_owner: String,
    pub validators: Vec<String>,
    pub batch_poster_address: String,
    pub batch_poster_manager: String,
    pub workspace_dir: String,
}

/// The mathematical value of a `DeploymentConfig`.
pub struct DeploymentConfigView {
    pub private_key: Seq<char>,
    pub arbiscan_api_key: Seq<char>,
    pub chain_id: u64,
    pub initial_chain_owner: Seq<char>,
    pub validators: Seq<Seq<char>>,
    pub batch_poster_address: Seq<char>,
    pub batch_poster_manager: Seq<char>,
    pub workspace_dir: Seq<char>,
}

impl View for DeploymentConfig {
    type V = DeploymentConfigView;

    open spec fn view(&self) -> DeploymentConfigView {
        DeploymentConfigView {
            private_key: self.private_key@,
            arbiscan_api_key: self.arbiscan_api_key@,
            chain_id: self.chain_id,
            initial_chain_owner: self.initial_chain_owner@,
            validators: texts(self.validators@),
            batch_poster_address: self.batch_poster_address@,
            batch_poster_manager: self.batch_poster_manager@,
            workspace_dir: self.workspace_dir@,
        }
    }
}

impl Clone for DeploymentConfig {
    fn clone(&self) -> (copy: Self)
        ensures
            copy@ == self@,
    {
        DeploymentConfig {
            private_key: self.private_key.clone(),
            arbiscan_api_key: self.arbiscan_api_key.clone(),
            chain_id: self.chain_id,
            initial_chain_owner: self.initial_chain_owner.clone(),
            validators: copy_strings(&self.validators),
            batch_poster_address: self.batch_poster_address.clone(),
            batch_poster_manager: self.batch_poster_manager.clone(),
            workspace_dir: self.workspace_dir.clone(),
        }
    }
}

/// The texts of the addresses `list`, in order.
pub open spec fn address_texts(list: Seq<Seq<u8>>) -> Seq<Seq<char>> {
    Seq::new(list.len(), |i: int| address_text(list[i]))
}

impl DeploymentConfig {
    /// The deployment of `rollup_config` with the given keys, in
    /// `workspace_dir`. Addresses are written as `0x` and forty hexadecimal
    /// digits.
    pub fn new(
        rollup_config: &RollupConfig,
        private_key: &str,
        arbiscan_api_key: &str,
        workspace_dir: String,
    ) -> (config: Self)
        ensures
            config@ == (DeploymentConfigView {
                private_key: private_key@,
                arbiscan_api_key: arbiscan_api_key@,
                chain_id: rollup_config@.chain_id,
                initial_chain_owner: address_text(rollup_config@.initial_chain_owner),
                validators: address_texts(rollup_config@.validators),
                batch_poster_address: address_text(rollup_config@.batch_poster_address),
                batch_poster_manager: address_text(rollup_config@.batch_poster_manager),
                workspace_dir: workspace_dir@,
            }),
    {
        let mut validators: Vec<String> = Vec::new();
        let mut i: usize = 0;
        while i < rollup_config.validators.len()
            invariant
                i <= rollup_config.validators@.len(),
                validators@.len() == i,
                forall|j: int|
                    0 <= j < i ==> (#[trigger] validators@[j])@ == address_text(
                        rollup_config.validators@[j]@,
                    ),
            decreases rollup_config.validators@.len() - i,
        {
            validators.push(to_text(&rollup_config.validators[i]));
            i += 1;
        }
        assert(texts(validators@) =~= address_texts(rollup_config@.validators));
        DeploymentConfig {
            private_key: String::from_str(private_key),
            arbiscan_api_key: String::from_str(arbiscan_api_key),
            chain_id: rollup_config.chain_id,
            initial_chain_owner: to_text(&rollup_config.initial_chain_owner),
            validators,
            batch_poster_address: to_text(&rollup_config.batch_poster_address),
            batch_poster_manager: to_text(&rollup_config.batch_poster_manager),
            workspace_dir,
        }
    }
}

/// What a deployment brought about.
#[derive(Debug)]
pub struct DeploymentResult {
    pub rollup_creator_address: String,
    pub rollup_proxy_address: String,
    pub upgrade_executor_address: String,
    pub deployment_block: u64,
    pub chain_id: u64,
}

/// The mathematical value of a `DeploymentResult`.
pub struct DeploymentResultView {
    pub rollup_creator_address: Seq<char>,
    pub rollup_proxy_address: Seq<char>,
    pub upgrade_executor_address: Seq<char>,
    pub deployment_block: u64,
    pub chain_id: u64,
}

impl View for DeploymentResult {
    type V = DeploymentResultView;

    open spec fn view(&self) -> DeploymentResultView {
        DeploymentResultView {
            rollup_creator_address: self.rollup_creator_address@,
            rollup_proxy_address: self.rollup_proxy_address@,
            upgrade_executor_address: self.upgrade_executor_address@,
            deployment_block: self.deployment_block,
            chain_id: self.chain_id,
        }
    }
}

impl Clone for DeploymentResult {
    fn clone(&self) -> (copy: Self)
        ensures
            copy@ == self@,
    {
        DeploymentResult {
            rollup_creator_address: self.rollup_creator_address.clone(),
            rollup_proxy_address: self.rollup_proxy_address.clone(),
            upgrade_executor_address: self.upgrade_executor_address.clone(),
            deployment_block: self.deployment_block,
            chain_id: self.chain_id,
        }
    }
}

/// The eight steps of a deployment, in their order.
#[derive(Clone, Copy, Debug, PartialEq, Eq, Structural)]
pub enum DeployStep {
    CreateWorkspace,
    FetchSources,
    Build,
    WriteEnvironment,
    RenderScript,
    DeployContracts,
    RecordCreator,
    CreateProxy,
}

impl DeployStep {
    /// The number of the step, from one.
    pub open spec fn number(self) -> nat {
        match self {
            DeployStep::CreateWorkspace => 1,
            DeployStep::FetchSources => 2,
            DeployStep::Build => 3,
            DeployStep::WriteEnvironment => 4,
            DeployStep::RenderScript => 5,
            DeployStep::DeployContracts => 6,
            DeployStep::RecordCreator => 7,
            DeployStep::CreateProxy => 8,
        }
    }

    /// The number of the step, from one.
    pub fn index(&self) -> (n: u64)
        ensures
            n == self.number(),
    {
        match self {
            DeployStep::CreateWorkspace => 1,
            DeployStep::FetchSources => 2,
            DeployStep::Build => 3,
            DeployStep::WriteEnvironment => 4,
            DeployStep::RenderScript => 5,
            DeployStep::DeployContracts => 6,
            DeployStep::RecordCreator => 7,
            DeployStep::CreateProxy => 8,
        }
    }
}

/// Why a deployment ended early: the step that failed, and how.
#[derive(Debug)]
pub struct DeployError {
    pub step: DeployStep,
    pub error: RaasError,
}

/// The mathematical value of a `DeployError`.
pub struct DeployErrorView {
    pub step: DeployStep,
    pub error: RaasErrorView,
}

impl DeployErrorView {
    /// The text of the error: the number of the step, then what went wrong.
    pub open spec fn text(self) -> Seq<char> {
        "step "@ + decimal(self.step.number()) + ": "@ + self.error.message
    }
}

impl View for DeployError {
    type V = DeployErrorView;

    open spec fn view(&self) -> DeployErrorView {
        DeployErrorView { step: self.step, error: self.error@ }
    }
}

impl Clone for DeployError {
    fn clone(&self) -> (copy: Self)
        ensures
            copy@ == self@,
    {
        DeployError { step: self.step, error: self.error.clone() }
    }
}

impl DeployError {
    pub fn to_string(&self) -> (text: String)
        ensures
            text@ == self@.text(),
    {
        let number = decimal_string(self.step.index());
        String::from_str("step ").concat(number.as_str()).concat(": ").concat(
            self.error.message.as_str(),
        )
    }
}

/// Where a deployment stands: the request that is out, or how it ended.
#[derive(Clone, Copy, Debug, PartialEq, Eq, Structural)]
pub enum DeployStage {
    /// Nothing was asked for yet.
    Idle,
    CreatingWorkspace,
    CloningRepository,
    CheckingOutBranch,
    InstallingPackages,
    InstallingLibraries,
    Building,
    WritingEnvironment,
    ReadingTemplate,
    WritingScript,
    DeployingContracts,
    ReadingEnvironment,
    RecordingCreator,
    CreatingProxy,
    /// Every step ended well.
    Finished,
    /// The given step failed, and nothing was asked for after it.
    Failed(DeployStep),
}

impl DeployStage {
    /// A request is out.
    pub open spec fn is_active(self) -> bool {
        !(self is Idle || self is Finished || self is Failed)
    }

    /// The deployment has ended, well or not.
    pub open spec fn is_final(self) -> bool {
        self is Finished || self is Failed
    }

    /// The step that the request of this stage belongs to.
    pub open spec fn step(self) -> DeployStep {
        match self {
            DeployStage::Idle => DeployStep::CreateWorkspace,
            DeployStage::CreatingWorkspace => DeployStep::CreateWorkspace,
            DeployStage::CloningRepository => DeployStep::FetchSources,
            DeployStage::CheckingOutBranch => DeployStep::FetchSources,
            DeployStage::InstallingPackages => DeployStep::Build,
            DeployStage::InstallingLibraries => DeployStep::Build,
            DeployStage::Building => DeployStep::Build,
            DeployStage::WritingEnvironment => DeployStep::WriteEnvironment,
            DeployStage::ReadingTemplate => DeployStep::RenderScript,
            DeployStage::WritingScript => DeployStep::RenderScript,
            DeployStage::DeployingContracts => DeployStep::DeployContracts,
            DeployStage::ReadingEnvironment => DeployStep::RecordCreator,
            DeployStage::RecordingCreator => DeployStep::RecordCreator,
            DeployStage::CreatingProxy => DeployStep::CreateProxy,
            DeployStage::Finished => DeployStep::CreateProxy,
            DeployStage::Failed(step) => step,
        }
    }

    /// The stage that follows when the request of this stage ended well.
    pub open spec fn successor(self) -> DeployStage {
        match self {
            DeployStage::Idle => DeployStage::CreatingWorkspace,
            DeployStage::CreatingWorkspace => DeployStage::CloningRepository,
            DeployStage::CloningRepository => DeployStage::CheckingOutBranch,
            DeployStage::CheckingOutBranch => DeployStage::InstallingPackages,
            DeployStage::InstallingPackages => DeployStage::InstallingLibraries,
            DeployStage::InstallingLibraries => DeployStage::Building,
            DeployStage::Building => DeployStage::WritingEnvironment,
            DeployStage::WritingEnvironment => DeployStage::ReadingTemplate,
            DeployStage::ReadingTemplate => DeployStage::WritingScript,
            DeployStage::WritingScript => DeployStage::DeployingContracts,
            DeployStage::DeployingContracts => DeployStage::ReadingEnvironment,
            DeployStage::ReadingEnvironment => DeployStage::RecordingCreator,
            DeployStage::RecordingCreator => DeployStage::CreatingProxy,
            DeployStage::CreatingProxy => DeployStage::Finished,
            DeployStage::Finished => DeployStage::Finished,
            DeployStage::Failed(step) => DeployStage::Failed(step),
        }
    }

    pub fn step_of(&self) -> (step: DeployStep)
        ensures
            step == self.step(),
    {
        match self {
            DeployStage::Idle => DeployStep::CreateWorkspace,
            DeployStage::CreatingWorkspace => DeployStep::CreateWorkspace,
            DeployStage::CloningRepository => DeployStep::FetchSources,
            DeployStage::CheckingOutBranch => DeployStep::FetchSources,
            DeployStage::InstallingPackages => DeployStep::Build,
            DeployStage::InstallingLibraries => DeployStep::Build,
            DeployStage::Building => DeployStep::Build,
            DeployStage::WritingEnvironment => DeployStep::WriteEnvironment,
            DeployStage::ReadingTemplate => DeployStep::RenderScript,
            DeployStage::WritingScript => DeployStep::RenderScript,
            DeployStage::DeployingContracts => DeployStep::DeployContracts,
            DeployStage::ReadingEnvironment => DeployStep::RecordCreator,
            DeployStage::RecordingCreator => DeployStep::RecordCreator,
            DeployStage::CreatingProxy => DeployStep::CreateProxy,
            DeployStage::Finished => DeployStep::CreateProxy,
            DeployStage::Failed(step) => *step,
        }
    }

    pub fn next(&self) -> (stage: DeployStage)
        ensures
            stage == self.successor(),
    {
        match self {
            DeployStage::Idle => DeployStage::CreatingWorkspace,
            DeployStage::CreatingWorkspace => DeployStage::CloningRepository,
            DeployStage::CloningRepository => DeployStage::CheckingOutBranch,
            DeployStage::CheckingOutBranch => DeployStage::InstallingPackages,
            DeployStage::InstallingPackages => DeployStage::InstallingLibraries,
            DeployStage::InstallingLibraries => DeployStage::Building,
            DeployStage::Building => DeployStage::WritingEnvironment,
            DeployStage::WritingEnvironment => DeployStage::ReadingTemplate,
            DeployStage::ReadingTemplate => DeployStage::WritingScript,
            DeployStage::WritingScript => DeployStage::DeployingContracts,
            DeployStage::DeployingContracts => DeployStage::ReadingEnvironment,
            DeployStage::ReadingEnvironment => DeployStage::RecordingCreator,
            DeployStage::RecordingCreator => DeployStage::CreatingProxy,
            DeployStage::CreatingProxy => DeployStage::Finished,
            DeployStage::Finished => DeployStage::Finished,
            DeployStage::Failed(step) => DeployStage::Failed(*step),
        }
    }
}

/// The state of a deployment between two requests.
#[derive(Debug)]
pub struct DeployState {
    pub stage: DeployStage,
    /// The address of the creator contract, once it is deployed.
    pub creator: String,
}

/// The mathematical value of a `DeployState`.
pub struct DeployStateView {
    pub stage: DeployStage,
    pub creator: Seq<char>,
}

impl View for DeployState {
    type V = DeployStateView;

    open spec fn view(&self) -> DeployStateView {
        DeployStateView { stage: self.stage, creator: self.creator@ }
    }
}

impl DeployState {
    /// The state of a deployment of which nothing was asked for yet.
    pub fn new() -> (state: Self)
        ensures
            state@ == (DeployStateView { stage: DeployStage::Idle, creator: Seq::empty() }),
    {
        DeployState { stage: DeployStage::Idle, creator: String::new() }
    }
}

/// What the host is to do next for a deployment.
#[derive(Debug)]
pub enum DeployAction {
    /// Create the directory, and those above it, unless they exist.
    CreateDirectory(FilePath),
    /// Run the command to its end.
    Run(Command),
    /// Write `content` to the file, in place of what it held.
    WriteFile { path: FilePath, content: String },
    /// Read the file as text.
    ReadFile(FilePath),
    /// Nothing more: the deployment ended well, with this result.
    Finish(DeploymentResult),
    /// Nothing more: the deployment failed.
    Abort(DeployError),
    /// Nothing: the deployment had ended before.
    Halt,
}

/// The mathematical value of a `DeployAction`.
pub enum DeployActionView {
    CreateDirectory(FilePathView),
    Run(CommandView),
    WriteFile { path: FilePathView, content: Seq<char> },
    ReadFile(FilePathView),
    Finish(DeploymentResultView),
    Abort(DeployErrorView),
    Halt,
}

impl View for DeployAction {
    type V = DeployActionView;

    open spec fn view(&self) -> DeployActionView {
        match self {
            DeployAction::CreateDirectory(path) => DeployActionView::CreateDirectory(path@),
            DeployAction::Run(command) => DeployActionView::Run(command@),
            DeployAction::WriteFile { path, content } => DeployActionView::WriteFile {
                path: path@,
                content: content@,
            },
            DeployAction::ReadFile(path) => DeployActionView::ReadFile(path@),
            DeployAction::Finish(result) => DeployActionView::Finish(result@),
            DeployAction::Abort(error) => DeployActionView::Abort(error@),
            DeployAction::Halt => DeployActionView::Halt,
        }
    }
}

impl DeployActionView {
    /// The action asks something of the host.
    pub open spec fn is_request(self) -> bool {
        self is CreateDirectory || self is Run || self is WriteFile || self is ReadFile
    }
}

impl ReplyView {
    /// The text that came with a reply to a file request.
    pub open spec fn content(self) -> Seq<char> {
        match self {
            ReplyView::Done(content) => content,
            _ => Seq::empty(),
        }
    }

    /// What the program wrote to its standard output.
    pub open spec fn output(self) -> Seq<char> {
        match self {
            ReplyView::Exited { stdout, .. } => stdout,
            _ => Seq::empty(),
        }
    }
}

/// The address of the upgrade executor that `content` reports: behind the
/// key of the executor, the text that the next address key holds between
/// double quotes, whatever white space stands before the opening quote.
/// `None` where a key is missing, where no quoted text follows, or where the
/// quotes hold nothing.
pub open spec fn upgrade_executor(content: Seq<char>) -> Option<Seq<char>> {
    match find(content, EXECUTOR_KEY@) {
        None => None,
        Some(key) => match find_from(content, ADDRESS_KEY@, key + EXECUTOR_KEY@.len()) {
            None => None,
            Some(at) => {
                let open = skip_whitespace(content, at + ADDRESS_KEY@.len());
                if open < content.len() && content[open] == '"' {
                    match find_from(content, "\""@, open + 1) {
                        Some(end) => if open + 1 < end {
                            Some(content.subrange(open + 1, end))
                        } else {
                            None
                        },
                        None => None,
                    }
                } else {
                    None
                }
            },
        },
    }
}

/// The number of the deployment block that `output` reports: zero where it
/// reports none, `None` where what it reports is no number.
pub open spec fn deployment_block(output: Seq<char>) -> Option<u64> {
    match first_value(output, BLOCK_MARKER@) {
        None => Some(0),
        Some(value) => parse_u64(value),
    }
}

/// The directory that holds the contracts' sources.
pub open spec fn sources_dir(config: DeploymentConfigView) -> FilePathView {
    FilePathView { base: config.workspace_dir, relative: NITRO_CONTRACTS_DIR@ }
}

/// The file that holds the environment of the deployment scripts.
pub open spec fn environment_file(config: DeploymentConfigView) -> FilePathView {
    FilePathView { base: config.workspace_dir, relative: "nitro-contracts/.env"@ }
}

/// The template of the script that configures the deployment.
pub open spec fn template_file(config: DeploymentConfigView) -> FilePathView {
    FilePathView {
        base: config.workspace_dir,
        relative: "nitro-contracts/scripts/config.template.ts"@,
    }
}

/// The script that configures the deployment.
pub open spec fn script_file(config: DeploymentConfigView) -> FilePathView {
    FilePathView { base: config.workspace_dir, relative: "nitro-contracts/scripts/config.ts"@ }
}

/// What the environment file holds before the creator contract is known.
pub open spec fn environment(config: DeploymentConfigView) -> Seq<char> {
    "ARBISCAN_API_KEY=\""@ + config.arbiscan_api_key + "\"\nDEVNET_PRIVKEY=\""@
        + config.private_key + "\"\nESPRESSO_TEE_VERIFIER_ADDRESS=\""@ + TEE_VERIFIER_ADDRESS@
        + "\"\n"@
}

/// The environment file `content` with the creator contract's address added.
pub open spec fn environment_with_creator(content: Seq<char>, creator: Seq<char>) -> Seq<char> {
    content + "ROLLUP_CREATOR_ADDRESS=\""@ + creator + "\"\n"@
}

/// The configuration script made from `template`: the placeholders replaced,
/// one after the other, by the owner, the chain id, the first validator and
/// the batch poster.
pub open spec fn render_script(config: DeploymentConfigView, template: Seq<char>) -> Seq<char> {
    let chain = decimal(config.chain_id as nat);
    let a = replace(template, "OWNER_ADDRESS"@, config.initial_chain_owner);
    let b = replace(a, "YOUR_CHAIN_ID"@, chain);
    let c = replace(b, "ChainID"@, chain);
    let d = replace(c, "YOUR_OWNED_ADDRESS"@, config.initial_chain_owner);
    let e = replace(d, "AN_OWNED_ADDRESS"@, config.validators[0]);
    replace(e, "ANOTHER_OWNED_ADDRESS"@, config.batch_poster_address)
}

/// The command that runs `program` with `args` in the sources directory.
pub open spec fn tool(config: DeploymentConfigView, program: Seq<char>, args: Seq<Seq<char>>)
    -> CommandView {
    CommandView { program, args, dir: Some(sources_dir(config)) }
}

/// The command that runs the deployment script `script`.
pub open spec fn hardhat(config: DeploymentConfigView, script: Seq<char>) -> CommandView {
    tool(config, "npx"@, seq!["hardhat"@, "run"@, script, "--network"@, DEPLOY_NETWORK@])
}

/// The request that opens `stage`. `reply` is the reply that closed the
/// stage before it, `creator` the creator contract's address as far as known.
pub open spec fn request(
    config: DeploymentConfigView,
    stage: DeployStage,
    creator: Seq<char>,
    reply: ReplyView,
) -> DeployActionView {
    match stage {
        DeployStage::CreatingWorkspace => DeployActionView::CreateDirectory(
            FilePathView { base: config.workspace_dir, relative: Seq::empty() },
        ),
        DeployStage::CloningRepository => DeployActionView::Run(
            CommandView {
                program: "git"@,
                args: seq!["clone"@, NITRO_CONTRACTS_REPO@],
                dir: Some(FilePathView { base: config.workspace_dir, relative: Seq::empty() }),
            },
        ),
        DeployStage::CheckingOutBranch => DeployActionView::Run(
            tool(config, "git"@, seq!["checkout"@, NITRO_CONTRACTS_BRANCH@]),
        ),
        DeployStage::InstallingPackages => DeployActionView::Run(
            tool(config, "yarn"@, seq!["install"@]),
        ),
        DeployStage::InstallingLibraries => DeployActionView::Run(
            tool(config, "forge"@, seq!["install"@]),
        ),
        DeployStage::Building => DeployActionView::Run(tool(config, "yarn"@, seq!["build:all"@])),
        DeployStage::WritingEnvironment => DeployActionView::WriteFile {
            path: environment_file(config),
            content: environment(config),
        },
        DeployStage::ReadingTemplate => DeployActionView::ReadFile(template_file(config)),
        DeployStage::WritingScript => DeployActionView::WriteFile {
            path: script_file(config),
            content: render_script(config, reply.content()),
        },
        DeployStage::DeployingContracts => DeployActionView::Run(
            hardhat(config, "scripts/deployment.ts"@),
        ),
        DeployStage::ReadingEnvironment => DeployActionView::ReadFile(environment_file(config)),
        DeployStage::RecordingCreator => DeployActionView::WriteFile {
            path: environment_file(config),
            content: environment_with_creator(reply.content(), creator),
        },
        DeployStage::CreatingProxy => DeployActionView::Run(
            hardhat(config, "scripts/createEthRollup.ts"@),
        ),
        _ => DeployActionView::Halt,
    }
}

/// An error of `kind` with the text `message`.
pub open spec fn failed(kind: ErrorKind, message: Seq<char>) -> Option<RaasErrorView> {
    Some(RaasErrorView { kind, message })
}

/// What is wrong with `reply` as the reply to a file request: nothing where
/// the request was carried out, else `prefix` and the host's reason.
pub open spec fn file_failure(reply: ReplyView, prefix: Seq<char>) -> Option<RaasErrorView> {
    match reply {
        ReplyView::Done(_) => None,
        ReplyView::Failed(reason) => failed(ErrorKind::Io, prefix + reason),
        ReplyView::Exited { .. } => failed(
            ErrorKind::Precondition,
            "A file request was answered as a command"@,
        ),
    }
}

/// What is wrong with `reply` as the reply to a command: nothing where the
/// program ended with success; the host's reason where it did not start;
/// else `prefix`, followed by what the program wrote to its standard error.
pub open spec fn command_failure(reply: ReplyView, prefix: Seq<char>) -> Option<RaasErrorView> {
    match reply {
        ReplyView::Done(_) => failed(
            ErrorKind::Precondition,
            "A command was answered as a file request"@,
        ),
        ReplyView::Failed(reason) => failed(ErrorKind::Io, reason),
        ReplyView::Exited { success, stdout, stderr } => if success {
            None
        } else {
            failed(ErrorKind::Process, prefix + stderr)
        },
    }
}

/// What the output of the proxy script lacks, if anything.
pub open spec fn proxy_failure(output: Seq<char>) -> Option<RaasErrorView> {
    if stated_value(output, PROXY_MARKER@) is None {
        failed(ErrorKind::Parse, "Could not extract rollup proxy address from output"@)
    } else if upgrade_executor(output) is None {
        failed(
            ErrorKind::Parse,
            "Could not extract upgrade executor address from deployments file"@,
        )
    } else if deployment_block(output) is None {
        failed(ErrorKind::Parse, "Could not read the deployment block from output"@)
    } else {
        None
    }
}

/// Why `reply` ends the deployment at `stage`, if it does.
pub open spec fn failure(config: DeploymentConfigView, stage: DeployStage, reply: ReplyView)
    -> Option<RaasErrorView> {
    match stage {
        DeployStage::CreatingWorkspace => file_failure(reply, Seq::empty()),
        DeployStage::CloningRepository => command_failure(
            reply,
            "Failed to clone contracts repository: "@,
        ),
        DeployStage::CheckingOutBranch => command_failure(reply, "Failed to checkout branch: "@),
        DeployStage::InstallingPackages => command_failure(reply, "Command 'yarn' failed: "@),
        DeployStage::InstallingLibraries => command_failure(reply, "Command 'forge' failed: "@),
        DeployStage::Building => match reply {
            ReplyView::Exited { .. } => None,
            _ => command_failure(reply, Seq::empty()),
        },
        DeployStage::WritingEnvironment => file_failure(reply, Seq::empty()),
        DeployStage::ReadingTemplate => match file_failure(
            reply,
            "Failed to read config template: "@,
        ) {
            Some(error) => Some(error),
            None => if config.validators.len() == 0 {
                failed(ErrorKind::Configuration, "No validator address is configured"@)
            } else {
                None
            },
        },
        DeployStage::WritingScript => file_failure(reply, "Failed to write config.ts: "@),
        DeployStage::DeployingContracts => match command_failure(reply, "Deployment failed: "@) {
            Some(error) => Some(error),
            None => if stated_value(reply.output(), CREATOR_MARKER@) is None {
                failed(
                    ErrorKind::Parse,
                    "Could not extract rollup creator address from output"@,
                )
            } else {
                None
            },
        },
        DeployStage::ReadingEnvironment => file_failure(reply, Seq::empty()),
        DeployStage::RecordingCreator => file_failure(reply, Seq::empty()),
        DeployStage::CreatingProxy => match command_failure(
            reply,
            "Rollup proxy deployment failed: "@,
        ) {
            Some(error) => Some(error),
            None => proxy_failure(reply.output()),
        },
        _ => None,
    }
}

/// What a deployment brought about, read from the output of the proxy
/// script.
pub open spec fn result_of(config: DeploymentConfigView, creator: Seq<char>, output: Seq<char>)
    -> DeploymentResultView {
    DeploymentResultView {
        rollup_creator_address: creator,
        rollup_proxy_address: stated_value(output, PROXY_MARKER@).unwrap(),
        upgrade_executor_address: upgrade_executor(output).unwrap(),
        deployment_block: deployment_block(output).unwrap(),
        chain_id: config.chain_id,
    }
}

/// One transition of a deployment: from the state in which `reply` arrives
/// to the state after it, with what the host is to do next.
///
/// The first reply only sets the deployment going. From then on each reply
/// answers the request that is out. A reply that `failure` finds fault with
/// ends the deployment at the step of that request; any other reply opens
/// the next stage, or ends the deployment with its result after the last. A
/// deployment that has ended stays as it is.
pub open spec fn deploy_step(config: DeploymentConfigView, state: DeployStateView, reply: ReplyView)
    -> (DeployStateView, DeployActionView) {
    if state.stage.is_final() {
        (state, DeployActionView::Halt)
    } else if state.stage is Idle {
        (
            DeployStateView { stage: DeployStage::CreatingWorkspace, creator: state.creator },
            request(config, DeployStage::CreatingWorkspace, state.creator, reply),
        )
    } else {
        match failure(config, state.stage, reply) {
            Some(error) => (
                DeployStateView {
                    stage: DeployStage::Failed(state.stage.step()),
                    creator: state.creator,
                },
                DeployActionView::Abort(DeployErrorView { step: state.stage.step(), error }),
            ),
            None => {
                let creator = if state.stage is DeployingContracts {
                    stated_value(reply.output(), CREATOR_MARKER@).unwrap()
                } else {
                    state.creator
                };
                if state.stage is CreatingProxy {
                    (
                        DeployStateView { stage: DeployStage::Finished, creator },
                        DeployActionView::Finish(result_of(config, creator, reply.output())),
                    )
                } else {
                    (
                        DeployStateView { stage: state.stage.successor(), creator },
                        request(config, state.stage.successor(), creator, reply),
                    )
                }
            },
        }
    }
}

/// An error of kind `Parse` with the text `message`.
fn parse_error(message: &str) -> (e: RaasError)
    ensures
        Some(e@) == failed(ErrorKind::Parse, message@),
{
    RaasError::new(ErrorKind::Parse, message)
}

/// What is wrong with `reply` as the reply to a file request.
pub fn file_failed(reply: &Reply, prefix: &str) -> (r: Option<RaasError>)
    ensures
        match r {
            Some(e) => file_failure(reply@, prefix@) == Some(e@),
            None => file_failure(reply@, prefix@) is None,
        },
{
    match reply {
        Reply::Done(_) => None,
        Reply::Failed(reason) => Some(
            RaasError::with_detail(ErrorKind::Io, prefix, reason.as_str()),
        ),
        Reply::Exited { .. } => Some(
            RaasError::new(ErrorKind::Precondition, "A file request was answered as a command"),
        ),
    }
}

/// What is wrong with `reply` as the reply to a command.
pub fn command_failed(reply: &Reply, prefix: &str) -> (r: Option<RaasError>)
    ensures
        match r {
            Some(e) => command_failure(reply@, prefix@) == Some(e@),
            None => command_failure(reply@, prefix@) is None,
        },
{
    match reply {
        Reply::Done(_) => Some(
            RaasError::new(ErrorKind::Precondition, "A command was answered as a file request"),
        ),
        Reply::Failed(reason) => Some(RaasError::new(ErrorKind::Io, reason.as_str())),
        Reply::Exited { success, stdout, stderr } => {
            if *success {
                None
            } else {
                Some(RaasError::with_detail(ErrorKind::Process, prefix, stderr.as_str()))
            }
        },
    }
}

/// Runs the deployment of one rollup's contracts, request by request.
pub struct RollupDeployer {
    config: DeploymentConfig,
}

impl View for RollupDeployer {
    type V = DeploymentConfigView;

    closed spec fn view(&self) -> DeploymentConfigView {
        self.config@
    }
}

impl RollupDeployer {
    pub fn new(config: DeploymentConfig) -> (deployer: Self)
        ensures
            deployer@ == config@,
    {
        RollupDeployer { config }
    }

    /// The configuration that is deployed.
    pub fn config(&self) -> (config: &DeploymentConfig)
        ensures
            config@ == self@,
    {
        &self.config
    }

    /// The address of the creator contract that the deployment script
    /// reports in `output`; an error where it reports none, also where the
    /// marker stands with nothing behind it.
    pub fn extract_rollup_creator_address(&self, output: &str) -> (r: Result<String, RaasError>)
        ensures
            match r {
                Ok(address) => stated_value(output@, CREATOR_MARKER@) == Some(address@)
                    && address@.len() > 0,
                Err(e) => stated_value(output@, CREATOR_MARKER@) is None && Some(e@) == failed(
                    ErrorKind::Parse,
                    "Could not extract rollup creator address from output"@,
                ),
            },
    {
        match extract_stated(output, CREATOR_MARKER) {
            Some(address) => Ok(address),
            None => Err(parse_error("Could not extract rollup creator address from output")),
        }
    }

    /// The address of the proxy contract that the proxy script reports in
    /// `output`; an error where it reports none, also where the marker
    /// stands with nothing behind it.
    pub fn extract_rollup_proxy_address(&self, output: &str) -> (r: Result<String, RaasError>)
        ensures
            match r {
                Ok(address) => stated_value(output@, PROXY_MARKER@) == Some(address@)
                    && address@.len() > 0,
                Err(e) => stated_value(output@, PROXY_MARKER@) is None && Some(e@) == failed(
                    ErrorKind::Parse,
                    "Could not extract rollup proxy address from output"@,
                ),
            },
    {
        match extract_stated(output, PROXY_MARKER) {
            Some(address) => Ok(address),
            None => Err(parse_error("Could not extract rollup proxy address from output")),
        }
    }

    /// The address of the upgrade executor that `content` reports; an error
    /// where it reports none.
    pub fn extract_upgrade_executor_address(&self, content: &str) -> (r: Result<
        String,
        RaasError,
    >)
        ensures
            match r {
                Ok(address) => upgrade_executor(content@) == Some(address@) && address@.len()
                    > 0,
                Err(e) => upgrade_executor(content@) is None && Some(e@) == failed(
                    ErrorKind::Parse,
                    "Could not extract upgrade executor address from deployments file"@,
                ),
            },
    {
        let s = chars_of(content);
        let n: usize = s.len();
        let executor_key = chars_of(EXECUTOR_KEY);
        let address_key = chars_of(ADDRESS_KEY);
        let quote = chars_of("\"");
        proof {
            assert(s@.subrange(0, n as int) =~= s@);
        }
        let found: Option<(usize, usize)> = match find_between(&s, &executor_key, 0, n) {
            None => None,
            Some(key) => match find_between(&s, &address_key, key + executor_key.len(), n) {
                None => None,
                Some(at) => {
                    let open = skip_space(&s, at + address_key.len());
                    if open < n && s[open] == '"' {
                        match find_between(&s, &quote, open + 1, n) {
                            Some(end) => {
                                if open + 1 < end {
                                    Some((open + 1, end))
                                } else {
                                    None
                                }
                            },
                            None => None,
                        }
                    } else {
                        None
                    }
                },
            },
        };
        match found {
            Some((from, to)) => Ok(slice_to_string(content, from, to)),
            None => Err(
                parse_error("Could not extract upgrade executor address from deployments file"),
            ),
        }
    }

    /// The number of the deployment block that the proxy script reports in
    /// `output`: zero where it reports none.
    pub fn extract_deployment_block(&self, output: &str) -> (r: Result<u64, RaasError>)
        ensures
            match r {
                Ok(block) => deployment_block(output@) == Some(block),
                Err(e) => deployment_block(output@) is None && Some(e@) == failed(
                    ErrorKind::Parse,
                    "Could not read the deployment block from output"@,
                ),
            },
    {
        match extract_value(output, BLOCK_MARKER) {
            None => Ok(0),
            Some(value) => match parse_decimal(value.as_str()) {
                Some(block) => Ok(block),
                None => Err(parse_error("Could not read the deployment block from output")),
            },
        }
    }

    /// The workspace itself.
    fn workspace(&self) -> (path: FilePath)
        ensures
            path@ == (FilePathView { base: self@.workspace_dir, relative: Seq::empty() }),
    {
        FilePath { base: self.config.workspace_dir.clone(), relative: String::new() }
    }

    /// A place below the workspace.
    fn below_workspace(&self, relative: &str) -> (path: FilePath)
        ensures
            path@ == (FilePathView { base: self@.workspace_dir, relative: relative@ }),
    {
        FilePath { base: self.config.workspace_dir.clone(), relative: String::from_str(relative) }
    }

    /// The command that fetches the sources at `stage`: first the clone, then
    /// the switch to the branch that is deployed.
    fn clone_contracts_repo(&self, stage: DeployStage) -> (command: Command)
        requires
            stage is CloningRepository || stage is CheckingOutBranch,
        ensures
            DeployActionView::Run(command@) == request(
                self@,
                stage,
                Seq::empty(),
                ReplyView::Done(Seq::empty()),
            ),
    {
        match stage {
            DeployStage::CloningRepository => {
                let command = Command::new("git", Some(self.workspace())).arg("clone").arg(
                    NITRO_CONTRACTS_REPO,
                );
                assert(command@.args =~= seq!["clone"@, NITRO_CONTRACTS_REPO@]);
                command
            },
            _ => {
                let command = Command::new(
                    "git",
                    Some(self.below_workspace(NITRO_CONTRACTS_DIR)),
                ).arg("checkout").arg(NITRO_CONTRACTS_BRANCH);
                assert(command@.args =~= seq!["checkout"@, NITRO_CONTRACTS_BRANCH@]);
                command
            },
        }
    }

    /// The command that builds the sources at `stage`: first the packages,
    /// then the libraries, then the contracts themselves.
    fn build_contracts(&self, stage: DeployStage) -> (command: Command)
        requires
            stage is InstallingPackages || stage is InstallingLibraries || stage is Building,
        ensures
            DeployActionView::Run(command@) == request(
                self@,
                stage,
                Seq::empty(),
                ReplyView::Done(Seq::empty()),
            ),
    {
        let dir = Some(self.below_workspace(NITRO_CONTRACTS_DIR));
        match stage {
            DeployStage::InstallingPackages => {
                let command = Command::new("yarn", dir).arg("install");
                command
            },
            DeployStage::InstallingLibraries => {
                let command = Command::new("forge", dir).arg("install");
                command
            },
            _ => {
                let command = Command::new("yarn", dir).arg("build:all");
                command
            },
        }
    }

    /// What the environment file holds at first.
    pub fn create_env_file(&self) -> (content: String)
        ensures
            content@ == environment(self@),
    {
        let content = String::from_str("ARBISCAN_API_KEY=\"");
        let content = content.concat(self.config.arbiscan_api_key.as_str());
        let content = content.concat("\"\nDEVNET_PRIVKEY=\"");
        let content = content.concat(self.config.private_key.as_str());
        let content = content.concat("\"\nESPRESSO_TEE_VERIFIER_ADDRESS=\"");
        content.concat(TEE_VERIFIER_ADDRESS).concat("\"\n")
    }

    /// The configuration script made from `template`.
    fn create_config_file(&self, template: &str) -> (script: String)
        requires
            self@.validators.len() > 0,
        ensures
            script@ == render_script(self@, template@),
    {
        let chain = decimal_string(self.config.chain_id);
        let owner = self.config.initial_chain_owner.as_str();
        let a = replace_all(template, "OWNER_ADDRESS", owner);
        let b = replace_all(a.as_str(), "YOUR_CHAIN_ID", chain.as_str());
        let c = replace_all(b.as_str(), "ChainID", chain.as_str());
        let d = replace_all(c.as_str(), "YOUR_OWNED_ADDRESS", owner);
        let e = replace_all(d.as_str(), "AN_OWNED_ADDRESS", self.config.validators[0].as_str());
        replace_all(
            e.as_str(),
            "ANOTHER_OWNED_ADDRESS",
            self.config.batch_poster_address.as_str(),
        )
    }

    /// The command that runs the deployment script `script`.
    fn run_script(&self, script: &str) -> (command: Command)
        ensures
            command@ == hardhat(self@, script@),
    {
        let command = Command::new("npx", Some(self.below_workspace(NITRO_CONTRACTS_DIR))).arg(
            "hardhat",
        ).arg("run").arg(script).arg("--network").arg(DEPLOY_NETWORK);
        assert(command@.args =~= seq![
            "hardhat"@,
            "run"@,
            script@,
            "--network"@,
            DEPLOY_NETWORK@,
        ]);
        command
    }

    /// The command that deploys the contracts.
    pub fn deploy_contracts(&self) -> (command: Command)
        ensures
            command@ == hardhat(self@, "scripts/deployment.ts"@),
    {
        self.run_script("scripts/deployment.ts")
    }

    /// The environment file `content` with the creator contract's address
    /// added.
    pub fn update_env_with_creator(&self, content: &str, creator: &str) -> (updated: String)
        ensures
            updated@ == environment_with_creator(content@, creator@),
    {
        String::from_str(content).concat("ROLLUP_CREATOR_ADDRESS=\"").concat(creator).concat(
            "\"\n",
        )
    }

    /// The command that creates the rollup's proxy contract.
    pub fn deploy_rollup_proxy(&self) -> (command: Command)
        ensures
            command@ == hardhat(self@, "scripts/createEthRollup.ts"@),
    {
        self.run_script("scripts/createEthRollup.ts")
    }

    /// The request that opens `stage`.
    fn request(&self, stage: DeployStage, creator: &str, reply: &Reply) -> (action:
        DeployAction)
        requires
            stage is WritingScript ==> self@.validators.len() > 0,
        ensures
            action@ == request(self@, stage, creator@, reply@),
    {
        proof {
            reveal_strlit("");
            assert(""@ =~= Seq::<char>::empty());
        }
        match stage {
            DeployStage::CreatingWorkspace => DeployAction::CreateDirectory(self.workspace()),
            DeployStage::CloningRepository | DeployStage::CheckingOutBranch => DeployAction::Run(
                self.clone_contracts_repo(stage),
            ),
            DeployStage::InstallingPackages
            | DeployStage::InstallingLibraries
            | DeployStage::Building => DeployAction::Run(self.build_contracts(stage)),
            DeployStage::WritingEnvironment => DeployAction::WriteFile {
                path: self.below_workspace("nitro-contracts/.env"),
                content: self.create_env_file(),
            },
            DeployStage::ReadingTemplate => DeployAction::ReadFile(
                self.below_workspace("nitro-contracts/scripts/config.template.ts"),
            ),
            DeployStage::WritingScript => {
                let content = match reply {
                    Reply::Done(template) => self.create_config_file(template.as_str()),
                    _ => self.create_config_file(""),
                };
                DeployAction::WriteFile {
                    path: self.below_workspace("nitro-contracts/scripts/config.ts"),
                    content,
                }
            },
            DeployStage::DeployingContracts => DeployAction::Run(self.deploy_contracts()),
            DeployStage::ReadingEnvironment => DeployAction::ReadFile(
                self.below_workspace("nitro-contracts/.env"),
            ),
            DeployStage::RecordingCreator => {
                let content = match reply {
                    Reply::Done(content) => self.update_env_with_creator(
                        content.as_str(),
                        creator,
                    ),
                    _ => self.update_env_with_creator("", creator),
                };
                DeployAction::WriteFile {
                    path: self.below_workspace("nitro-contracts/.env"),
                    content,
                }
            },
            DeployStage::CreatingProxy => DeployAction::Run(self.deploy_rollup_proxy()),
            _ => DeployAction::Halt,
        }
    }

    /// What the output of the proxy script lacks, if anything.
    fn proxy_failed(&self, output: &str) -> (r: Option<RaasError>)
        ensures
            match r {
                Some(e) => proxy_failure(output@) == Some(e@),
                None => proxy_failure(output@) is None,
            },
    {
        match self.extract_rollup_proxy_address(output) {
            Err(e) => Some(e),
            Ok(_) => match self.extract_upgrade_executor_address(output) {
                Err(e) => Some(e),
                Ok(_) => match self.extract_deployment_block(output) {
                    Err(e) => Some(e),
                    Ok(_) => None,
                },
            },
        }
    }

    /// Why `reply` ends the deployment at `stage`, if it does.
    pub fn failure(&self, stage: DeployStage, reply: &Reply) -> (r: Option<RaasError>)
        ensures
            match r {
                Some(e) => failure(self@, stage, reply@) == Some(e@),
                None => failure(self@, stage, reply@) is None,
            },
    {
        match stage {
            DeployStage::CreatingWorkspace
            | DeployStage::WritingEnvironment
            | DeployStage::ReadingEnvironment
            | DeployStage::RecordingCreator => {
                let r = file_failed(reply, "");
                proof {
                    reveal_strlit("");
                }
                r
            },
            DeployStage::CloningRepository => command_failed(
                reply,
                "Failed to clone contracts repository: ",
            ),
            DeployStage::CheckingOutBranch => command_failed(reply, "Failed to checkout branch: "),
            DeployStage::InstallingPackages => command_failed(reply, "Command 'yarn' failed: "),
            DeployStage::InstallingLibraries => command_failed(reply, "Command 'forge' failed: "),
            DeployStage::Building => match reply {
                Reply::Exited { .. } => None,
                _ => {
                    let r = command_failed(reply, "");
                    proof {
                        reveal_strlit("");
                        assert(""@ =~= Seq::<char>::empty());
                    }
                    r
                },
            },
            DeployStage::ReadingTemplate => match file_failed(
                reply,
                "Failed to read config template: ",
            ) {
                Some(e) => Some(e),
                None => {
                    if self.config.validators.len() == 0 {
                        Some(
                            RaasError::new(
                                ErrorKind::Configuration,
                                "No validator address is configured",
                            ),
                        )
                    } else {
                        None
                    }
                },
            },
            DeployStage::WritingScript => file_failed(reply, "Failed to write config.ts: "),
            DeployStage::DeployingContracts => match command_failed(reply, "Deployment failed: ") {
                Some(e) => Some(e),
                None => match reply {
                    Reply::Exited { stdout, .. } => match self.extract_rollup_creator_address(
                        stdout.as_str(),
                    ) {
                        Ok(_) => None,
                        Err(e) => Some(e),
                    },
                    _ => None,
                },
            },
            DeployStage::CreatingProxy => match command_failed(
                reply,
                "Rollup proxy deployment failed: ",
            ) {
                Some(e) => Some(e),
                None => match reply {
                    Reply::Exited { stdout, .. } => self.proxy_failed(stdout.as_str()),
                    _ => None,
                },
            },
            _ => None,
        }
    }

    /// What the deployment brought about, from the output of the proxy
    /// script.
    fn result(&self, creator: String, output: &str) -> (result: DeploymentResult)
        requires
            proxy_failure(output@) is None,
        ensures
            result@ == result_of(self@, creator@, output@),
    {
        let proxy = match self.extract_rollup_proxy_address(output) {
            Ok(address) => address,
            Err(_) => String::new(),
        };
        let executor = match self.extract_upgrade_executor_address(output) {
            Ok(address) => address,
            Err(_) => String::new(),
        };
        let block = match self.extract_deployment_block(output) {
            Ok(block) => block,
            Err(_) => 0,
        };
        DeploymentResult {
            rollup_creator_address: creator,
            rollup_proxy_address: proxy,
            upgrade_executor_address: executor,
            deployment_block: block,
            chain_id: self.config.chain_id,
        }
    }

    /// One transition of the deployment: takes the reply to the request that
    /// is out and returns the state after it with the next request, or with
    /// the end of the deployment.
    pub fn deploy(&self, state: DeployState, reply: Reply) -> (next: (DeployState, DeployAction))
        ensures
            (next.0@, next.1@) == deploy_step(self@, state@, reply@),
    {
        let stage = state.stage;
        match stage {
            DeployStage::Finished | DeployStage::Failed(_) => {
                return (state, DeployAction::Halt);
            },
            DeployStage::Idle => {
                let action = self.request(
                    DeployStage::CreatingWorkspace,
                    state.creator.as_str(),
                    &reply,
                );
                return (
                    DeployState { stage: DeployStage::CreatingWorkspace, creator: state.creator },
                    action,
                );
            },
            _ => {},
        }
        match self.failure(stage, &reply) {
            Some(error) => {
                let step = stage.step_of();
                (
                    DeployState { stage: DeployStage::Failed(step), creator: state.creator },
                    DeployAction::Abort(DeployError { step, error }),
                )
            },
            None => {
                let creator = match (stage, &reply) {
                    (DeployStage::DeployingContracts, Reply::Exited { stdout, .. }) => {
                        match self.extract_rollup_creator_address(stdout.as_str()) {
                            Ok(address) => address,
                            Err(_) => state.creator,
                        }
                    },
                    _ => state.creator,
                };
                match (stage, &reply) {
                    (DeployStage::CreatingProxy, Reply::Exited { stdout, .. }) => {
                        let result = self.result(creator.clone(), stdout.as_str());
                        (
                            DeployState { stage: DeployStage::Finished, creator },
                            DeployAction::Finish(result),
                        )
                    },
                    _ => {
                        let following = stage.next();
                        let action = self.request(following, creator.as_str(), &reply);
                        (DeployState { stage: following, creator }, action)
                    },
                }
            },
        }
    }
}

/// Deploys contracts by the project's own deploy script.
#[derive(Debug)]
pub struct Deployer {
    pub address: String,
    pub private_key: String,
    pub chain_id: u64,
    pub rpc_url: String,
}

/// The mathematical value of a `Deployer`.
pub struct DeployerView {
    pub address: Seq<char>,
    pub private_key: Seq<char>,
    pub chain_id: u64,
    pub rpc_url: Seq<char>,
}

impl View for Deployer {
    type V = DeployerView;

    open spec fn view(&self) -> DeployerView {
        DeployerView {
            address: self.address@,
            private_key: self.private_key@,
            chain_id: self.chain_id,
            rpc_url: self.rpc_url@,
        }
    }
}

/// The address that a deployer reports for the creator contract and for the
/// upgrade executor.
pub const REPORTED_CREATOR: &'static str = "0x1234567890123456789012345678901234567890";

/// The address that a deployer reports for the proxy contract.
pub const REPORTED_PROXY: &'static str = "0x0987654321098765432109876543210987654321";

/// The command line that a deployer runs in a shell.
pub open spec fn shell_line(deployer: DeployerView) -> Seq<char> {
    "export PRIVATE_KEY="@ + deployer.private_key + " && export RPC_URL="@ + deployer.rpc_url
        + " && npm run deploy"@
}

/// What a deployer reports of a deployment on the chain `chain_id`: fixed
/// addresses and block zero.
pub open spec fn reported(chain_id: u64) -> DeploymentResultView {
    DeploymentResultView {
        rollup_creator_address: REPORTED_CREATOR@,
        rollup_proxy_address: REPORTED_PROXY@,
        upgrade_executor_address: REPORTED_CREATOR@,
        deployment_block: 0,
        chain_id,
    }
}

impl Deployer {
    pub fn new(address: String, private_key: String, chain_id: u64, rpc_url: String) -> (deployer:
        Self)
        ensures
            deployer@ == (DeployerView {
                address: address@,
                private_key: private_key@,
                chain_id,
                rpc_url: rpc_url@,
            }),
    {
        Deployer { address, private_key, chain_id, rpc_url }
    }

    /// The command that deploys the contracts: the deploy script, run in a
    /// shell with the key and the endpoint in its environment.
    pub fn deploy_command(&self) -> (command: Command)
        ensures
            command@ == (CommandView {
                program: "sh"@,
                args: seq!["-c"@, shell_line(self@)],
                dir: None,
            }),
    {
        let line = String::from_str("export PRIVATE_KEY=").concat(self.private_key.as_str()).concat(
            " && export RPC_URL=",
        ).concat(self.rpc_url.as_str()).concat(" && npm run deploy");
        let command = Command::new("sh", None).arg("-c").arg(line.as_str());
        assert(command@.args =~= seq!["-c"@, shell_line(self@)]);
        command
    }

    /// What the deployment brought about, given how the command of
    /// `deploy_command` ended.
    pub fn deploy_contracts(&self, reply: &Reply) -> (r: Result<DeploymentResult, RaasError>)
        ensures
            match r {
                Ok(result) => command_failure(reply@, "Deployment failed: "@) is None && result@
                    == reported(self@.chain_id),
                Err(error) => command_failure(reply@, "Deployment failed: "@) == Some(error@),
            },
    {
        match command_failed(reply, "Deployment failed: ") {
            Some(error) => Err(error),
            None => Ok(self.parse_deployment_result()),
        }
    }

    /// What a deployer reports of a deployment. It does not depend on what
    /// the deploy script printed.
    pub fn parse_deployment_result(&self) -> (result: DeploymentResult)
        ensures
            result@ == reported(self@.chain_id),
    {
        DeploymentResult {
            rollup_creator_address: String::from_str(REPORTED_CREATOR),
            rollup_proxy_address: String::from_str(REPORTED_PROXY),
            upgrade_executor_address: String::from_str(REPORTED_CREATOR),
            deployment_block: 0,
            chain_id: self.chain_id,
        }
    }
}

} // verus!
