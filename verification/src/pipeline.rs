//! The deployment pipeline as a state machine. The pipeline itself performs
//! no outside work: each state says what has to be done next, and the answer
//! to it, handed in as an event, decides the state that follows.

use crate::artifact::{
    account_path, account_path_of, artifact_path, build_root, build_root_of, keystore_path,
    keystore_path_of, manifest_path, manifest_path_of, resolve_artifact_path,
};
use crate::command::{
    class_hash_in, compile_command, compile_invocation, declare_command, declare_invocation,
    deploy_command, deploy_invocation, extract_class_hash, fetch_command, fetch_invocation,
    keystore_command, keystore_invocation, Invocation, InvocationModel, StageResult,
    StageResultModel,
};
use crate::constructor::{
    is_file_reference, names_constructor_file, normalized, normalized_input,
    parse_constructor_args,
};
use vstd::prelude::*;
use vstd::string::*;

verus! {

/// The stages of a run, in the order in which they are passed.
#[derive(Clone, Copy, Debug, PartialEq, Eq, Structural)]
pub enum Stage {
    ValidateInputs,
    ReadManifest,
    Compile,
    GenerateKeystore,
    FetchAccount,
    ResolveAndValidateArtifact,
    Declare,
    NormalizeArgs,
    Deploy,
    Success,
}

/// The files that must be present before the contract is declared, in the
/// order in which they are looked for.
#[derive(Clone, Copy, Debug, PartialEq, Eq, Structural)]
pub enum RequiredFile {
    Artifact,
    Keystore,
    Account,
}

/// Why a run ended without deploying.
#[derive(Clone, Debug, PartialEq, Eq)]
pub enum PipelineError {
    PathNotFound,
    ManifestNotFound,
    ManifestMalformed,
    CompilationFailed,
    AccountFetchFailed,
    /// A required file is missing; holds its path.
    PreconditionMissing(String),
    /// The declare run failed; holds what it wrote to its error output.
    DeclareFailed(String),
    ClassHashNotFound,
    ConstructorFileUnreadable,
    DeployFailed,
    ToolLaunchFailed,
}

/// A [`PipelineError`] as plain values.
pub ghost enum ErrorModel {
    PathNotFound,
    ManifestNotFound,
    ManifestMalformed,
    CompilationFailed,
    AccountFetchFailed,
    PreconditionMissing(Seq<char>),
    DeclareFailed(Seq<char>),
    ClassHashNotFound,
    ConstructorFileUnreadable,
    DeployFailed,
    ToolLaunchFailed,
}

impl View for PipelineError {
    type V = ErrorModel;

    open spec fn view(&self) -> ErrorModel {
        match self {
            PipelineError::PathNotFound => ErrorModel::PathNotFound,
            PipelineError::ManifestNotFound => ErrorModel::ManifestNotFound,
            PipelineError::ManifestMalformed => ErrorModel::ManifestMalformed,
            PipelineError::CompilationFailed => ErrorModel::CompilationFailed,
            PipelineError::AccountFetchFailed => ErrorModel::AccountFetchFailed,
            PipelineError::PreconditionMissing(path) => ErrorModel::PreconditionMissing(path@),
            PipelineError::DeclareFailed(stderr) => ErrorModel::DeclareFailed(stderr@),
            PipelineError::ClassHashNotFound => ErrorModel::ClassHashNotFound,
            PipelineError::ConstructorFileUnreadable => ErrorModel::ConstructorFileUnreadable,
            PipelineError::DeployFailed => ErrorModel::DeployFailed,
            PipelineError::ToolLaunchFailed => ErrorModel::ToolLaunchFailed,
        }
    }
}

/// What a run is given: the project, the contract in it, the wallet, the
/// optional constructor input (the arguments themselves, or the path of a
/// file that holds them), the network endpoint, and the directory that holds
/// the keystore and the account descriptor.
#[derive(Clone, Debug, PartialEq, Eq)]
pub struct PipelineConfig {
    pub project_path: String,
    pub contract_name: String,
    pub wallet_address: String,
    pub constructor_input: Option<String>,
    pub rpc_endpoint: String,
    pub working_dir: String,
}

/// A [`PipelineConfig`] as plain values.
pub ghost struct ConfigModel {
    pub project_path: Seq<char>,
    pub contract_name: Seq<char>,
    pub wallet_address: Seq<char>,
    pub constructor_input: Option<Seq<char>>,
    pub rpc_endpoint: Seq<char>,
    pub working_dir: Seq<char>,
}

impl View for PipelineConfig {
    type V = ConfigModel;

    open spec fn view(&self) -> ConfigModel {
        ConfigModel {
            project_path: self.project_path@,
            contract_name: self.contract_name@,
            wallet_address: self.wallet_address@,
            constructor_input: self.constructor_input.deep_view(),
            rpc_endpoint: self.rpc_endpoint@,
            working_dir: self.working_dir@,
        }
    }
}

/// What the manifest of a project says, as far as the pipeline reads it.
#[derive(Clone, Debug, PartialEq, Eq)]
pub struct ProjectManifest {
    pub package_name: String,
}

/// How reading the manifest went.
#[derive(Clone, Debug, PartialEq, Eq)]
pub enum ManifestOutcome {
    /// There is no manifest file to read.
    Missing,
    /// The file holds no package name.
    Malformed,
    Loaded(ProjectManifest),
}

/// A [`ManifestOutcome`] as plain values.
pub ghost enum ManifestOutcomeModel {
    Missing,
    Malformed,
    Loaded(Seq<char>),
}

impl View for ManifestOutcome {
    type V = ManifestOutcomeModel;

    open spec fn view(&self) -> ManifestOutcomeModel {
        match self {
            ManifestOutcome::Missing => ManifestOutcomeModel::Missing,
            ManifestOutcome::Malformed => ManifestOutcomeModel::Malformed,
            ManifestOutcome::Loaded(manifest) => ManifestOutcomeModel::Loaded(
                manifest.package_name@,
            ),
        }
    }
}

/// The outside work that a state asks for.
#[derive(Clone, Debug, PartialEq, Eq)]
pub enum Action {
    /// Find out whether the path exists.
    CheckPath(String),
    /// Read the manifest file at the path and take the package name from it.
    ReadManifest(String),
    /// Read the text of the constructor file at the path.
    ReadConstructorFile(String),
    /// Run the tool and wait for it to end.
    Invoke(Invocation),
    /// Nothing is left to do: the run has ended.
    Stop,
}

/// An [`Action`] as plain values.
pub ghost enum ActionModel {
    CheckPath(Seq<char>),
    ReadManifest(Seq<char>),
    ReadConstructorFile(Seq<char>),
    Invoke(InvocationModel),
    Stop,
}

impl View for Action {
    type V = ActionModel;

    open spec fn view(&self) -> ActionModel {
        match self {
            Action::CheckPath(path) => ActionModel::CheckPath(path@),
            Action::ReadManifest(path) => ActionModel::ReadManifest(path@),
            Action::ReadConstructorFile(path) => ActionModel::ReadConstructorFile(path@),
            Action::Invoke(invocation) => ActionModel::Invoke(invocation@),
            Action::Stop => ActionModel::Stop,
        }
    }
}

/// The answer to an [`Action`].
#[derive(Clone, Debug, PartialEq, Eq)]
pub enum Event {
    /// Answers `CheckPath`.
    PathChecked(bool),
    /// Answers `ReadManifest`.
    ManifestRead(ManifestOutcome),
    /// Answers `ReadConstructorFile`: the text, or `None` where the file
    /// could not be read.
    ConstructorFileRead(Option<String>),
    /// Answers `Invoke`: the tool ran and ended.
    ToolFinished(StageResult),
    /// Answers `Invoke`: the tool could not be started.
    ToolLaunchFailed,
}

/// An [`Event`] as plain values.
pub ghost enum EventModel {
    PathChecked(bool),
    ManifestRead(ManifestOutcomeModel),
    ConstructorFileRead(Option<Seq<char>>),
    ToolFinished(StageResultModel),
    ToolLaunchFailed,
}

impl View for Event {
    type V = EventModel;

    open spec fn view(&self) -> EventModel {
        match self {
            Event::PathChecked(exists) => EventModel::PathChecked(*exists),
            Event::ManifestRead(outcome) => EventModel::ManifestRead(outcome@),
            Event::ConstructorFileRead(contents) => EventModel::ConstructorFileRead(
                contents.deep_view(),
            ),
            Event::ToolFinished(result) => EventModel::ToolFinished(result@),
            Event::ToolLaunchFailed => EventModel::ToolLaunchFailed,
        }
    }
}

/// Where a run stands. Each state but the last two waits for the answer to
/// the action of its stage, and holds what the stages before it found out.
#[derive(Clone, Debug, PartialEq, Eq)]
pub enum PipelineState {
    ValidateInputs,
    ReadManifest,
    Compile { package_name: String },
    GenerateKeystore { package_name: String },
    /// `keystore_warning` tells that creating the keystore reported a
    /// failure, which does not end the run.
    FetchAccount { package_name: String, keystore_warning: bool },
    ResolveAndValidateArtifact { package_name: String, checking: RequiredFile },
    Declare { package_name: String },
    /// Waits for the text of the constructor file `file`.
    NormalizeArgs { class_hash: String, file: String },
    Deploy { class_hash: String, tokens: Vec<String> },
    /// The contract is deployed.
    Success { class_hash: String, deploy_stdout: String },
    /// The run ended at `stage` with `error`.
    Failed { stage: Stage, error: PipelineError },
}

/// A [`PipelineState`] as plain values.
pub ghost enum StateModel {
    ValidateInputs,
    ReadManifest,
    Compile { package_name: Seq<char> },
    GenerateKeystore { package_name: Seq<char> },
    FetchAccount { package_name: Seq<char>, keystore_warning: bool },
    ResolveAndValidateArtifact { package_name: Seq<char>, checking: RequiredFile },
    Declare { package_name: Seq<char> },
    NormalizeArgs { class_hash: Seq<char>, file: Seq<char> },
    Deploy { class_hash: Seq<char>, tokens: Seq<Seq<char>> },
    Success { class_hash: Seq<char>, deploy_stdout: Seq<char> },
    Failed { stage: Stage, error: ErrorModel },
}

impl View for PipelineState {
    type V = StateModel;

    open spec fn view(&self) -> StateModel {
        match self {
            PipelineState::ValidateInputs => StateModel::ValidateInputs,
            PipelineState::ReadManifest => StateModel::ReadManifest,
            PipelineState::Compile { package_name } => StateModel::Compile {
                package_name: package_name@,
            },
            PipelineState::GenerateKeystore { package_name } => StateModel::GenerateKeystore {
                package_name: package_name@,
            },
            PipelineState::FetchAccount { package_name, keystore_warning } => {
                StateModel::FetchAccount {
                    package_name: package_name@,
                    keystore_warning: *keystore_warning,
                }
            },
            PipelineState::ResolveAndValidateArtifact { package_name, checking } => {
                StateModel::ResolveAndValidateArtifact {
                    package_name: package_name@,
                    checking: *checking,
                }
            },
            PipelineState::Declare { package_name } => StateModel::Declare {
                package_name: package_name@,
            },
            PipelineState::NormalizeArgs { class_hash, file } => StateModel::NormalizeArgs {
                class_hash: class_hash@,
                file: file@,
            },
            PipelineState::Deploy { class_hash, tokens } => StateModel::Deploy {
                class_hash: class_hash@,
                tokens: tokens.deep_view(),
            },
            PipelineState::Success { class_hash, deploy_stdout } => StateModel::Success {
                class_hash: class_hash@,
                deploy_stdout: deploy_stdout@,
            },
            PipelineState::Failed { stage, error } => StateModel::Failed {
                stage: *stage,
                error: error@,
            },
        }
    }
}

/// The state in which every run starts.
pub open spec fn initial_state() -> StateModel {
    StateModel::ValidateInputs
}

/// The stage at which a state stands. A failed run stands at the stage at
/// which it failed.
pub open spec fn stage_of(state: StateModel) -> Stage {
    match state {
        StateModel::ValidateInputs => Stage::ValidateInputs,
        StateModel::ReadManifest => Stage::ReadManifest,
        StateModel::Compile { .. } => Stage::Compile,
        StateModel::GenerateKeystore { .. } => Stage::GenerateKeystore,
        StateModel::FetchAccount { .. } => Stage::FetchAccount,
        StateModel::ResolveAndValidateArtifact { .. } => Stage::ResolveAndValidateArtifact,
        StateModel::Declare { .. } => Stage::Declare,
        StateModel::NormalizeArgs { .. } => Stage::NormalizeArgs,
        StateModel::Deploy { .. } => Stage::Deploy,
        StateModel::Success { .. } => Stage::Success,
        StateModel::Failed { stage, .. } => stage,
    }
}

/// Whether the run has ended, in success or in failure.
pub open spec fn is_terminal(state: StateModel) -> bool {
    state is Success || state is Failed
}

/// The exit code that stands for a state: 0 for a deployed contract, 1 for
/// every other state.
pub open spec fn exit_code_of(state: StateModel) -> int {
    if state is Success {
        0
    } else {
        1
    }
}

/// Path of the compiled artifact of the configured contract in the package.
pub open spec fn artifact_of(config: ConfigModel, package_name: Seq<char>) -> Seq<char> {
    artifact_path(build_root_of(package_name), package_name, config.contract_name)
}

/// Path of a file that must be present before the contract is declared.
pub open spec fn required_path(
    config: ConfigModel,
    package_name: Seq<char>,
    file: RequiredFile,
) -> Seq<char> {
    match file {
        RequiredFile::Artifact => artifact_of(config, package_name),
        RequiredFile::Keystore => keystore_path_of(config.working_dir),
        RequiredFile::Account => account_path_of(config.working_dir),
    }
}

/// The outside work that a state waits for.
pub open spec fn action_for(config: ConfigModel, state: StateModel) -> ActionModel {
    match state {
        StateModel::ValidateInputs => ActionModel::CheckPath(config.project_path),
        StateModel::ReadManifest => ActionModel::ReadManifest(
            manifest_path_of(config.project_path),
        ),
        StateModel::Compile { .. } => ActionModel::Invoke(
            compile_invocation(config.project_path),
        ),
        StateModel::GenerateKeystore { .. } => ActionModel::Invoke(
            keystore_invocation(config.working_dir),
        ),
        StateModel::FetchAccount { .. } => ActionModel::Invoke(
            fetch_invocation(config.wallet_address, config.rpc_endpoint, config.working_dir),
        ),
        StateModel::ResolveAndValidateArtifact { package_name, checking } => {
            ActionModel::CheckPath(required_path(config, package_name, checking))
        },
        StateModel::Declare { package_name } => ActionModel::Invoke(
            declare_invocation(
                artifact_of(config, package_name),
                config.rpc_endpoint,
                config.working_dir,
            ),
        ),
        StateModel::NormalizeArgs { file, .. } => ActionModel::ReadConstructorFile(file),
        StateModel::Deploy { class_hash, tokens } => ActionModel::Invoke(
            deploy_invocation(class_hash, tokens, config.rpc_endpoint, config.working_dir),
        ),
        StateModel::Success { .. } => ActionModel::Stop,
        StateModel::Failed { .. } => ActionModel::Stop,
    }
}

/// The state that ends a run at the stage of `state`.
pub open spec fn failed_at(state: StateModel, error: ErrorModel) -> StateModel {
    StateModel::Failed { stage: stage_of(state), error }
}

/// The state after a successful declare run that reported `class_hash`: where
/// the constructor input names a file, its text is asked for; otherwise the
/// input is normalized at once and the contract is ready to be deployed.
pub open spec fn after_declare(config: ConfigModel, class_hash: Seq<char>) -> StateModel {
    match config.constructor_input {
        Some(raw) if is_file_reference(raw) => StateModel::NormalizeArgs { class_hash, file: raw },
        _ => StateModel::Deploy { class_hash, tokens: normalized_input(config.constructor_input) },
    }
}

/// The state after the required file `checking` was found present.
pub open spec fn after_file_found(package_name: Seq<char>, checking: RequiredFile) -> StateModel {
    match checking {
        RequiredFile::Artifact => StateModel::ResolveAndValidateArtifact {
            package_name,
            checking: RequiredFile::Keystore,
        },
        RequiredFile::Keystore => StateModel::ResolveAndValidateArtifact {
            package_name,
            checking: RequiredFile::Account,
        },
        RequiredFile::Account => StateModel::Declare { package_name },
    }
}

/// The state that follows `state` when `event` comes in.
///
/// An event that does not answer the action of the state leaves the state as
/// it is. A tool that cannot be started ends the run, whatever the stage.
/// Otherwise a failure ends the run at the stage at which it happens, with
/// one exception: a failure to create the keystore is only noted.
pub open spec fn next_state(config: ConfigModel, state: StateModel, event: EventModel) -> StateModel {
    match (state, event) {
        (StateModel::ValidateInputs, EventModel::PathChecked(exists)) => {
            if exists {
                StateModel::ReadManifest
            } else {
                failed_at(state, ErrorModel::PathNotFound)
            }
        },
        (StateModel::ReadManifest, EventModel::ManifestRead(outcome)) => {
            match outcome {
                ManifestOutcomeModel::Missing => failed_at(state, ErrorModel::ManifestNotFound),
                ManifestOutcomeModel::Malformed => failed_at(state, ErrorModel::ManifestMalformed),
                ManifestOutcomeModel::Loaded(package_name) => StateModel::Compile { package_name },
            }
        },
        (StateModel::Compile { package_name }, EventModel::ToolFinished(result)) => {
            if result.exit_code == 0 {
                StateModel::GenerateKeystore { package_name }
            } else {
                failed_at(state, ErrorModel::CompilationFailed)
            }
        },
        (StateModel::GenerateKeystore { package_name }, EventModel::ToolFinished(result)) => {
            StateModel::FetchAccount { package_name, keystore_warning: result.exit_code != 0 }
        },
        (StateModel::FetchAccount { package_name, .. }, EventModel::ToolFinished(result)) => {
            if result.exit_code == 0 {
                StateModel::ResolveAndValidateArtifact {
                    package_name,
                    checking: RequiredFile::Artifact,
                }
            } else {
                failed_at(state, ErrorModel::AccountFetchFailed)
            }
        },
        (
            StateModel::ResolveAndValidateArtifact { package_name, checking },
            EventModel::PathChecked(exists),
        ) => {
            if exists {
                after_file_found(package_name, checking)
            } else {
                failed_at(
                    state,
                    ErrorModel::PreconditionMissing(required_path(config, package_name, checking)),
                )
            }
        },
        (StateModel::Declare { .. }, EventModel::ToolFinished(result)) => {
            if result.exit_code != 0 {
                failed_at(state, ErrorModel::DeclareFailed(result.stderr))
            } else {
                match class_hash_in(result.stdout) {
                    Some(class_hash) => after_declare(config, class_hash),
                    None => failed_at(state, ErrorModel::ClassHashNotFound),
                }
            }
        },
        (StateModel::NormalizeArgs { class_hash, .. }, EventModel::ConstructorFileRead(contents)) => {
            match contents {
                Some(text) => StateModel::Deploy { class_hash, tokens: normalized(text) },
                None => failed_at(state, ErrorModel::ConstructorFileUnreadable),
            }
        },
        (StateModel::Deploy { class_hash, .. }, EventModel::ToolFinished(result)) => {
            if result.exit_code == 0 {
                StateModel::Success { class_hash, deploy_stdout: result.stdout }
            } else {
                failed_at(state, ErrorModel::DeployFailed)
            }
        },
        (_, EventModel::ToolLaunchFailed) => {
            if action_for(config, state) is Invoke {
                failed_at(state, ErrorModel::ToolLaunchFailed)
            } else {
                state
            }
        },
        _ => state,
    }
}

/// Path of a file that must be present before the contract is declared.
fn required_file_path(config: &PipelineConfig, package_name: &str, file: RequiredFile) -> (path:
    String)
    ensures
        path@ == required_path(config@, package_name@, file),
{
    match file {
        RequiredFile::Artifact => {
            let root = build_root(package_name);
            resolve_artifact_path(root.as_str(), package_name, config.contract_name.as_str())
        },
        RequiredFile::Keystore => keystore_path(config.working_dir.as_str()),
        RequiredFile::Account => account_path(config.working_dir.as_str()),
    }
}

impl PipelineState {
    /// The state in which every run starts.
    pub fn start() -> (state: PipelineState)
        ensures
            state@ == initial_state(),
    {
        PipelineState::ValidateInputs
    }

    /// The stage at which the run stands.
    pub fn stage(&self) -> (stage: Stage)
        ensures
            stage == stage_of(self@),
    {
        match self {
            PipelineState::ValidateInputs => Stage::ValidateInputs,
            PipelineState::ReadManifest => Stage::ReadManifest,
            PipelineState::Compile { .. } => Stage::Compile,
            PipelineState::GenerateKeystore { .. } => Stage::GenerateKeystore,
            PipelineState::FetchAccount { .. } => Stage::FetchAccount,
            PipelineState::ResolveAndValidateArtifact { .. } => Stage::ResolveAndValidateArtifact,
            PipelineState::Declare { .. } => Stage::Declare,
            PipelineState::NormalizeArgs { .. } => Stage::NormalizeArgs,
            PipelineState::Deploy { .. } => Stage::Deploy,
            PipelineState::Success { .. } => Stage::Success,
            PipelineState::Failed { stage, .. } => *stage,
        }
    }

    /// The exit code with which a program that made this run should end: 0
    /// after a deployment, 1 otherwise.
    pub fn exit_code(&self) -> (code: i32)
        ensures
            code == exit_code_of(self@),
    {
        match self {
            PipelineState::Success { .. } => 0,
            _ => 1,
        }
    }

    /// Whether the run has ended, in success or in failure.
    pub fn is_finished(&self) -> (done: bool)
        ensures
            done == is_terminal(self@),
    {
        match self {
            PipelineState::Success { .. } => true,
            PipelineState::Failed { .. } => true,
            _ => false,
        }
    }
}

/// The outside work that `state` waits for.
pub fn pending_action(config: &PipelineConfig, state: &PipelineState) -> (action: Action)
    ensures
        action@ == action_for(config@, state@),
{
    match state {
        PipelineState::ValidateInputs => Action::CheckPath(config.project_path.clone()),
        PipelineState::ReadManifest => Action::ReadManifest(
            manifest_path(config.project_path.as_str()),
        ),
        PipelineState::Compile { .. } => Action::Invoke(
            compile_command(config.project_path.as_str()),
        ),
        PipelineState::GenerateKeystore { .. } => Action::Invoke(
            keystore_command(config.working_dir.as_str()),
        ),
        PipelineState::FetchAccount { .. } => Action::Invoke(
            fetch_command(
                config.wallet_address.as_str(),
                config.rpc_endpoint.as_str(),
                config.working_dir.as_str(),
            ),
        ),
        PipelineState::ResolveAndValidateArtifact { package_name, checking } => {
            Action::CheckPath(required_file_path(config, package_name.as_str(), *checking))
        },
        PipelineState::Declare { package_name } => {
            let artifact = required_file_path(
                config,
                package_name.as_str(),
                RequiredFile::Artifact,
            );
            Action::Invoke(
                declare_command(
                    artifact.as_str(),
                    config.rpc_endpoint.as_str(),
                    config.working_dir.as_str(),
                ),
            )
        },
        PipelineState::NormalizeArgs { file, .. } => Action::ReadConstructorFile(file.clone()),
        PipelineState::Deploy { class_hash, tokens } => Action::Invoke(
            deploy_command(
                class_hash.as_str(),
                tokens,
                config.rpc_endpoint.as_str(),
                config.working_dir.as_str(),
            ),
        ),
        PipelineState::Success { .. } => Action::Stop,
        PipelineState::Failed { .. } => Action::Stop,
    }
}

/// The state after a successful declare run that reported `class_hash`.
fn proceed_after_declare(config: &PipelineConfig, class_hash: String) -> (next: PipelineState)
    ensures
        next@ == after_declare(config@, class_hash@),
{
    match &config.constructor_input {
        Some(raw) => {
            if names_constructor_file(raw.as_str()) {
                PipelineState::NormalizeArgs { class_hash, file: raw.clone() }
            } else {
                let tokens = parse_constructor_args(&config.constructor_input);
                PipelineState::Deploy { class_hash, tokens }
            }
        },
        None => {
            let tokens = parse_constructor_args(&config.constructor_input);
            PipelineState::Deploy { class_hash, tokens }
        },
    }
}

/// The state that follows `state` when `event` comes in.
pub fn step(config: &PipelineConfig, state: PipelineState, event: Event) -> (next: PipelineState)
    ensures
        next@ == next_state(config@, state@, event@),
{
    match state {
        PipelineState::ValidateInputs => match event {
            Event::PathChecked(true) => PipelineState::ReadManifest,
            Event::PathChecked(false) => PipelineState::Failed {
                stage: Stage::ValidateInputs,
                error: PipelineError::PathNotFound,
            },
            _ => PipelineState::ValidateInputs,
        },
        PipelineState::ReadManifest => match event {
            Event::ManifestRead(ManifestOutcome::Loaded(manifest)) => PipelineState::Compile {
                package_name: manifest.package_name,
            },
            Event::ManifestRead(ManifestOutcome::Missing) => PipelineState::Failed {
                stage: Stage::ReadManifest,
                error: PipelineError::ManifestNotFound,
            },
            Event::ManifestRead(ManifestOutcome::Malformed) => PipelineState::Failed {
                stage: Stage::ReadManifest,
                error: PipelineError::ManifestMalformed,
            },
            _ => PipelineState::ReadManifest,
        },
        PipelineState::Compile { package_name } => match event {
            Event::ToolFinished(result) => {
                if result.is_success() {
                    PipelineState::GenerateKeystore { package_name }
                } else {
                    PipelineState::Failed {
                        stage: Stage::Compile,
                        error: PipelineError::CompilationFailed,
                    }
                }
            },
            Event::ToolLaunchFailed => PipelineState::Failed {
                stage: Stage::Compile,
                error: PipelineError::ToolLaunchFailed,
            },
            _ => PipelineState::Compile { package_name },
        },
        PipelineState::GenerateKeystore { package_name } => match event {
            Event::ToolFinished(result) => PipelineState::FetchAccount {
                package_name,
                keystore_warning: !result.is_success(),
            },
            Event::ToolLaunchFailed => PipelineState::Failed {
                stage: Stage::GenerateKeystore,
                error: PipelineError::ToolLaunchFailed,
            },
            _ => PipelineState::GenerateKeystore { package_name },
        },
        PipelineState::FetchAccount { package_name, keystore_warning } => match event {
            Event::ToolFinished(result) => {
                if result.is_success() {
                    PipelineState::ResolveAndValidateArtifact {
                        package_name,
                        checking: RequiredFile::Artifact,
                    }
                } else {
                    PipelineState::Failed {
                        stage: Stage::FetchAccount,
                        error: PipelineError::AccountFetchFailed,
                    }
                }
            },
            Event::ToolLaunchFailed => PipelineState::Failed {
                stage: Stage::FetchAccount,
                error: PipelineError::ToolLaunchFailed,
            },
            _ => PipelineState::FetchAccount { package_name, keystore_warning },
        },
        PipelineState::ResolveAndValidateArtifact { package_name, checking } => match event {
            Event::PathChecked(true) => match checking {
                RequiredFile::Artifact => PipelineState::ResolveAndValidateArtifact {
                    package_name,
                    checking: RequiredFile::Keystore,
                },
                RequiredFile::Keystore => PipelineState::ResolveAndValidateArtifact {
                    package_name,
                    checking: RequiredFile::Account,
                },
                RequiredFile::Account => PipelineState::Declare { package_name },
            },
            Event::PathChecked(false) => {
                let missing = required_file_path(config, package_name.as_str(), checking);
                PipelineState::Failed {
                    stage: Stage::ResolveAndValidateArtifact,
                    error: PipelineError::PreconditionMissing(missing),
                }
            },
            _ => PipelineState::ResolveAndValidateArtifact { package_name, checking },
        },
        PipelineState::Declare { package_name } => match event {
            Event::ToolFinished(result) => {
                if !result.is_success() {
                    PipelineState::Failed {
                        stage: Stage::Declare,
                        error: PipelineError::DeclareFailed(result.stderr),
                    }
                } else {
                    match extract_class_hash(result.stdout.as_str()) {
                        Some(class_hash) => proceed_after_declare(config, class_hash),
                        None => PipelineState::Failed {
                            stage: Stage::Declare,
                            error: PipelineError::ClassHashNotFound,
                        },
                    }
                }
            },
            Event::ToolLaunchFailed => PipelineState::Failed {
                stage: Stage::Declare,
                error: PipelineError::ToolLaunchFailed,
            },
            _ => PipelineState::Declare { package_name },
        },
        PipelineState::NormalizeArgs { class_hash, file } => match event {
            Event::ConstructorFileRead(Some(text)) => {
                let input = Some(text);
                let tokens = parse_constructor_args(&input);
                PipelineState::Deploy { class_hash, tokens }
            },
            Event::ConstructorFileRead(None) => PipelineState::Failed {
                stage: Stage::NormalizeArgs,
                error: PipelineError::ConstructorFileUnreadable,
            },
            _ => PipelineState::NormalizeArgs { class_hash, file },
        },
        PipelineState::Deploy { class_hash, tokens } => match event {
            Event::ToolFinished(result) => {
                if result.is_success() {
                    PipelineState::Success { class_hash, deploy_stdout: result.stdout }
                } else {
                    PipelineState::Failed {
                        stage: Stage::Deploy,
                        error: PipelineError::DeployFailed,
                    }
                }
            },
            Event::ToolLaunchFailed => PipelineState::Failed {
                stage: Stage::Deploy,
                error: PipelineError::ToolLaunchFailed,
            },
            _ => PipelineState::Deploy { class_hash, tokens },
        },
        PipelineState::Success { class_hash, deploy_stdout } => PipelineState::Success {
            class_hash,
            deploy_stdout,
        },
        PipelineState::Failed { stage, error } => PipelineState::Failed { stage, error },
    }
}

} // verus!
