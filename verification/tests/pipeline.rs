use deploy_pipeline::command::{Invocation, StageResult};
use deploy_pipeline::pipeline::{
    pending_action, step, Action, Event, ManifestOutcome, PipelineConfig, PipelineError,
    PipelineState, ProjectManifest, RequiredFile, Stage,
};

fn config(constructor_input: Option<&str>) -> PipelineConfig {
    PipelineConfig {
        project_path: "projects/hello".to_string(),
        contract_name: "Counter".to_string(),
        wallet_address: "0xabc".to_string(),
        constructor_input: constructor_input.map(|s| s.to_string()),
        rpc_endpoint: "https://rpc.example".to_string(),
        working_dir: "target".to_string(),
    }
}

fn exited(exit_code: i32, stdout: &str, stderr: &str) -> Event {
    Event::ToolFinished(StageResult {
        stdout: stdout.to_string(),
        stderr: stderr.to_string(),
        exit_code,
    })
}

fn loaded(package_name: &str) -> Event {
    Event::ManifestRead(ManifestOutcome::Loaded(ProjectManifest {
        package_name: package_name.to_string(),
    }))
}

fn failed(stage: Stage, error: PipelineError) -> PipelineState {
    PipelineState::Failed { stage, error }
}

/// Feeds the events to the pipeline and records the action of every state
/// on the way, the last one included.
fn run(config: &PipelineConfig, events: Vec<Event>) -> (PipelineState, Vec<Action>) {
    let mut state = PipelineState::start();
    let mut actions = vec![pending_action(config, &state)];
    for event in events {
        state = step(config, state, event);
        actions.push(pending_action(config, &state));
    }
    (state, actions)
}

fn events_up_to_declare() -> Vec<Event> {
    vec![
        Event::PathChecked(true),
        loaded("hello"),
        exited(0, "", ""),
        exited(0, "", ""),
        exited(0, "", ""),
        Event::PathChecked(true),
        Event::PathChecked(true),
        Event::PathChecked(true),
    ]
}

fn tool_runs(actions: &[Action]) -> Vec<Invocation> {
    let mut runs = Vec::new();
    for action in actions {
        if let Action::Invoke(invocation) = action {
            runs.push(invocation.clone());
        }
    }
    runs
}

fn deploy_tokens(state: &PipelineState) -> Vec<String> {
    match state {
        PipelineState::Deploy { tokens, .. } => tokens.clone(),
        other => panic!("not ready to deploy: {:?}", other),
    }
}

#[test]
fn run_starts_by_checking_the_project_path() {
    let state = PipelineState::start();
    assert_eq!(state, PipelineState::ValidateInputs);
    assert_eq!(state.stage(), Stage::ValidateInputs);
    assert!(!state.is_finished());
    assert_eq!(
        pending_action(&config(None), &state),
        Action::CheckPath("projects/hello".to_string())
    );
}

#[test]
fn missing_project_path_ends_the_run_before_any_tool() {
    let (state, actions) = run(&config(None), vec![Event::PathChecked(false)]);
    assert_eq!(state, failed(Stage::ValidateInputs, PipelineError::PathNotFound));
    assert_eq!(state.stage(), Stage::ValidateInputs);
    assert!(state.is_finished());
    assert!(tool_runs(&actions).is_empty());
    assert_eq!(actions.last(), Some(&Action::Stop));
}

#[test]
fn missing_project_path_stays_final() {
    let mut events = vec![Event::PathChecked(false)];
    events.extend(events_up_to_declare());
    events.push(exited(0, "0x1", ""));
    let (state, actions) = run(&config(None), events);
    assert_eq!(state, failed(Stage::ValidateInputs, PipelineError::PathNotFound));
    assert!(tool_runs(&actions).is_empty());
}

#[test]
fn missing_manifest_ends_the_run() {
    let (state, actions) = run(
        &config(None),
        vec![Event::PathChecked(true), Event::ManifestRead(ManifestOutcome::Missing)],
    );
    assert_eq!(actions[1], Action::ReadManifest("projects/hello/Scarb.toml".to_string()));
    assert_eq!(state, failed(Stage::ReadManifest, PipelineError::ManifestNotFound));
}

#[test]
fn malformed_manifest_ends_the_run() {
    let (state, _) = run(
        &config(None),
        vec![Event::PathChecked(true), Event::ManifestRead(ManifestOutcome::Malformed)],
    );
    assert_eq!(state, failed(Stage::ReadManifest, PipelineError::ManifestMalformed));
}

#[test]
fn failed_compilation_ends_the_run() {
    let (state, actions) = run(
        &config(None),
        vec![Event::PathChecked(true), loaded("hello"), exited(1, "", "error")],
    );
    assert_eq!(state, failed(Stage::Compile, PipelineError::CompilationFailed));
    assert_eq!(tool_runs(&actions).len(), 1);
    assert_eq!(tool_runs(&actions)[0].tool, "scarb");
}

#[test]
fn failed_keystore_creation_goes_on_to_fetch_the_account() {
    let cfg = config(None);
    let (state, actions) = run(
        &cfg,
        vec![Event::PathChecked(true), loaded("hello"), exited(0, "", ""), exited(1, "", "exists")],
    );
    assert_eq!(
        state,
        PipelineState::FetchAccount { package_name: "hello".to_string(), keystore_warning: true }
    );
    assert_eq!(state.stage(), Stage::FetchAccount);
    match actions.last() {
        Some(Action::Invoke(invocation)) => {
            assert_eq!(invocation.tool, "starkli");
            assert_eq!(invocation.args[0], "account");
            assert_eq!(invocation.args[1], "fetch");
        }
        other => panic!("no account fetch: {:?}", other),
    }
}

#[test]
fn successful_keystore_creation_leaves_no_warning() {
    let (state, _) = run(
        &config(None),
        vec![Event::PathChecked(true), loaded("hello"), exited(0, "", ""), exited(0, "", "")],
    );
    assert_eq!(
        state,
        PipelineState::FetchAccount { package_name: "hello".to_string(), keystore_warning: false }
    );
}

#[test]
fn failed_account_fetch_ends_the_run() {
    let (state, _) = run(
        &config(None),
        vec![
            Event::PathChecked(true),
            loaded("hello"),
            exited(0, "", ""),
            exited(0, "", ""),
            exited(2, "", "network"),
        ],
    );
    assert_eq!(state, failed(Stage::FetchAccount, PipelineError::AccountFetchFailed));
}

#[test]
fn required_files_are_looked_for_in_order() {
    let (state, actions) = run(&config(None), events_up_to_declare());
    assert_eq!(state, PipelineState::Declare { package_name: "hello".to_string() });
    assert_eq!(
        actions[5],
        Action::CheckPath("hello/target/dev/hello_Counter.contract_class.json".to_string())
    );
    assert_eq!(actions[6], Action::CheckPath("target/account0_keystore.json".to_string()));
    assert_eq!(actions[7], Action::CheckPath("target/account0_account.json".to_string()));
}

#[test]
fn missing_artifact_is_named() {
    let mut events = events_up_to_declare();
    events.truncate(5);
    events.push(Event::PathChecked(false));
    let (state, _) = run(&config(None), events);
    assert_eq!(
        state,
        failed(
            Stage::ResolveAndValidateArtifact,
            PipelineError::PreconditionMissing(
                "hello/target/dev/hello_Counter.contract_class.json".to_string()
            )
        )
    );
}

#[test]
fn missing_keystore_is_named() {
    let mut events = events_up_to_declare();
    events.truncate(6);
    events.push(Event::PathChecked(false));
    let (state, _) = run(&config(None), events);
    assert_eq!(
        state,
        failed(
            Stage::ResolveAndValidateArtifact,
            PipelineError::PreconditionMissing("target/account0_keystore.json".to_string())
        )
    );
}

#[test]
fn missing_account_is_named() {
    let mut events = events_up_to_declare();
    events.truncate(7);
    events.push(Event::PathChecked(false));
    let (state, actions) = run(&config(None), events);
    assert_eq!(
        state,
        failed(
            Stage::ResolveAndValidateArtifact,
            PipelineError::PreconditionMissing("target/account0_account.json".to_string())
        )
    );
    assert!(tool_runs(&actions).iter().all(|run| run.args[0] != "declare"));
}

#[test]
fn failed_declare_ends_the_run_and_nothing_is_deployed() {
    let mut events = events_up_to_declare();
    events.push(exited(1, "", "Error: class already declared"));
    events.push(exited(0, "0x1", ""));
    events.push(Event::ConstructorFileRead(Some("1,2".to_string())));
    let (state, actions) = run(&config(Some("1,2")), events);
    assert_eq!(
        state,
        failed(
            Stage::Declare,
            PipelineError::DeclareFailed("Error: class already declared".to_string())
        )
    );
    assert_eq!(state.stage(), Stage::Declare);
    let runs = tool_runs(&actions);
    assert_eq!(runs.last().map(|run| run.args[0].as_str()), Some("declare"));
    assert!(runs.iter().all(|run| run.args[0] != "deploy"));
    assert_eq!(actions.last(), Some(&Action::Stop));
}

#[test]
fn declare_without_class_hash_ends_the_run() {
    let mut events = events_up_to_declare();
    events.push(exited(0, " \n\n", ""));
    let (state, _) = run(&config(None), events);
    assert_eq!(state, failed(Stage::Declare, PipelineError::ClassHashNotFound));
}

#[test]
fn run_without_constructor_input_deploys_the_class_alone() {
    let mut events = events_up_to_declare();
    events.push(exited(0, "0x05f3\n", ""));
    let (state, actions) = run(&config(None), events);
    assert_eq!(
        state,
        PipelineState::Deploy { class_hash: "0x05f3".to_string(), tokens: Vec::new() }
    );
    match actions.last() {
        Some(Action::Invoke(invocation)) => {
            assert_eq!(invocation.args[..3], ["deploy", "0x05f3", "--account"]);
            assert_eq!(invocation.working_dir, "target");
        }
        other => panic!("no deploy: {:?}", other),
    }
}

#[test]
fn inline_constructor_input_is_normalized_after_declare() {
    let mut events = events_up_to_declare();
    events.push(exited(0, "0x05f3\n", ""));
    let (state, actions) = run(&config(Some("a, b ,c")), events);
    assert_eq!(deploy_tokens(&state), ["a", "b", "c"]);
    match actions.last() {
        Some(Action::Invoke(invocation)) => {
            assert_eq!(invocation.args[..6], ["deploy", "0x05f3", "a", "b", "c", "--account"]);
        }
        other => panic!("no deploy: {:?}", other),
    }
}

#[test]
fn constructor_file_is_read_before_deploying() {
    let mut events = events_up_to_declare();
    events.push(exited(0, "0x05f3\n", ""));
    let (state, actions) = run(&config(Some("args.constructor")), events);
    assert_eq!(
        state,
        PipelineState::NormalizeArgs {
            class_hash: "0x05f3".to_string(),
            file: "args.constructor".to_string()
        }
    );
    assert_eq!(state.stage(), Stage::NormalizeArgs);
    assert_eq!(
        actions.last(),
        Some(&Action::ReadConstructorFile("args.constructor".to_string()))
    );
}

#[test]
fn constructor_file_counts_as_the_same_text_inline() {
    let mut with_file = events_up_to_declare();
    with_file.push(exited(0, "0x05f3\n", ""));
    with_file.push(Event::ConstructorFileRead(Some("x,y".to_string())));
    let (from_file, file_actions) = run(&config(Some("args.constructor")), with_file);

    let mut inline = events_up_to_declare();
    inline.push(exited(0, "0x05f3\n", ""));
    let (from_text, text_actions) = run(&config(Some("x,y")), inline);

    assert_eq!(deploy_tokens(&from_file), ["x", "y"]);
    assert_eq!(from_file, from_text);
    assert_eq!(file_actions.last(), text_actions.last());
}

#[test]
fn unreadable_constructor_file_ends_the_run() {
    let mut events = events_up_to_declare();
    events.push(exited(0, "0x05f3\n", ""));
    events.push(Event::ConstructorFileRead(None));
    let (state, actions) = run(&config(Some("args.constructor")), events);
    assert_eq!(state, failed(Stage::NormalizeArgs, PipelineError::ConstructorFileUnreadable));
    assert!(tool_runs(&actions).iter().all(|run| run.args[0] != "deploy"));
}

#[test]
fn failed_deploy_ends_the_run() {
    let mut events = events_up_to_declare();
    events.push(exited(0, "0x05f3\n", ""));
    events.push(exited(1, "", "rejected"));
    let (state, _) = run(&config(Some("1")), events);
    assert_eq!(state, failed(Stage::Deploy, PipelineError::DeployFailed));
}

#[test]
fn successful_run_returns_class_hash_and_deploy_output() {
    let mut events = events_up_to_declare();
    events.push(exited(0, "0x05f3\n", ""));
    events.push(exited(0, "Contract deployed: 0x77\n", ""));
    let (state, actions) = run(&config(Some("1, 2")), events);
    assert_eq!(
        state,
        PipelineState::Success {
            class_hash: "0x05f3".to_string(),
            deploy_stdout: "Contract deployed: 0x77\n".to_string()
        }
    );
    assert_eq!(state.stage(), Stage::Success);
    assert!(state.is_finished());
    assert_eq!(actions.last(), Some(&Action::Stop));
    let first_arguments: Vec<String> =
        tool_runs(&actions).iter().map(|run| run.args[0].clone()).collect();
    assert_eq!(first_arguments, ["build", "signer", "account", "declare", "deploy"]);
}

#[test]
fn stages_follow_each_other_in_order() {
    let mut events = events_up_to_declare();
    events.push(exited(0, "0x05f3\n", ""));
    events.push(Event::ConstructorFileRead(Some("1".to_string())));
    events.push(exited(0, "ok", ""));
    let cfg = config(Some("args.constructor"));
    let mut state = PipelineState::start();
    let mut stages = vec![state.stage()];
    for event in events {
        state = step(&cfg, state, event);
        stages.push(state.stage());
    }
    assert_eq!(
        stages,
        [
            Stage::ValidateInputs,
            Stage::ReadManifest,
            Stage::Compile,
            Stage::GenerateKeystore,
            Stage::FetchAccount,
            Stage::ResolveAndValidateArtifact,
            Stage::ResolveAndValidateArtifact,
            Stage::ResolveAndValidateArtifact,
            Stage::Declare,
            Stage::NormalizeArgs,
            Stage::Deploy,
            Stage::Success,
        ]
    );
}

#[test]
fn tool_that_cannot_be_started_ends_the_run_at_its_stage() {
    let cases = [
        (3, Stage::Compile),
        (4, Stage::GenerateKeystore),
        (5, Stage::FetchAccount),
        (9, Stage::Declare),
    ];
    for (answered, stage) in cases {
        let mut events = events_up_to_declare();
        events.push(exited(0, "0x1", ""));
        events.truncate(answered - 1);
        events.push(Event::ToolLaunchFailed);
        let (state, _) = run(&config(None), events);
        assert_eq!(state, failed(stage, PipelineError::ToolLaunchFailed));
    }
    let mut events = events_up_to_declare();
    events.push(exited(0, "0x1", ""));
    events.push(Event::ToolLaunchFailed);
    let (state, _) = run(&config(None), events);
    assert_eq!(state, failed(Stage::Deploy, PipelineError::ToolLaunchFailed));
}

#[test]
fn event_that_answers_nothing_is_ignored() {
    let cfg = config(None);
    let state = step(&cfg, PipelineState::start(), exited(0, "", ""));
    assert_eq!(state, PipelineState::ValidateInputs);
    let state = step(&cfg, state, Event::ToolLaunchFailed);
    assert_eq!(state, PipelineState::ValidateInputs);
    let state = step(&cfg, state, Event::ConstructorFileRead(None));
    assert_eq!(state, PipelineState::ValidateInputs);

    let compiling = PipelineState::Compile { package_name: "hello".to_string() };
    let state = step(&cfg, compiling.clone(), Event::PathChecked(false));
    assert_eq!(state, compiling);

    let checking = PipelineState::ResolveAndValidateArtifact {
        package_name: "hello".to_string(),
        checking: RequiredFile::Keystore,
    };
    let state = step(&cfg, checking.clone(), Event::ToolLaunchFailed);
    assert_eq!(state, checking);
}

#[test]
fn finished_run_takes_no_more_events() {
    let cfg = config(None);
    let done = PipelineState::Success {
        class_hash: "0x1".to_string(),
        deploy_stdout: "ok".to_string(),
    };
    for event in [Event::PathChecked(false), exited(1, "", ""), Event::ToolLaunchFailed] {
        assert_eq!(step(&cfg, done.clone(), event), done);
    }
    assert_eq!(pending_action(&cfg, &done), Action::Stop);
}

#[test]
fn exit_code_is_zero_only_after_a_deployment() {
    let done = PipelineState::Success {
        class_hash: "0x1".to_string(),
        deploy_stdout: String::new(),
    };
    assert_eq!(done.exit_code(), 0);
    assert_eq!(failed(Stage::Deploy, PipelineError::DeployFailed).exit_code(), 1);
    assert_eq!(failed(Stage::ValidateInputs, PipelineError::PathNotFound).exit_code(), 1);
    assert_eq!(PipelineState::start().exit_code(), 1);
}
