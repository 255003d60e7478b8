use playmove_api::code::{BuildResult, BuildType, Code, SourceUnit};
use playmove_api::errors::ApiError;
use playmove_api::sandboxed::{ProcessExit, SandboxResult};
use playmove_api::session::{
    build_reply_of, format_reply_of, test_and_cache_sui_git_deps, Action, Argument, BuildRequest,
    Event, JobKind, Reply, SandboxInvocation, Session, TIMEOUT_MESSAGE,
};
use playmove_api::toolchain::{base_toml_file, Network, ToolchainConfig, PRETTIER_DEFAULT_CONFIG};
use playmove_api::workspace::{Folder, WorkspaceFile, WorkspacePath};

const HELLO: &str = "module hello::hello {\n    public fun answer(): u64 { 42 }\n}\n";

fn hello() -> Code {
    Code {
        sources: vec![SourceUnit { name: "hello".to_string(), content: HELLO.to_string() }],
        tests: vec![],
        name: "hello".to_string(),
    }
}

fn config() -> ToolchainConfig {
    ToolchainConfig {
        mainnet_binary: Some("sui-mainnet".to_string()),
        testnet_binary: Some("sui-testnet".to_string()),
    }
}

fn text(t: &str) -> Argument {
    Argument::Text(t.to_string())
}

fn file(folder: Folder, name: &str, content: &str) -> WorkspaceFile {
    WorkspaceFile {
        path: WorkspacePath { folder, file_name: name.to_string() },
        content: content.to_string(),
    }
}

fn completed(stdout: &str, stderr: &str) -> SandboxResult {
    SandboxResult {
        status: Some(ProcessExit { code: Some(0) }),
        stdout: stdout.to_string(),
        stderr: stderr.to_string(),
        timed_out: false,
        error: None,
    }
}

fn timed_out(stdout: &str) -> SandboxResult {
    SandboxResult {
        status: None,
        stdout: stdout.to_string(),
        stderr: "half a line".to_string(),
        timed_out: true,
        error: Some("Error waiting for process: deadline has elapsed".to_string()),
    }
}

fn spawn_failed() -> SandboxResult {
    SandboxResult {
        status: None,
        stdout: String::new(),
        stderr: String::new(),
        timed_out: false,
        error: Some("Failed to spawn process: not found".to_string()),
    }
}

fn build_invocation(program: &str, verb: &str, timeout_secs: u64) -> SandboxInvocation {
    SandboxInvocation {
        program: program.to_string(),
        args: vec![
            text("move"),
            text(verb),
            text("--path"),
            Argument::Dir(Folder::Project),
            text("--skip-fetch-latest-git-deps"),
        ],
        timeout_secs,
    }
}

fn running_build() -> Session {
    let (state, _) = hello().build(BuildType::Build, None, None, &config());
    let (state, _) = state.step(Event::Materialized);
    state
}

fn finish(state: Session, event: Event) -> Reply {
    let (state, action) = state.step(event);
    assert_eq!(action, Action::Remove);
    let (state, action) = state.step(Event::Removed);
    assert_eq!(state, Session::Finished);
    match action {
        Action::Finish(reply) => reply,
        other => panic!("{:?}", other),
    }
}

#[test]
fn build_lays_out_the_project_first() {
    let (state, action) = hello().build(BuildType::Build, None, None, &config());
    assert_eq!(
        action,
        Action::Materialize {
            files: vec![
                file(Folder::Project, "Move.toml", &base_toml_file("hello")),
                file(Folder::Sources, "hello.move", HELLO),
            ],
        }
    );
    assert_eq!(
        state,
        Session::Materializing {
            code: hello(),
            kind: JobKind::Build,
            invocation: build_invocation("sui-mainnet", "build", 20),
        }
    );
}

#[test]
fn tests_go_to_the_tests_folder() {
    let code = Code {
        sources: vec![],
        tests: vec![SourceUnit { name: "t".to_string(), content: "x".to_string() }],
        name: "p".to_string(),
    };
    assert_eq!(
        code.project_files(),
        vec![
            file(Folder::Project, "Move.toml", &base_toml_file("p")),
            file(Folder::Tests, "t.move", "x"),
        ]
    );
}

#[test]
fn build_runs_the_toolchain_once_the_workspace_stands() {
    let (state, _) = hello().build(BuildType::Build, None, None, &config());
    let (state, action) = state.step(Event::Materialized);
    assert_eq!(action, Action::Run(build_invocation("sui-mainnet", "build", 20)));
    assert_eq!(state, Session::Running { code: hello(), kind: JobKind::Build });
}

#[test]
fn test_on_testnet_runs_the_testnet_binary() {
    let (state, _) = hello().build(BuildType::Test, None, Some(Network::Testnet), &config());
    let (_, action) = state.step(Event::Materialized);
    assert_eq!(action, Action::Run(build_invocation("sui-testnet", "test", 20)));
}

#[test]
fn network_defaults_to_mainnet() {
    let (state, _) = hello().build(BuildType::Test, None, None, &config());
    let (_, action) = state.step(Event::Materialized);
    assert_eq!(action, Action::Run(build_invocation("sui-mainnet", "test", 20)));
    let (state, _) = hello().build(BuildType::Test, None, Some(Network::Mainnet), &config());
    let (_, action) = state.step(Event::Materialized);
    assert_eq!(action, Action::Run(build_invocation("sui-mainnet", "test", 20)));
}

#[test]
fn timeout_override_sets_the_deadline() {
    let (state, _) = hello().build(BuildType::Test, Some(1), None, &config());
    let (_, action) = state.step(Event::Materialized);
    assert_eq!(action, Action::Run(build_invocation("sui-mainnet", "test", 1)));
}

#[test]
fn completed_build_returns_output_verbatim() {
    let reply = finish(running_build(), Event::SandboxReturned(completed("BUILDING hello\n", "")));
    assert_eq!(
        reply,
        Reply::Built(BuildResult { stdout: "BUILDING hello\n".to_string(), stderr: String::new() })
    );
}

#[test]
fn timed_out_build_is_a_success_with_the_fixed_message() {
    let reply = finish(running_build(), Event::SandboxReturned(timed_out("so far")));
    assert_eq!(
        reply,
        Reply::Built(BuildResult {
            stdout: "so far".to_string(),
            stderr: "Request has timed out. Please try again with a smaller project.".to_string(),
        })
    );
    assert_eq!(
        TIMEOUT_MESSAGE,
        "Request has timed out. Please try again with a smaller project."
    );
}

#[test]
fn toolchain_that_cannot_start_is_an_internal_error() {
    let reply = finish(running_build(), Event::SandboxReturned(spawn_failed()));
    assert_eq!(
        reply,
        Reply::Failed(ApiError::InternalServerError(
            "Failed to spawn process: not found".to_string()
        ))
    );
}

#[test]
fn build_reply_covers_the_three_outcomes() {
    assert_eq!(
        build_reply_of(completed("out", "err")),
        Reply::Built(BuildResult { stdout: "out".to_string(), stderr: "err".to_string() })
    );
    assert_eq!(
        build_reply_of(timed_out("")),
        Reply::Built(BuildResult { stdout: String::new(), stderr: TIMEOUT_MESSAGE.to_string() })
    );
    assert_eq!(
        build_reply_of(spawn_failed()),
        Reply::Failed(ApiError::InternalServerError(
            "Failed to spawn process: not found".to_string()
        ))
    );
}

#[test]
fn workspace_failure_is_reported_after_removal() {
    let (state, _) = hello().build(BuildType::Build, None, None, &config());
    let reply = finish(state, Event::Failed { message: "No space left on device".to_string() });
    assert_eq!(
        reply,
        Reply::Failed(ApiError::InternalServerError("No space left on device".to_string()))
    );
    let reply = finish(running_build(), Event::Failed { message: "gone".to_string() });
    assert_eq!(reply, Reply::Failed(ApiError::InternalServerError("gone".to_string())));
}

#[test]
fn failed_removal_does_not_change_the_reply() {
    let (state, action) = running_build().step(Event::SandboxReturned(completed("ok", "")));
    assert_eq!(action, Action::Remove);
    let (state, action) = state.step(Event::Failed { message: "busy".to_string() });
    assert_eq!(state, Session::Finished);
    assert_eq!(
        action,
        Action::Finish(Reply::Built(BuildResult {
            stdout: "ok".to_string(),
            stderr: String::new()
        }))
    );
}

#[test]
fn too_many_files_are_turned_away_before_any_work() {
    let code = Code {
        sources: vec![
            SourceUnit { name: "a".to_string(), content: String::new() },
            SourceUnit { name: "b".to_string(), content: String::new() },
        ],
        tests: vec![],
        name: "p".to_string(),
    };
    let (state, action) = code.build(BuildType::Build, None, None, &config());
    assert_eq!(state, Session::Finished);
    assert_eq!(
        action,
        Action::Finish(Reply::Failed(ApiError::BadRequest(
            "Only one file is supported at the moment".to_string()
        )))
    );
    let (state, action) = state.step(Event::Materialized);
    assert_eq!(state, Session::Finished);
    assert_eq!(action, Action::Ignore);
}

#[test]
fn bad_name_is_turned_away_for_build_and_format() {
    let bad = || Code {
        sources: vec![SourceUnit { name: "../x".to_string(), content: String::new() }],
        tests: vec![],
        name: "p".to_string(),
    };
    let expected = Action::Finish(Reply::Failed(ApiError::BadRequest(
        "File name is not valid: ../x".to_string(),
    )));
    let (state, action) = bad().build(BuildType::Test, None, None, &config());
    assert_eq!(state, Session::Finished);
    assert_eq!(action, expected);
    let (state, action) = bad().format();
    assert_eq!(state, Session::Finished);
    assert_eq!(action, expected);
}

#[test]
fn request_ignores_reports_out_of_turn() {
    let (state, action) = running_build().step(Event::Removed);
    assert_eq!(action, Action::Ignore);
    assert_eq!(state, running_build());
    let (state, action) = running_build().step(Event::Collected { contents: vec![] });
    assert_eq!(action, Action::Ignore);
    assert_eq!(state, running_build());
}

#[test]
fn format_writes_the_style_configuration_too() {
    let (state, action) = hello().format();
    assert_eq!(
        action,
        Action::Materialize {
            files: vec![
                file(Folder::Project, "Move.toml", &base_toml_file("hello")),
                file(Folder::Sources, "hello.move", HELLO),
                file(Folder::Root, ".prettierrc", PRETTIER_DEFAULT_CONFIG),
            ],
        }
    );
    let (state, action) = state.step(Event::Materialized);
    assert_eq!(
        action,
        Action::Run(SandboxInvocation {
            program: "prettier-move".to_string(),
            args: vec![
                text("--config"),
                Argument::File(WorkspacePath {
                    folder: Folder::Root,
                    file_name: ".prettierrc".to_string()
                }),
                text("--write"),
                Argument::Dir(Folder::Sources),
            ],
            timeout_secs: 2,
        })
    );
    assert_eq!(state, Session::Running { code: hello(), kind: JobKind::Format });
}

fn formatting(result: SandboxResult) -> Session {
    let (state, _) = hello().format();
    let (state, _) = state.step(Event::Materialized);
    let (state, action) = state.step(Event::SandboxReturned(result));
    assert_eq!(
        action,
        Action::Collect {
            paths: vec![WorkspacePath {
                folder: Folder::Sources,
                file_name: "hello.move".to_string()
            }],
        }
    );
    state
}

#[test]
fn format_returns_what_is_read_back() {
    let formatted = "module hello::hello {\n    public fun answer(): u64 {\n        42\n    }\n}\n";
    let reply = finish(
        formatting(completed("", "")),
        Event::Collected { contents: vec![formatted.to_string()] },
    );
    assert_eq!(
        reply,
        Reply::Formatted(Code {
            sources: vec![SourceUnit {
                name: "hello".to_string(),
                content: formatted.to_string()
            }],
            tests: vec![],
            name: "hello".to_string(),
        })
    );
}

#[test]
fn format_reads_back_whatever_the_formatter_did() {
    for result in [timed_out(""), spawn_failed(), completed("", "syntax error")] {
        let reply =
            finish(formatting(result), Event::Collected { contents: vec![HELLO.to_string()] });
        assert_eq!(reply, Reply::Formatted(hello()));
    }
}

#[test]
fn unchanged_files_give_back_the_submission() {
    let code = Code {
        sources: vec![
            SourceUnit { name: "a".to_string(), content: "1".to_string() },
            SourceUnit { name: "b".to_string(), content: "2".to_string() },
        ],
        tests: vec![SourceUnit { name: "c".to_string(), content: "3".to_string() }],
        name: "p".to_string(),
    };
    let contents = vec!["1".to_string(), "2".to_string(), "3".to_string()];
    assert_eq!(format_reply_of(&code, &contents), Reply::Formatted(Code {
        sources: vec![
            SourceUnit { name: "a".to_string(), content: "1".to_string() },
            SourceUnit { name: "b".to_string(), content: "2".to_string() },
        ],
        tests: vec![SourceUnit { name: "c".to_string(), content: "3".to_string() }],
        name: "p".to_string(),
    }));
}

#[test]
fn read_back_replaces_contents_in_order() {
    let code = Code {
        sources: vec![SourceUnit { name: "a".to_string(), content: "1".to_string() }],
        tests: vec![SourceUnit { name: "c".to_string(), content: "3".to_string() }],
        name: "p".to_string(),
    };
    let contents = vec!["x".to_string(), "y".to_string()];
    assert_eq!(
        code.read_formatted_files(&contents),
        Ok(Code {
            sources: vec![SourceUnit { name: "a".to_string(), content: "x".to_string() }],
            tests: vec![SourceUnit { name: "c".to_string(), content: "y".to_string() }],
            name: "p".to_string(),
        })
    );
    assert_eq!(
        code.formatted_paths(),
        vec![
            WorkspacePath { folder: Folder::Sources, file_name: "a.move".to_string() },
            WorkspacePath { folder: Folder::Tests, file_name: "c.move".to_string() },
        ]
    );
}

#[test]
fn read_back_of_the_wrong_length_is_an_error() {
    let expected = Err(ApiError::InternalServerError(
        "The files read back do not match the submission".to_string(),
    ));
    assert_eq!(hello().read_formatted_files(&vec![]), expected);
    assert_eq!(
        hello().read_formatted_files(&vec!["a".to_string(), "b".to_string()]),
        expected
    );
}

#[test]
fn unreadable_file_fails_the_format() {
    let reply = finish(
        formatting(completed("", "")),
        Event::Failed { message: "No such file or directory".to_string() },
    );
    assert_eq!(
        reply,
        Reply::Failed(ApiError::InternalServerError("No such file or directory".to_string()))
    );
}

#[test]
fn cache_warmup_is_a_long_test_of_an_empty_package() {
    let (state, action) = test_and_cache_sui_git_deps(&config());
    assert_eq!(
        action,
        Action::Materialize { files: vec![file(Folder::Project, "Move.toml", &base_toml_file("test"))] }
    );
    let (_, action) = state.step(Event::Materialized);
    assert_eq!(action, Action::Run(build_invocation("sui-mainnet", "test", 120)));
}

#[test]
fn build_request_uses_the_default_deadline() {
    let request =
        BuildRequest { code: hello(), build_type: BuildType::Test, network: Some(Network::Testnet) };
    let (state, _) = request.begin(&config());
    let (_, action) = state.step(Event::Materialized);
    assert_eq!(action, Action::Run(build_invocation("sui-testnet", "test", 20)));
}

#[test]
fn folders_lead_from_the_root() {
    assert_eq!(Folder::Root.segments(), Vec::<&str>::new());
    assert_eq!(Folder::Project.segments(), vec!["temp"]);
    assert_eq!(Folder::Sources.segments(), vec!["temp", "sources"]);
    assert_eq!(Folder::Tests.segments(), vec!["temp", "tests"]);
}
