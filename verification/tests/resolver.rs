use git_version::command::{CommandError, CommandReport};
use git_version::config::Configuration;
use git_version::directory::DirectoryError;
use git_version::emitter::{emission, refusal, Emission};
use git_version::parser::parse_args;
use git_version::resolver::{
    fall_back, resolve, step, succeed, Action, ErrorDetail, Event, Failure, Observation,
    ResolutionOutcome, State,
};
use git_version::token::Token;

fn exited(status: Option<i32>, stdout: &str, stderr: &str) -> CommandReport {
    CommandReport::Exited {
        status,
        stdout: stdout.as_bytes().to_vec(),
        stderr: stderr.to_string(),
    }
}

fn some(text: &str) -> Option<String> {
    Some(text.to_string())
}

fn default_args() -> Vec<String> {
    vec!["--always".to_string(), "--dirty=-modified".to_string()]
}

fn constant(value: &str) -> Emission {
    Emission::Constant(value.to_string())
}

/// Runs the machine to its end, answering each action from `observation`.
fn run(
    config: &Configuration,
    package_version: Option<&str>,
    observation: &Observation,
) -> (ResolutionOutcome, Vec<Action>) {
    let mut state = State::Start;
    let mut event = Event::Resume;
    let mut actions = Vec::new();
    loop {
        let (next, action) = step(config, state, event);
        state = next;
        actions.push(action.clone());
        assert!(actions.len() <= 5);
        event = match action {
            Action::ResolveDirectory => match observation {
                Observation::RootMissing(error) => Event::RootMissing(error.clone()),
                Observation::CommandRan(_) => Event::RootFound("/repo".to_string()),
            },
            Action::RunCommand { .. } => match observation {
                Observation::CommandRan(report) => Event::CommandRan(report.clone()),
                Observation::RootMissing(_) => unreachable!(),
            },
            Action::ReadPackageVersion => {
                Event::PackageVersion(package_version.map(|version| version.to_string()))
            }
            Action::Resume => Event::Resume,
            Action::Finish => match state {
                State::Done { outcome } => return (outcome, actions),
                _ => unreachable!(),
            },
        };
    }
}

#[test]
fn command_runs_with_the_default_arguments_where_args_is_not_written() {
    let mut config = Configuration::new();
    config.prefix = some("p");
    config.fallback = some("f");
    assert_eq!(config.command_args(), default_args());
    let (state, action) =
        step(&config, State::ResolvingDirectory, Event::RootFound("/repo".to_string()));
    assert_eq!(state, State::RunningCommand { root: "/repo".to_string() });
    assert_eq!(
        action,
        Action::RunCommand { directory: "/repo".to_string(), args: default_args() }
    );
}

#[test]
fn command_runs_with_the_written_arguments() {
    let mut config = Configuration::new();
    config.args = Some(vec!["--tags".to_string()]);
    assert_eq!(config.command_args(), vec!["--tags".to_string()]);
    let (_, action) = step(&config, State::ResolvingDirectory, Event::RootFound("/r".to_string()));
    assert_eq!(
        action,
        Action::RunCommand { directory: "/r".to_string(), args: vec!["--tags".to_string()] }
    );
    config.args = Some(vec![]);
    assert_eq!(config.command_args(), Vec::<String>::new());
}

#[test]
fn literal_fallback_is_used_verbatim() {
    let mut config = Configuration::new();
    config.prefix = some("P");
    config.suffix = some("S");
    config.fallback = some("X");
    let outcome = resolve(&config, some("1.0.0"), Observation::RootMissing(DirectoryError::NotFound));
    assert_eq!(outcome, ResolutionOutcome::FellBackToLiteral("X".to_string()));
    assert_eq!(outcome.value(), Some(&"X".to_string()));
    assert_eq!(emission(&outcome), constant("X"));
}

#[test]
fn successful_command_is_wrapped_in_prefix_and_suffix() {
    let mut config = Configuration::new();
    config.prefix = some("P");
    config.suffix = some("S");
    let outcome =
        resolve(&config, some("1.0.0"), Observation::CommandRan(exited(Some(0), "abc123", "")));
    assert_eq!(outcome, ResolutionOutcome::Resolved("Pabc123S".to_string()));
    assert_eq!(emission(&outcome), constant("Pabc123S"));
    assert_eq!(succeed(&config, "abc123"), "Pabc123S");
    config.suffix = None;
    assert_eq!(succeed(&config, "abc123"), "Pabc123");
    config.prefix = None;
    assert_eq!(succeed(&config, "abc123"), "abc123");
}

#[test]
fn resolution_is_repeatable() {
    let mut config = Configuration::new();
    config.prefix = some("[");
    config.suffix = some("]");
    config.cargo_suffix = some("-pkg");
    for observation in [
        Observation::CommandRan(exited(Some(0), "v1\n", "")),
        Observation::CommandRan(exited(Some(1), "", "bad")),
        Observation::CommandRan(CommandReport::Missing),
        Observation::RootMissing(DirectoryError::NotFound),
    ] {
        let first = run(&config, Some("0.3.1"), &observation);
        let second = run(&config, Some("0.3.1"), &observation);
        assert_eq!(first, second);
        assert_eq!(emission(&first.0), emission(&second.0));
        assert_eq!(first.0, resolve(&config, some("0.3.1"), observation));
    }
}

#[test]
fn package_version_has_priority_over_the_literal() {
    let mut config = Configuration::new();
    config.cargo_prefix = some("cargo:");
    config.fallback = some("unknown");
    let failed = Observation::CommandRan(exited(Some(128), "", "fatal"));
    assert_eq!(
        resolve(&config, some("1.2.3"), failed),
        ResolutionOutcome::FellBackToPackageVersion("cargo:1.2.3".to_string())
    );
    assert_eq!(
        resolve(&config, some("1.2.3"), Observation::RootMissing(DirectoryError::NotFound)),
        ResolutionOutcome::FellBackToPackageVersion("cargo:1.2.3".to_string())
    );
    config.cargo_prefix = None;
    config.cargo_suffix = some("");
    config.prefix = some("ignored");
    assert_eq!(
        resolve(&config, some("1.2.3"), Observation::CommandRan(CommandReport::Missing)),
        ResolutionOutcome::FellBackToPackageVersion("1.2.3".to_string())
    );
    config.cargo_prefix = some("<");
    config.cargo_suffix = some(">");
    assert_eq!(
        fall_back(&config, some("9"), Failure::Command(CommandError::InvalidText)),
        ResolutionOutcome::FellBackToPackageVersion("<9>".to_string())
    );
}

#[test]
fn described_version_is_emitted_without_its_line_feed() {
    let config = parse_args(&[]).unwrap();
    let observation = Observation::CommandRan(exited(Some(0), "v1.2.3-4-gabcdef\n", ""));
    let (outcome, actions) = run(&config, Some("1.0.0"), &observation);
    assert_eq!(outcome, ResolutionOutcome::Resolved("v1.2.3-4-gabcdef".to_string()));
    assert_eq!(emission(&outcome), constant("v1.2.3-4-gabcdef"));
    assert_eq!(
        actions,
        vec![
            Action::ResolveDirectory,
            Action::RunCommand { directory: "/repo".to_string(), args: default_args() },
            Action::Resume,
            Action::Finish,
        ]
    );
}

#[test]
fn outside_a_repository_without_fallback_compilation_fails() {
    let config = parse_args(&[]).unwrap();
    let observation = Observation::RootMissing(DirectoryError::NotFound);
    let (outcome, actions) = run(&config, Some("1.0.0"), &observation);
    let message = "not a repository or unreadable directory: no ancestor directory holds `.git`; \
                   no fallback is configured: set `fallback`, `cargo_prefix` or `cargo_suffix`";
    assert_eq!(
        outcome,
        ResolutionOutcome::Failed(ErrorDetail {
            message: message.to_string(),
            cause: Failure::Directory(DirectoryError::NotFound),
        })
    );
    assert_eq!(outcome.value(), None);
    assert_eq!(actions, vec![Action::ResolveDirectory, Action::Resume, Action::Finish]);
    assert_eq!(emission(&outcome), Emission::Diagnostic(message.to_string()));
    assert!(message.contains("not a repository"));
}

#[test]
fn outside_a_repository_the_fallback_is_emitted() {
    let tokens = vec![
        Token::Ident("fallback".to_string()),
        Token::Equals,
        Token::Literal("\"unknown\"".to_string()),
    ];
    let config = parse_args(&tokens).unwrap();
    let (outcome, actions) =
        run(&config, Some("1.0.0"), &Observation::RootMissing(DirectoryError::NotFound));
    assert_eq!(outcome, ResolutionOutcome::FellBackToLiteral("unknown".to_string()));
    assert_eq!(emission(&outcome), constant("unknown"));
    assert_eq!(actions, vec![Action::ResolveDirectory, Action::Resume, Action::Finish]);
}

#[test]
fn duplicate_argument_is_reported_before_anything_runs() {
    let tokens = vec![
        Token::Ident("prefix".to_string()),
        Token::Equals,
        Token::Literal("\"a\"".to_string()),
        Token::Comma,
        Token::Ident("prefix".to_string()),
        Token::Equals,
        Token::Literal("\"b\"".to_string()),
    ];
    let error = parse_args(&tokens).unwrap_err();
    assert_eq!(error.position, 4);
    assert_eq!(error.message(), "duplicate argument `prefix`");
    assert_eq!(
        refusal(&error),
        Emission::Diagnostic("duplicate argument `prefix`".to_string())
    );
}

#[test]
fn failures_carry_their_cause_and_message() {
    let config = Configuration::new();
    let cases = [
        (
            Observation::CommandRan(CommandReport::Missing),
            Failure::Command(CommandError::Missing),
            "git executable not found",
        ),
        (
            Observation::CommandRan(exited(Some(128), "out", "fatal: no names found")),
            Failure::Command(CommandError::Failed {
                status: Some(128),
                stderr: "fatal: no names found".to_string(),
            }),
            "git describe exited with status 128: fatal: no names found",
        ),
        (
            Observation::RootMissing(DirectoryError::Unreadable("permission denied".to_string())),
            Failure::Directory(DirectoryError::Unreadable("permission denied".to_string())),
            "not a repository or unreadable directory: permission denied",
        ),
    ];
    for (observation, cause, reason) in cases {
        assert_eq!(cause.reason(), reason);
        let message =
            format!("{}; no fallback is configured: set `fallback`, `cargo_prefix` or `cargo_suffix`", reason);
        assert_eq!(cause.message(false), message);
        assert_eq!(
            resolve(&config, some("1.0.0"), observation),
            ResolutionOutcome::Failed(ErrorDetail { message, cause })
        );
    }
}

#[test]
fn waiting_states_ask_again_when_told_something_else() {
    let config = Configuration::new();
    assert_eq!(
        step(&config, State::ResolvingDirectory, Event::Resume),
        (State::ResolvingDirectory, Action::ResolveDirectory)
    );
    assert_eq!(
        step(&config, State::ResolvingDirectory, Event::CommandRan(CommandReport::Missing)),
        (State::ResolvingDirectory, Action::ResolveDirectory)
    );
    let running = State::RunningCommand { root: "/r".to_string() };
    assert_eq!(
        step(&config, running.clone(), Event::RootFound("/other".to_string())),
        (running, Action::RunCommand { directory: "/r".to_string(), args: default_args() })
    );
}

#[test]
fn done_is_terminal() {
    let config = Configuration::new();
    let done = State::Done { outcome: ResolutionOutcome::Resolved("v".to_string()) };
    for event in [
        Event::Resume,
        Event::RootFound("/r".to_string()),
        Event::RootMissing(DirectoryError::NotFound),
        Event::CommandRan(CommandReport::Missing),
        Event::PackageVersion(some("1")),
    ] {
        assert_eq!(step(&config, done.clone(), event), (done.clone(), Action::Finish));
    }
}

#[test]
fn each_transition_of_the_machine() {
    let mut config = Configuration::new();
    config.prefix = some("v");
    assert_eq!(
        step(&config, State::Start, Event::Resume),
        (State::ResolvingDirectory, Action::ResolveDirectory)
    );
    assert_eq!(
        step(&config, State::ResolvingDirectory, Event::RootMissing(DirectoryError::NotFound)),
        (State::FallingBack { cause: Failure::Directory(DirectoryError::NotFound) }, Action::Resume)
    );
    let running = State::RunningCommand { root: "/r".to_string() };
    assert_eq!(
        step(&config, running.clone(), Event::CommandRan(exited(Some(0), "1.0\n", ""))),
        (State::Success { version: "v1.0".to_string() }, Action::Resume)
    );
    assert_eq!(
        step(&config, running, Event::CommandRan(CommandReport::Missing)),
        (State::FallingBack { cause: Failure::Command(CommandError::Missing) }, Action::Resume)
    );
    assert_eq!(
        step(&config, State::Success { version: "v1.0".to_string() }, Event::Resume),
        (State::Done { outcome: ResolutionOutcome::Resolved("v1.0".to_string()) }, Action::Finish)
    );
    config.fallback = some("none");
    assert_eq!(
        step(
            &config,
            State::FallingBack { cause: Failure::Command(CommandError::Missing) },
            Event::Resume
        ),
        (
            State::Done { outcome: ResolutionOutcome::FellBackToLiteral("none".to_string()) },
            Action::Finish
        )
    );
}

#[test]
fn configuration_getters() {
    let mut config = Configuration::new();
    assert!(!config.permits_package_fallback());
    config.fallback = some("x");
    assert!(!config.permits_package_fallback());
    config.cargo_suffix = some("");
    assert!(config.permits_package_fallback());
    assert!(config.is_set(git_version::config::ArgName::Fallback));
    assert!(config.is_set(git_version::config::ArgName::CargoSuffix));
    assert!(!config.is_set(git_version::config::ArgName::CargoPrefix));
    assert!(!config.is_set(git_version::config::ArgName::Args));
    assert!(!config.is_set(git_version::config::ArgName::Prefix));
    assert!(!config.is_set(git_version::config::ArgName::Suffix));
}

#[test]
fn package_version_is_read_only_when_it_may_stand_in() {
    let mut config = Configuration::new();
    config.cargo_prefix = some("v");
    let failing = Observation::CommandRan(exited(Some(1), "", "bad"));
    let (outcome, actions) = run(&config, Some("2.0"), &failing);
    assert_eq!(outcome, ResolutionOutcome::FellBackToPackageVersion("v2.0".to_string()));
    assert_eq!(
        actions,
        vec![
            Action::ResolveDirectory,
            Action::RunCommand { directory: "/repo".to_string(), args: default_args() },
            Action::ReadPackageVersion,
            Action::Finish,
        ]
    );
    let succeeding = Observation::CommandRan(exited(Some(0), "1.0\n", ""));
    let (outcome, actions) = run(&config, None, &succeeding);
    assert_eq!(outcome, ResolutionOutcome::Resolved("1.0".to_string()));
    assert!(!actions.contains(&Action::ReadPackageVersion));
}

#[test]
fn falling_back_waits_for_the_package_version() {
    let mut config = Configuration::new();
    config.cargo_suffix = some("!");
    let waiting = State::FallingBack { cause: Failure::Command(CommandError::Missing) };
    assert_eq!(
        step(&config, waiting.clone(), Event::Resume),
        (waiting.clone(), Action::ReadPackageVersion)
    );
    assert_eq!(
        step(&config, waiting, Event::PackageVersion(some("3"))),
        (
            State::Done {
                outcome: ResolutionOutcome::FellBackToPackageVersion("3!".to_string())
            },
            Action::Finish
        )
    );
}

#[test]
fn an_unknown_package_version_is_passed_over() {
    let mut config = Configuration::new();
    config.cargo_prefix = some("v");
    let cause = Failure::Command(CommandError::Missing);
    let message =
        "git executable not found; the package version is not known and no `fallback` is configured";
    assert_eq!(cause.message(true), message);
    assert_eq!(
        fall_back(&config, None, cause.clone()),
        ResolutionOutcome::Failed(ErrorDetail { message: message.to_string(), cause: cause.clone() })
    );
    config.fallback = some("unknown");
    assert_eq!(
        fall_back(&config, None, cause.clone()),
        ResolutionOutcome::FellBackToLiteral("unknown".to_string())
    );
    let (outcome, _) = run(&config, None, &Observation::RootMissing(DirectoryError::NotFound));
    assert_eq!(outcome, ResolutionOutcome::FellBackToLiteral("unknown".to_string()));
    config.cargo_prefix = None;
    assert_eq!(
        fall_back(&config, some("1.0"), cause),
        ResolutionOutcome::FellBackToLiteral("unknown".to_string())
    );
}
