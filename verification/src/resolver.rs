//! The version resolver: the state machine of one expansion.
//!
//! The machine asks for outside work through an [`Action`] and is told the
//! answer through an [`Event`]: `Start`, then `ResolvingDirectory`, then
//! `RunningCommand`, then `Success` or `FallingBack`, then `Done`. The
//! package version is asked for only in `FallingBack`, and only where the
//! configuration permits that fallback. The machine runs once; nothing is
//! retried and nothing is kept between runs.

use crate::command::{judge, spec_judge, CommandError, CommandErrorView, CommandReport, CommandReportView};
use crate::config::{text_or_empty, Configuration, ConfigurationView};
use crate::directory::{DirectoryError, DirectoryErrorView};
use crate::text::join3;
use vstd::prelude::*;

verus! {

/// The failure that sent the machine to its fallbacks.
#[derive(Clone, Debug, PartialEq, Eq)]
pub enum Failure {
    /// No repository root was found.
    Directory(DirectoryError),
    /// The query command gave no version.
    Command(CommandError),
}

/// What a failed resolution reports: the message of the diagnostic and
/// the failure it comes from.
#[derive(Clone, Debug, PartialEq, Eq)]
pub struct ErrorDetail {
    pub message: String,
    pub cause: Failure,
}

/// How one expansion ended.
#[derive(Clone, Debug, PartialEq, Eq)]
pub enum ResolutionOutcome {
    /// The query succeeded: its output between `prefix` and `suffix`.
    Resolved(String),
    /// The package version between `cargo_prefix` and `cargo_suffix`.
    FellBackToPackageVersion(String),
    /// The `fallback` text as it was written.
    FellBackToLiteral(String),
    /// Nothing could be used.
    Failed(ErrorDetail),
}

/// The states of the machine.
#[derive(Clone, Debug, PartialEq, Eq)]
pub enum State {
    Start,
    /// Waiting for the directory resolver.
    ResolvingDirectory,
    /// Waiting for the command, which runs in `root`.
    RunningCommand { root: String },
    /// The query succeeded with this version.
    Success { version: String },
    /// The query failed for this reason; where the package version may
    /// stand in, the machine waits to be told it.
    FallingBack { cause: Failure },
    /// The expansion is over.
    Done { outcome: ResolutionOutcome },
}

/// What the caller tells the machine.
#[derive(Clone, Debug, PartialEq, Eq)]
pub enum Event {
    /// Nothing happened outside; the machine may go on.
    Resume,
    /// The directory resolver found this repository root.
    RootFound(String),
    /// The directory resolver found none.
    RootMissing(DirectoryError),
    /// The command was run, with this report.
    CommandRan(CommandReport),
    /// The package version was looked up: the version, if the build
    /// declares one.
    PackageVersion(Option<String>),
}

/// What the machine asks of the caller.
#[derive(Clone, Debug, PartialEq, Eq)]
pub enum Action {
    /// Find the repository root and answer `RootFound` or `RootMissing`.
    ResolveDirectory,
    /// Run the query command in `directory` with `args` and answer
    /// `CommandRan`.
    RunCommand { directory: String, args: Vec<String> },
    /// Look up the version that the package declares and answer
    /// `PackageVersion`.
    ReadPackageVersion,
    /// Nothing to do outside; answer `Resume`.
    Resume,
    /// The machine is in `Done`.
    Finish,
}

/// The mathematical content of a [`Failure`].
pub enum FailureView {
    Directory(DirectoryErrorView),
    Command(CommandErrorView),
}

/// The mathematical content of an [`ErrorDetail`].
pub struct ErrorDetailView {
    pub message: Seq<char>,
    pub cause: FailureView,
}

/// The mathematical content of a [`ResolutionOutcome`].
pub enum OutcomeView {
    Resolved(Seq<char>),
    FellBackToPackageVersion(Seq<char>),
    FellBackToLiteral(Seq<char>),
    Failed(ErrorDetailView),
}

/// The mathematical content of a [`State`].
pub enum StateView {
    Start,
    ResolvingDirectory,
    RunningCommand { root: Seq<char> },
    Success { version: Seq<char> },
    FallingBack { cause: FailureView },
    Done { outcome: OutcomeView },
}

/// The mathematical content of an [`Event`].
pub enum EventView {
    Resume,
    RootFound(Seq<char>),
    RootMissing(DirectoryErrorView),
    CommandRan(CommandReportView),
    PackageVersion(Option<Seq<char>>),
}

/// The mathematical content of an [`Action`].
pub enum ActionView {
    ResolveDirectory,
    RunCommand { directory: Seq<char>, args: Seq<Seq<char>> },
    ReadPackageVersion,
    Resume,
    Finish,
}

impl View for Failure {
    type V = FailureView;

    open spec fn view(&self) -> FailureView {
        match self {
            Failure::Directory(error) => FailureView::Directory(error@),
            Failure::Command(error) => FailureView::Command(error@),
        }
    }
}

impl View for ErrorDetail {
    type V = ErrorDetailView;

    open spec fn view(&self) -> ErrorDetailView {
        ErrorDetailView { message: self.message@, cause: self.cause@ }
    }
}

impl View for ResolutionOutcome {
    type V = OutcomeView;

    open spec fn view(&self) -> OutcomeView {
        match self {
            ResolutionOutcome::Resolved(version) => OutcomeView::Resolved(version@),
            ResolutionOutcome::FellBackToPackageVersion(version) => OutcomeView::FellBackToPackageVersion(
                version@,
            ),
            ResolutionOutcome::FellBackToLiteral(text) => OutcomeView::FellBackToLiteral(text@),
            ResolutionOutcome::Failed(detail) => OutcomeView::Failed(detail@),
        }
    }
}

impl View for State {
    type V = StateView;

    open spec fn view(&self) -> StateView {
        match self {
            State::Start => StateView::Start,
            State::ResolvingDirectory => StateView::ResolvingDirectory,
            State::RunningCommand { root } => StateView::RunningCommand { root: root@ },
            State::Success { version } => StateView::Success { version: version@ },
            State::FallingBack { cause } => StateView::FallingBack { cause: cause@ },
            State::Done { outcome } => StateView::Done { outcome: outcome@ },
        }
    }
}

impl View for Event {
    type V = EventView;

    open spec fn view(&self) -> EventView {
        match self {
            Event::Resume => EventView::Resume,
            Event::RootFound(root) => EventView::RootFound(root@),
            Event::RootMissing(error) => EventView::RootMissing(error@),
            Event::CommandRan(report) => EventView::CommandRan(report@),
            Event::PackageVersion(version) => EventView::PackageVersion(version.deep_view()),
        }
    }
}

impl View for Action {
    type V = ActionView;

    open spec fn view(&self) -> ActionView {
        match self {
            Action::ResolveDirectory => ActionView::ResolveDirectory,
            Action::RunCommand { directory, args } => ActionView::RunCommand {
                directory: directory@,
                args: args.deep_view(),
            },
            Action::ReadPackageVersion => ActionView::ReadPackageVersion,
            Action::Resume => ActionView::Resume,
            Action::Finish => ActionView::Finish,
        }
    }
}

impl FailureView {
    /// Why the query gave no version, in words.
    pub open spec fn reason(self) -> Seq<char> {
        match self {
            FailureView::Directory(error) => "not a repository or unreadable directory: "@
                + error.message(),
            FailureView::Command(error) => error.message(),
        }
    }

    /// The message of the diagnostic: the reason, and that no fallback
    /// was there to take its place. Where the package version was
    /// permitted to, `package_permitted`, it was not known.
    pub open spec fn message(self, package_permitted: bool) -> Seq<char> {
        if package_permitted {
            self.reason() + "; the package version is not known and no `fallback` is configured"@
        } else {
            self.reason()
                + "; no fallback is configured: set `fallback`, `cargo_prefix` or `cargo_suffix`"@
        }
    }
}

impl OutcomeView {
    /// The text of the constant, where there is one.
    pub open spec fn value(self) -> Option<Seq<char>> {
        match self {
            OutcomeView::Resolved(version) => Some(version),
            OutcomeView::FellBackToPackageVersion(version) => Some(version),
            OutcomeView::FellBackToLiteral(text) => Some(text),
            OutcomeView::Failed(_) => None,
        }
    }
}

/// `body` between an optional prefix and an optional suffix.
pub open spec fn spec_wrap(prefix: Option<Seq<char>>, body: Seq<char>, suffix: Option<Seq<char>>) -> Seq<
    char,
> {
    join3(text_or_empty(prefix), body, text_or_empty(suffix))
}

/// What a successful query gives: its output between `prefix` and `suffix`.
pub open spec fn spec_succeed(config: ConfigurationView, output: Seq<char>) -> Seq<char> {
    spec_wrap(config.prefix, output, config.suffix)
}

/// The package version where it may stand in for the query: where
/// `cargo_prefix` or `cargo_suffix` is written and the version is known.
pub open spec fn spec_usable_version(
    config: ConfigurationView,
    package_version: Option<Seq<char>>,
) -> Option<Seq<char>> {
    if config.permits_package_fallback() {
        package_version
    } else {
        None
    }
}

/// What the fallbacks give after `cause`. The package version comes
/// first, wherever `cargo_prefix` or `cargo_suffix` is written and the
/// version is known; then the `fallback` text, untouched by any prefix or
/// suffix; then failure.
pub open spec fn spec_fall_back(
    config: ConfigurationView,
    package_version: Option<Seq<char>>,
    cause: FailureView,
) -> OutcomeView {
    match spec_usable_version(config, package_version) {
        Some(version) => OutcomeView::FellBackToPackageVersion(
            spec_wrap(config.cargo_prefix, version, config.cargo_suffix),
        ),
        None => match config.fallback {
            Some(text) => OutcomeView::FellBackToLiteral(text),
            None => OutcomeView::Failed(
                ErrorDetailView { message: cause.message(config.permits_package_fallback()), cause },
            ),
        },
    }
}

/// What the machine asks for when it enters `FallingBack`: the package
/// version where it may stand in, else nothing.
pub open spec fn spec_ask(config: ConfigurationView) -> ActionView {
    if config.permits_package_fallback() {
        ActionView::ReadPackageVersion
    } else {
        ActionView::Resume
    }
}

/// The machine's transition: the next state and what it asks for.
///
/// A state that waits for an answer stays where it is, and asks again,
/// when it is told anything else.
pub open spec fn spec_step(config: ConfigurationView, state: StateView, event: EventView) -> (
    StateView,
    ActionView,
) {
    match state {
        StateView::Start => (StateView::ResolvingDirectory, ActionView::ResolveDirectory),
        StateView::ResolvingDirectory => match event {
            EventView::RootFound(root) => (
                StateView::RunningCommand { root },
                ActionView::RunCommand { directory: root, args: config.command_args() },
            ),
            EventView::RootMissing(error) => (
                StateView::FallingBack { cause: FailureView::Directory(error) },
                spec_ask(config),
            ),
            _ => (StateView::ResolvingDirectory, ActionView::ResolveDirectory),
        },
        StateView::RunningCommand { root } => match event {
            EventView::CommandRan(report) => match spec_judge(report) {
                Ok(output) => (
                    StateView::Success { version: spec_succeed(config, output) },
                    ActionView::Resume,
                ),
                Err(error) => (
                    StateView::FallingBack { cause: FailureView::Command(error) },
                    spec_ask(config),
                ),
            },
            _ => (
                StateView::RunningCommand { root },
                ActionView::RunCommand { directory: root, args: config.command_args() },
            ),
        },
        StateView::Success { version } => (
            StateView::Done { outcome: OutcomeView::Resolved(version) },
            ActionView::Finish,
        ),
        StateView::FallingBack { cause } => if config.permits_package_fallback() {
            match event {
                EventView::PackageVersion(version) => (
                    StateView::Done { outcome: spec_fall_back(config, version, cause) },
                    ActionView::Finish,
                ),
                _ => (StateView::FallingBack { cause }, ActionView::ReadPackageVersion),
            }
        } else {
            (StateView::Done { outcome: spec_fall_back(config, None, cause) }, ActionView::Finish)
        },
        StateView::Done { outcome } => (StateView::Done { outcome }, ActionView::Finish),
    }
}

/// What the outside world answered in one expansion.
#[derive(Clone, Debug, PartialEq, Eq)]
pub enum Observation {
    /// No repository root was found.
    RootMissing(DirectoryError),
    /// A root was found and the command was run in it, with this report.
    CommandRan(CommandReport),
}

/// The mathematical content of an [`Observation`].
pub enum ObservationView {
    RootMissing(DirectoryErrorView),
    CommandRan(CommandReportView),
}

impl View for Observation {
    type V = ObservationView;

    open spec fn view(&self) -> ObservationView {
        match self {
            Observation::RootMissing(error) => ObservationView::RootMissing(error@),
            Observation::CommandRan(report) => ObservationView::CommandRan(report@),
        }
    }
}

/// How an expansion ends, given what the outside world answers and the
/// version that the package declares, if it declares one.
pub open spec fn spec_resolve(
    config: ConfigurationView,
    package_version: Option<Seq<char>>,
    observation: ObservationView,
) -> OutcomeView {
    match observation {
        ObservationView::RootMissing(error) => spec_fall_back(
            config,
            package_version,
            FailureView::Directory(error),
        ),
        ObservationView::CommandRan(report) => match spec_judge(report) {
            Ok(output) => OutcomeView::Resolved(spec_succeed(config, output)),
            Err(error) => spec_fall_back(config, package_version, FailureView::Command(error)),
        },
    }
}

/// The state that the machine is in after it was told `events` in turn.
pub open spec fn spec_run(config: ConfigurationView, state: StateView, events: Seq<EventView>) -> StateView
    decreases events.len(),
{
    if events.len() == 0 {
        state
    } else {
        spec_run(config, spec_step(config, state, events[0]).0, events.drop_first())
    }
}

impl Failure {
    /// Why the query gave no version, in words.
    pub fn reason(&self) -> (text: String)
        ensures
            text@ == self@.reason(),
    {
        match self {
            Failure::Directory(error) => {
                let mut text = "not a repository or unreadable directory: ".to_owned();
                text.append(error.message().as_str());
                text
            },
            Failure::Command(error) => error.message(),
        }
    }

    /// The message of the diagnostic: the reason, and that no fallback
    /// was there to take its place.
    pub fn message(&self, package_permitted: bool) -> (text: String)
        ensures
            text@ == self@.message(package_permitted),
    {
        let mut text = self.reason();
        if package_permitted {
            text.append("; the package version is not known and no `fallback` is configured");
        } else {
            text.append(
                "; no fallback is configured: set `fallback`, `cargo_prefix` or `cargo_suffix`",
            );
        }
        text
    }
}

impl ResolutionOutcome {
    /// The text of the constant, where there is one.
    pub fn value(&self) -> (text: Option<&String>)
        ensures
            text.deep_view() == self@.value(),
    {
        match self {
            ResolutionOutcome::Resolved(version) => Some(version),
            ResolutionOutcome::FellBackToPackageVersion(version) => Some(version),
            ResolutionOutcome::FellBackToLiteral(text) => Some(text),
            ResolutionOutcome::Failed(_) => None,
        }
    }
}

/// `body` between an optional prefix and an optional suffix.
fn wrap(prefix: &Option<String>, body: &str, suffix: &Option<String>) -> (text: String)
    ensures
        text@ == spec_wrap(prefix.deep_view(), body@, suffix.deep_view()),
{
    let mut text = match prefix {
        Some(prefix) => prefix.clone(),
        None => String::new(),
    };
    text.append(body);
    match suffix {
        Some(suffix) => {
            text.append(suffix.as_str());
        },
        None => {
            assert(text@ + Seq::<char>::empty() =~= text@);
        },
    }
    text
}

/// The version after a successful query: `output` between `prefix` and
/// `suffix`.
pub fn succeed(config: &Configuration, output: &str) -> (version: String)
    ensures
        version@ == spec_succeed(config@, output@),
{
    wrap(&config.prefix, output, &config.suffix)
}

/// The outcome after the query failed for `cause`, given the version that
/// the package declares, if it declares one.
///
/// Where `cargo_prefix` or `cargo_suffix` is written and the version is
/// known, the version between them; else the `fallback` text as written,
/// if there is one; else the failure, with a message that names `cause`.
pub fn fall_back(config: &Configuration, package_version: Option<String>, cause: Failure) -> (outcome:
    ResolutionOutcome)
    ensures
        outcome@ == spec_fall_back(config@, package_version.deep_view(), cause@),
{
    let permitted = config.permits_package_fallback();
    let usable = if permitted {
        package_version
    } else {
        None
    };
    match usable {
        Some(version) => ResolutionOutcome::FellBackToPackageVersion(
            wrap(&config.cargo_prefix, version.as_str(), &config.cargo_suffix),
        ),
        None => match &config.fallback {
            Some(text) => ResolutionOutcome::FellBackToLiteral(text.clone()),
            None => {
                let message = cause.message(permitted);
                ResolutionOutcome::Failed(ErrorDetail { message, cause })
            },
        },
    }
}

/// What the machine asks for when it enters `FallingBack`.
fn ask(config: &Configuration) -> (action: Action)
    ensures
        action@ == spec_ask(config@),
{
    if config.permits_package_fallback() {
        Action::ReadPackageVersion
    } else {
        Action::Resume
    }
}

/// One transition of the machine: from `state`, told `event`, to the next
/// state and the action it asks for, as [`spec_step`] gives them.
pub fn step(config: &Configuration, state: State, event: Event) -> (next: (State, Action))
    ensures
        (next.0@, next.1@) == spec_step(config@, state@, event@),
{
    match state {
        State::Start => (State::ResolvingDirectory, Action::ResolveDirectory),
        State::ResolvingDirectory => match event {
            Event::RootFound(root) => {
                let directory = root.clone();
                (
                    State::RunningCommand { root },
                    Action::RunCommand { directory, args: config.command_args() },
                )
            },
            Event::RootMissing(error) => (
                State::FallingBack { cause: Failure::Directory(error) },
                ask(config),
            ),
            _ => (State::ResolvingDirectory, Action::ResolveDirectory),
        },
        State::RunningCommand { root } => match event {
            Event::CommandRan(report) => match judge(report) {
                Ok(output) => (
                    State::Success { version: succeed(config, output.as_str()) },
                    Action::Resume,
                ),
                Err(error) => (State::FallingBack { cause: Failure::Command(error) }, ask(config)),
            },
            _ => {
                let directory = root.clone();
                (
                    State::RunningCommand { root },
                    Action::RunCommand { directory, args: config.command_args() },
                )
            },
        },
        State::Success { version } => (
            State::Done { outcome: ResolutionOutcome::Resolved(version) },
            Action::Finish,
        ),
        State::FallingBack { cause } => if config.permits_package_fallback() {
            match event {
                Event::PackageVersion(version) => (
                    State::Done { outcome: fall_back(config, version, cause) },
                    Action::Finish,
                ),
                _ => (State::FallingBack { cause }, Action::ReadPackageVersion),
            }
        } else {
            (State::Done { outcome: fall_back(config, None, cause) }, Action::Finish)
        },
        State::Done { outcome } => (State::Done { outcome }, Action::Finish),
    }
}

/// How an expansion ends, given what the outside world answered and the
/// version that the package declares: the outcome that [`spec_resolve`]
/// gives, which is the one the machine reaches when it is told the same
/// answers.
pub fn resolve(config: &Configuration, package_version: Option<String>, observation: Observation) -> (outcome:
    ResolutionOutcome)
    ensures
        outcome@ == spec_resolve(config@, package_version.deep_view(), observation@),
{
    match observation {
        Observation::RootMissing(error) => fall_back(config, package_version, Failure::Directory(error)),
        Observation::CommandRan(report) => match judge(report) {
            Ok(output) => ResolutionOutcome::Resolved(succeed(config, output.as_str())),
            Err(error) => fall_back(config, package_version, Failure::Command(error)),
        },
    }
}

/// Whether the query gives no version under `observation`.
pub open spec fn spec_fails(observation: ObservationView) -> bool {
    match observation {
        ObservationView::RootMissing(_) => true,
        ObservationView::CommandRan(report) => spec_judge(report) is Err,
    }
}

/// What the machine is told last in an expansion: the package version
/// where it asked for it, else that it may go on.
pub open spec fn last_event(
    config: ConfigurationView,
    package_version: Option<Seq<char>>,
    observation: ObservationView,
) -> EventView {
    if spec_fails(observation) && config.permits_package_fallback() {
        EventView::PackageVersion(package_version)
    } else {
        EventView::Resume
    }
}

/// The events that the machine is told in an expansion in which `root` is
/// found where a root is found at all.
pub open spec fn events_of(
    config: ConfigurationView,
    package_version: Option<Seq<char>>,
    root: Seq<char>,
    observation: ObservationView,
) -> Seq<EventView> {
    match observation {
        ObservationView::RootMissing(error) => seq![
            EventView::Resume,
            EventView::RootMissing(error),
            last_event(config, package_version, observation),
        ],
        ObservationView::CommandRan(report) => seq![
            EventView::Resume,
            EventView::RootFound(root),
            EventView::CommandRan(report),
            last_event(config, package_version, observation),
        ],
    }
}

/// Told the answers of an expansion in turn, the machine ends in `Done`
/// with the outcome that `spec_resolve` gives, whatever the root is called.
pub proof fn lemma_machine_reaches_outcome(
    config: ConfigurationView,
    package_version: Option<Seq<char>>,
    root: Seq<char>,
    observation: ObservationView,
)
    ensures
        spec_run(config, StateView::Start, events_of(config, package_version, root, observation))
            == (StateView::Done { outcome: spec_resolve(config, package_version, observation) }),
{
    let events = events_of(config, package_version, root, observation);
    let s1 = spec_step(config, StateView::Start, events[0]).0;
    let e1 = events.drop_first();
    let s2 = spec_step(config, s1, e1[0]).0;
    let e2 = e1.drop_first();
    let s3 = spec_step(config, s2, e2[0]).0;
    let e3 = e2.drop_first();
    assert(spec_run(config, StateView::Start, events) == spec_run(config, s1, e1));
    assert(spec_run(config, s1, e1) == spec_run(config, s2, e2));
    assert(spec_run(config, s2, e2) == spec_run(config, s3, e3));
    match observation {
        ObservationView::RootMissing(_) => {
            assert(e3.len() == 0);
        },
        ObservationView::CommandRan(_) => {
            let s4 = spec_step(config, s3, e3[0]).0;
            let e4 = e3.drop_first();
            assert(spec_run(config, s3, e3) == spec_run(config, s4, e4));
            assert(e4.len() == 0);
        },
    }
}

/// Once the machine is in `Done` it stays there, with the same outcome,
/// whatever it is told.
pub proof fn lemma_done_is_terminal(
    config: ConfigurationView,
    outcome: OutcomeView,
    events: Seq<EventView>,
)
    ensures
        spec_run(config, StateView::Done { outcome }, events) == (StateView::Done { outcome }),
    decreases events.len(),
{
    if events.len() > 0 {
        lemma_done_is_terminal(config, outcome, events.drop_first());
    }
}

/// The package version is asked for only after the query failed, and only
/// where `cargo_prefix` or `cargo_suffix` is written.
pub proof fn lemma_package_version_is_read_on_demand(
    config: ConfigurationView,
    state: StateView,
    event: EventView,
)
    ensures
        spec_step(config, state, event).1 is ReadPackageVersion ==> {
            &&& config.permits_package_fallback()
            &&& spec_step(config, state, event).0 is FallingBack
        },
{
}

/// Where `args` is not written, every command that the machine asks for
/// runs with exactly `--always` and `--dirty=-modified`.
pub proof fn lemma_default_arguments(config: ConfigurationView, state: StateView, event: EventView)
    requires
        config.args is None,
    ensures
        spec_step(config, state, event).1 matches ActionView::RunCommand { args, .. } ==> args
            == seq!["--always"@, "--dirty=-modified"@],
{
}

/// Where `fallback` is written, the package version does not stand in,
/// and no repository root is found, the expansion gives the fallback text
/// exactly as written, whatever `prefix` and `suffix` are.
pub proof fn lemma_literal_fallback_is_verbatim(
    config: ConfigurationView,
    package_version: Option<Seq<char>>,
    error: DirectoryErrorView,
    text: Seq<char>,
)
    requires
        config.fallback == Some(text),
        spec_usable_version(config, package_version) is None,
    ensures
        spec_resolve(config, package_version, ObservationView::RootMissing(error))
            == OutcomeView::FellBackToLiteral(text),
        spec_resolve(config, package_version, ObservationView::RootMissing(error)).value() == Some(text),
{
}

/// Where the command succeeds with `output`, the expansion gives `output`
/// between `prefix` and `suffix`.
pub proof fn lemma_success_is_wrapped(
    config: ConfigurationView,
    package_version: Option<Seq<char>>,
    report: CommandReportView,
    prefix: Seq<char>,
    suffix: Seq<char>,
    output: Seq<char>,
)
    requires
        config.prefix == Some(prefix),
        config.suffix == Some(suffix),
        spec_judge(report) == Ok::<Seq<char>, CommandErrorView>(output),
    ensures
        spec_resolve(config, package_version, ObservationView::CommandRan(report)).value() == Some(
            prefix + output + suffix,
        ),
{
}

/// Two expansions with the same configuration, the same package version
/// and the same answers from outside end alike: the outcome depends on
/// nothing else.
pub proof fn lemma_resolution_is_repeatable(
    config: ConfigurationView,
    package_version: Option<Seq<char>>,
    root: Seq<char>,
    observation: ObservationView,
    first: StateView,
    second: StateView,
)
    requires
        first == spec_run(
            config,
            StateView::Start,
            events_of(config, package_version, root, observation),
        ),
        second == spec_run(
            config,
            StateView::Start,
            events_of(config, package_version, root, observation),
        ),
    ensures
        first == second,
        first == (StateView::Done { outcome: spec_resolve(config, package_version, observation) }),
{
    lemma_machine_reaches_outcome(config, package_version, root, observation);
}

/// Where `cargo_prefix` or `cargo_suffix` is written, the package declares
/// a version and the query gives none, the package version is chosen,
/// whether or not `fallback` is written too.
pub proof fn lemma_package_version_has_priority(
    config: ConfigurationView,
    version: Seq<char>,
    observation: ObservationView,
)
    requires
        config.permits_package_fallback(),
        spec_fails(observation),
    ensures
        spec_resolve(config, Some(version), observation) == OutcomeView::FellBackToPackageVersion(
            spec_wrap(config.cargo_prefix, version, config.cargo_suffix),
        ),
{
}

/// Where the package declares no version, the fallbacks go on as if
/// neither `cargo_prefix` nor `cargo_suffix` were written: the `fallback`
/// text if there is one, else failure.
pub proof fn lemma_unknown_package_version_is_passed_over(
    config: ConfigurationView,
    cause: FailureView,
)
    ensures
        spec_fall_back(config, None, cause) == match config.fallback {
            Some(text) => OutcomeView::FellBackToLiteral(text),
            None => OutcomeView::Failed(
                ErrorDetailView { message: cause.message(config.permits_package_fallback()), cause },
            ),
        },
{
}

} // verus!
