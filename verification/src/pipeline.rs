//! The orchestration pipeline, modelled as an explicit state machine.
//!
//! The machine owns every decision of a run: validating the operator key,
//! passing the SMS safety gate, sequencing build, test and report, and
//! classifying the endpoint's answer. The surrounding binary only performs
//! the actions the machine asks for (print a prompt, read a line, run a
//! command, post the payload) and feeds the observed event back in.
//!
//! Stage order: key, feature gate, build, test, report. A build that exits
//! non-zero is recorded and the run continues: both outcomes are always
//! reported together.

use crate::features::{feature_argument, feature_name_list, feature_names, space_joined, Flags};
use crate::json::{encode_result, json_of_result};
use crate::record::{OutcomeModel, PhaseOutcome, ResultModel, TestResult};
use crate::report::{interpret_response, ErrorModel, HarnessError, OK_STATUS};
use crate::text::{trim, trim_of};
use vstd::prelude::*;
use vstd::string::*;

verus! {

/// The exact length a trimmed operator key must have.
pub const KEY_LEN: usize = 20;

/// The compiled-in run parameters: where the target repository lives and
/// where the result is reported.
pub struct Config {
    pub repo_path: String,
    pub endpoint_url: String,
}

/// Mathematical model of a [`Config`].
pub ghost struct ConfigModel {
    pub repo_path: Seq<char>,
    pub endpoint_url: Seq<char>,
}

impl View for Config {
    type V = ConfigModel;

    open spec fn view(&self) -> ConfigModel {
        ConfigModel { repo_path: self.repo_path@, endpoint_url: self.endpoint_url@ }
    }
}

/// The manifest path handed to the build and test commands: the target
/// repository's build descriptor.
pub open spec fn manifest_of(c: ConfigModel) -> Seq<char> {
    c.repo_path + "/Cargo.toml"@
}

impl Config {
    /// The fixed default parameters of the harness.
    pub fn standard() -> (c: Config)
        ensures
            c@.repo_path == "/opt/openstratos/server-rs"@,
            c@.endpoint_url == "http://staging.openstratos.org/test"@,
    {
        Config {
            repo_path: String::from_str("/opt/openstratos/server-rs"),
            endpoint_url: String::from_str("http://staging.openstratos.org/test"),
        }
    }

    /// The manifest path of the target repository.
    pub fn manifest_path(&self) -> (r: String)
        ensures
            r@ == manifest_of(self@),
    {
        let mut m = self.repo_path.clone();
        m.append("/Cargo.toml");
        m
    }
}

/// What the outside world reported back after the last action.
pub enum Event {
    /// A line of operator input was read.
    Line { text: String },
    /// The operator input stream is closed or unreadable.
    InputClosed { detail: String },
    /// An external command ran to completion.
    Process { succeeded: bool, stdout: String, stderr: String },
    /// An external command could not be launched at all.
    SpawnFailed { detail: String },
    /// The endpoint answered the report with a status code and a body.
    HttpResponse { status: u16, body: String },
    /// The report never reached the endpoint.
    TransportFailed { detail: String },
}

/// Mathematical model of an [`Event`].
pub ghost enum EventModel {
    Line { text: Seq<char> },
    InputClosed { detail: Seq<char> },
    Process { succeeded: bool, stdout: Seq<char>, stderr: Seq<char> },
    SpawnFailed { detail: Seq<char> },
    HttpResponse { status: u16, body: Seq<char> },
    TransportFailed { detail: Seq<char> },
}

impl View for Event {
    type V = EventModel;

    open spec fn view(&self) -> EventModel {
        match self {
            Event::Line { text } => EventModel::Line { text: text@ },
            Event::InputClosed { detail } => EventModel::InputClosed { detail: detail@ },
            Event::Process { succeeded, stdout, stderr } => EventModel::Process {
                succeeded: *succeeded,
                stdout: stdout@,
                stderr: stderr@,
            },
            Event::SpawnFailed { detail } => EventModel::SpawnFailed { detail: detail@ },
            Event::HttpResponse { status, body } => EventModel::HttpResponse {
                status: *status,
                body: body@,
            },
            Event::TransportFailed { detail } => EventModel::TransportFailed { detail: detail@ },
        }
    }
}

/// What the binary must do next.
pub enum Action {
    /// Print the initial key prompt and read a line.
    PromptKey,
    /// Print the invalid-key prompt and read a line.
    PromptKeyAgain,
    /// Print the SMS-cost confirmation prompt and read a line.
    PromptConfirm,
    /// Print the yes-or-no reminder and read a line.
    PromptConfirmAgain,
    /// Run the build command against `manifest` and report its outcome.
    RunBuild { manifest: String },
    /// Run the test command against `manifest`, with default features off,
    /// the given feature string (omitted when `None`) and ignored tests on.
    RunTest { manifest: String, features: Option<String> },
    /// POST `body` to `url`, basic-authenticated with `key` as the username
    /// and no password, and report the answer.
    Send { url: String, key: String, body: String },
    /// The run is over; consult the finished state for the outcome.
    Stop,
}

/// Mathematical model of an [`Action`].
pub ghost enum ActionModel {
    PromptKey,
    PromptKeyAgain,
    PromptConfirm,
    PromptConfirmAgain,
    RunBuild { manifest: Seq<char> },
    RunTest { manifest: Seq<char>, features: Option<Seq<char>> },
    Send { url: Seq<char>, key: Seq<char>, body: Seq<char> },
    Stop,
}

impl View for Action {
    type V = ActionModel;

    open spec fn view(&self) -> ActionModel {
        match self {
            Action::PromptKey => ActionModel::PromptKey,
            Action::PromptKeyAgain => ActionModel::PromptKeyAgain,
            Action::PromptConfirm => ActionModel::PromptConfirm,
            Action::PromptConfirmAgain => ActionModel::PromptConfirmAgain,
            Action::RunBuild { manifest } => ActionModel::RunBuild { manifest: manifest@ },
            Action::RunTest { manifest, features } => ActionModel::RunTest {
                manifest: manifest@,
                features: match features {
                    Some(s) => Some(s@),
                    None => None,
                },
            },
            Action::Send { url, key, body } => ActionModel::Send {
                url: url@,
                key: key@,
                body: body@,
            },
            Action::Stop => ActionModel::Stop,
        }
    }
}

/// How a finished run ended.
pub enum RunOutcome {
    /// The endpoint accepted the report.
    Reported,
    /// The operator declined the SMS cost at the safety gate: a deliberate,
    /// successful early exit; nothing was built, tested or sent.
    Aborted,
    /// A fatal error ended the run.
    Failed { error: HarnessError },
}

/// Mathematical model of a [`RunOutcome`].
pub ghost enum RunOutcomeModel {
    Reported,
    Aborted,
    Failed { error: ErrorModel },
}

impl View for RunOutcome {
    type V = RunOutcomeModel;

    open spec fn view(&self) -> RunOutcomeModel {
        match self {
            RunOutcome::Reported => RunOutcomeModel::Reported,
            RunOutcome::Aborted => RunOutcomeModel::Aborted,
            RunOutcome::Failed { error } => RunOutcomeModel::Failed { error: error@ },
        }
    }
}

/// Where the run stands, together with everything gathered so far.
pub enum RunState {
    /// Waiting for the operator to enter the key.
    AwaitKey,
    /// Waiting for the yes-or-no answer at the SMS safety gate.
    AwaitConfirm { key: String },
    /// Waiting for the outcome of the build command.
    AwaitBuild { key: String },
    /// Waiting for the outcome of the test command.
    AwaitTest { key: String, build: PhaseOutcome },
    /// Waiting for the endpoint's answer to the report.
    AwaitResponse { key: String, result: TestResult },
    /// The run is over.
    Finished { outcome: RunOutcome },
}

/// Mathematical model of a [`RunState`].
pub ghost enum StateModel {
    AwaitKey,
    AwaitConfirm { key: Seq<char> },
    AwaitBuild { key: Seq<char> },
    AwaitTest { key: Seq<char>, build: OutcomeModel },
    AwaitResponse { key: Seq<char>, result: ResultModel },
    Finished { outcome: RunOutcomeModel },
}

impl View for RunState {
    type V = StateModel;

    open spec fn view(&self) -> StateModel {
        match self {
            RunState::AwaitKey => StateModel::AwaitKey,
            RunState::AwaitConfirm { key } => StateModel::AwaitConfirm { key: key@ },
            RunState::AwaitBuild { key } => StateModel::AwaitBuild { key: key@ },
            RunState::AwaitTest { key, build } => StateModel::AwaitTest {
                key: key@,
                build: build@,
            },
            RunState::AwaitResponse { key, result } => StateModel::AwaitResponse {
                key: key@,
                result: result@,
            },
            RunState::Finished { outcome } => StateModel::Finished { outcome: outcome@ },
        }
    }
}

/// Which events a state can be fed. A finished machine accepts none.
pub open spec fn accepts(s: StateModel, e: EventModel) -> bool {
    match (s, e) {
        (StateModel::AwaitKey, EventModel::Line { .. }) => true,
        (StateModel::AwaitKey, EventModel::InputClosed { .. }) => true,
        (StateModel::AwaitConfirm { .. }, EventModel::Line { .. }) => true,
        (StateModel::AwaitConfirm { .. }, EventModel::InputClosed { .. }) => true,
        (StateModel::AwaitBuild { .. }, EventModel::Process { .. }) => true,
        (StateModel::AwaitBuild { .. }, EventModel::SpawnFailed { .. }) => true,
        (StateModel::AwaitTest { .. }, EventModel::Process { .. }) => true,
        (StateModel::AwaitTest { .. }, EventModel::SpawnFailed { .. }) => true,
        (StateModel::AwaitResponse { .. }, EventModel::HttpResponse { .. }) => true,
        (StateModel::AwaitResponse { .. }, EventModel::TransportFailed { .. }) => true,
        _ => false,
    }
}

/// The record assembled once both phases have run.
pub open spec fn result_model(flags: Flags, build: OutcomeModel, test: OutcomeModel) -> ResultModel {
    ResultModel { build, test, features: feature_names(flags) }
}

/// The state after feeding `e` to a machine in state `s`.
pub open spec fn step_state(flags: Flags, s: StateModel, e: EventModel) -> StateModel {
    match (s, e) {
        (StateModel::AwaitKey, EventModel::Line { text }) => {
            if trim_of(text).len() == KEY_LEN {
                if flags.no_sms {
                    StateModel::AwaitBuild { key: trim_of(text) }
                } else {
                    StateModel::AwaitConfirm { key: trim_of(text) }
                }
            } else {
                StateModel::AwaitKey
            }
        },
        (StateModel::AwaitKey, EventModel::InputClosed { detail }) => StateModel::Finished {
            outcome: RunOutcomeModel::Failed { error: ErrorModel::Io { detail } },
        },
        (StateModel::AwaitConfirm { key }, EventModel::Line { text }) => {
            if trim_of(text) == "y"@ {
                StateModel::AwaitBuild { key }
            } else if trim_of(text) == "n"@ {
                StateModel::Finished { outcome: RunOutcomeModel::Aborted }
            } else {
                StateModel::AwaitConfirm { key }
            }
        },
        (StateModel::AwaitConfirm { .. }, EventModel::InputClosed { detail }) => {
            StateModel::Finished {
                outcome: RunOutcomeModel::Failed { error: ErrorModel::Io { detail } },
            }
        },
        (StateModel::AwaitBuild { key }, EventModel::Process { succeeded, stdout, stderr }) => {
            StateModel::AwaitTest { key, build: OutcomeModel { succeeded, stdout, stderr } }
        },
        (StateModel::AwaitBuild { .. }, EventModel::SpawnFailed { detail }) => {
            StateModel::Finished {
                outcome: RunOutcomeModel::Failed { error: ErrorModel::Spawn { detail } },
            }
        },
        (
            StateModel::AwaitTest { key, build },
            EventModel::Process { succeeded, stdout, stderr },
        ) => {
            StateModel::AwaitResponse {
                key,
                result: result_model(flags, build, OutcomeModel { succeeded, stdout, stderr }),
            }
        },
        (StateModel::AwaitTest { .. }, EventModel::SpawnFailed { detail }) => {
            StateModel::Finished {
                outcome: RunOutcomeModel::Failed { error: ErrorModel::Spawn { detail } },
            }
        },
        (StateModel::AwaitResponse { .. }, EventModel::HttpResponse { status, body }) => {
            if status == OK_STATUS {
                StateModel::Finished { outcome: RunOutcomeModel::Reported }
            } else {
                StateModel::Finished {
                    outcome: RunOutcomeModel::Failed {
                        error: ErrorModel::Response { status, body },
                    },
                }
            }
        },
        (StateModel::AwaitResponse { .. }, EventModel::TransportFailed { detail }) => {
            StateModel::Finished {
                outcome: RunOutcomeModel::Failed { error: ErrorModel::Transport { detail } },
            }
        },
        _ => s,
    }
}

/// The feature string argument of the test command: omitted entirely when
/// no feature is active.
pub open spec fn feature_argument_model(flags: Flags) -> Option<Seq<char>> {
    if feature_names(flags).len() == 0 {
        None
    } else {
        Some(space_joined(feature_names(flags)))
    }
}

/// The action a machine in state `s` asks for after event `e`.
pub open spec fn step_action(flags: Flags, cfg: ConfigModel, s: StateModel, e: EventModel) -> ActionModel {
    match (s, e) {
        (StateModel::AwaitKey, EventModel::Line { text }) => {
            if trim_of(text).len() == KEY_LEN {
                if flags.no_sms {
                    ActionModel::RunBuild { manifest: manifest_of(cfg) }
                } else {
                    ActionModel::PromptConfirm
                }
            } else {
                ActionModel::PromptKeyAgain
            }
        },
        (StateModel::AwaitConfirm { .. }, EventModel::Line { text }) => {
            if trim_of(text) == "y"@ {
                ActionModel::RunBuild { manifest: manifest_of(cfg) }
            } else if trim_of(text) == "n"@ {
                ActionModel::Stop
            } else {
                ActionModel::PromptConfirmAgain
            }
        },
        (StateModel::AwaitBuild { .. }, EventModel::Process { .. }) => ActionModel::RunTest {
            manifest: manifest_of(cfg),
            features: feature_argument_model(flags),
        },
        (
            StateModel::AwaitTest { key, build },
            EventModel::Process { succeeded, stdout, stderr },
        ) => {
            ActionModel::Send {
                url: cfg.endpoint_url,
                key,
                body: json_of_result(
                    result_model(flags, build, OutcomeModel { succeeded, stdout, stderr }),
                ),
            }
        },
        _ => ActionModel::Stop,
    }
}

/// The whole machine: the parsed flags, the run parameters and the current
/// state.
pub struct Pipeline {
    pub flags: Flags,
    pub config: Config,
    pub state: RunState,
}

/// Mathematical model of a [`Pipeline`].
pub ghost struct PipelineModel {
    pub flags: Flags,
    pub config: ConfigModel,
    pub state: StateModel,
}

impl View for Pipeline {
    type V = PipelineModel;

    open spec fn view(&self) -> PipelineModel {
        PipelineModel { flags: self.flags, config: self.config@, state: self.state@ }
    }
}

impl Pipeline {
    /// A fresh machine: it waits for the operator key and asks for the key
    /// prompt first.
    pub fn start(flags: Flags, config: Config) -> (r: (Pipeline, Action))
        ensures
            r.0@.flags == flags,
            r.0@.config == config@,
            r.0@.state == StateModel::AwaitKey,
            r.1@ == ActionModel::PromptKey,
    {
        (Pipeline { flags, config, state: RunState::AwaitKey }, Action::PromptKey)
    }

    /// Feeds one observed event in and says what to do next. The machine
    /// moves exactly as [`step_state`] and [`step_action`] describe.
    pub fn step(&mut self, event: Event) -> (a: Action)
        requires
            accepts(old(self)@.state, event@),
        ensures
            final(self)@.flags == old(self)@.flags,
            final(self)@.config == old(self)@.config,
            final(self)@.state == step_state(old(self)@.flags, old(self)@.state, event@),
            a@ == step_action(old(self)@.flags, old(self)@.config, old(self)@.state, event@),
    {
        let (next, action): (RunState, Action) = match (&self.state, &event) {
            (RunState::AwaitKey, Event::Line { text }) => {
                let t = trim(text.as_str());
                if t.as_str().unicode_len() == KEY_LEN {
                    if self.flags.no_sms {
                        let m = self.config.manifest_path();
                        (RunState::AwaitBuild { key: t }, Action::RunBuild { manifest: m })
                    } else {
                        (RunState::AwaitConfirm { key: t }, Action::PromptConfirm)
                    }
                } else {
                    (RunState::AwaitKey, Action::PromptKeyAgain)
                }
            },
            (RunState::AwaitKey, Event::InputClosed { detail }) => {
                (
                    RunState::Finished {
                        outcome: RunOutcome::Failed {
                            error: HarnessError::Io { detail: detail.clone() },
                        },
                    },
                    Action::Stop,
                )
            },
            (RunState::AwaitConfirm { key }, Event::Line { text }) => {
                let t = trim(text.as_str());
                let yes = String::from_str("y");
                let no = String::from_str("n");
                if t == yes {
                    let m = self.config.manifest_path();
                    (
                        RunState::AwaitBuild { key: key.clone() },
                        Action::RunBuild { manifest: m },
                    )
                } else if t == no {
                    (
                        RunState::Finished { outcome: RunOutcome::Aborted },
                        Action::Stop,
                    )
                } else {
                    (
                        RunState::AwaitConfirm { key: key.clone() },
                        Action::PromptConfirmAgain,
                    )
                }
            },
            (RunState::AwaitConfirm { .. }, Event::InputClosed { detail }) => {
                (
                    RunState::Finished {
                        outcome: RunOutcome::Failed {
                            error: HarnessError::Io { detail: detail.clone() },
                        },
                    },
                    Action::Stop,
                )
            },
            (RunState::AwaitBuild { key }, Event::Process { succeeded, stdout, stderr }) => {
                let build = PhaseOutcome {
                    succeeded: *succeeded,
                    stdout: stdout.clone(),
                    stderr: stderr.clone(),
                };
                let m = self.config.manifest_path();
                let features = feature_argument(&self.flags);
                (
                    RunState::AwaitTest { key: key.clone(), build },
                    Action::RunTest { manifest: m, features },
                )
            },
            (RunState::AwaitBuild { .. }, Event::SpawnFailed { detail }) => {
                (
                    RunState::Finished {
                        outcome: RunOutcome::Failed {
                            error: HarnessError::Spawn { detail: detail.clone() },
                        },
                    },
                    Action::Stop,
                )
            },
            (RunState::AwaitTest { key, build }, Event::Process { succeeded, stdout, stderr }) => {
                let test = PhaseOutcome {
                    succeeded: *succeeded,
                    stdout: stdout.clone(),
                    stderr: stderr.clone(),
                };
                let names = feature_name_list(&self.flags);
                let result = TestResult::assemble(build.clone(), test, names);
                let body = encode_result(&result);
                let url = self.config.endpoint_url.clone();
                let k = key.clone();
                (
                    RunState::AwaitResponse { key: key.clone(), result },
                    Action::Send { url, key: k, body },
                )
            },
            (RunState::AwaitTest { .. }, Event::SpawnFailed { detail }) => {
                (
                    RunState::Finished {
                        outcome: RunOutcome::Failed {
                            error: HarnessError::Spawn { detail: detail.clone() },
                        },
                    },
                    Action::Stop,
                )
            },
            (RunState::AwaitResponse { .. }, Event::HttpResponse { status, body }) => {
                let outcome = match interpret_response(*status, body.clone()) {
                    Ok(()) => RunOutcome::Reported,
                    Err(error) => RunOutcome::Failed { error },
                };
                (RunState::Finished { outcome }, Action::Stop)
            },
            (RunState::AwaitResponse { .. }, Event::TransportFailed { detail }) => {
                (
                    RunState::Finished {
                        outcome: RunOutcome::Failed {
                            error: HarnessError::Transport { detail: detail.clone() },
                        },
                    },
                    Action::Stop,
                )
            },
            _ => {
                proof {
                    assert(false);
                }
                (RunState::AwaitKey, Action::Stop)
            },
        };
        proof {
            reveal_strlit("y");
            reveal_strlit("n");
        }
        self.state = next;
        action
    }
}

/// The process exit code for a finished run: declining the safety gate is a
/// success, only a fatal error exits non-zero.
pub open spec fn exit_code_of(o: RunOutcomeModel) -> int {
    match o {
        RunOutcomeModel::Reported => 0,
        RunOutcomeModel::Aborted => 0,
        RunOutcomeModel::Failed { .. } => 1,
    }
}

/// The process exit code for a finished run.
pub fn exit_code(o: &RunOutcome) -> (c: i32)
    ensures
        c as int == exit_code_of(o@),
{
    match o {
        RunOutcome::Reported => 0,
        RunOutcome::Aborted => 0,
        RunOutcome::Failed { .. } => 1,
    }
}

} // verus!
