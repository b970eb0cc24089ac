//! The behavioural laws of the pipeline, stated over the machine's
//! transition functions and proved once for all inputs.

use crate::features::{feature_names, Flags};
use crate::json::json_of_result;
use crate::pipeline::{
    accepts, exit_code_of, feature_argument_model, manifest_of, result_model, step_action,
    step_state, ActionModel, ConfigModel, EventModel, RunOutcomeModel, StateModel, KEY_LEN,
};
use crate::record::OutcomeModel;
use crate::text::trim_of;
use vstd::prelude::*;

verus! {

/// The key gate proceeds exactly on a line whose trimmed length is
/// [`KEY_LEN`]; any other line leaves the machine waiting for the key and
/// only asks for a reprompt.
pub proof fn lemma_key_gate(flags: Flags, cfg: ConfigModel, l: Seq<char>)
    ensures
        trim_of(l).len() != KEY_LEN ==> step_state(
            flags,
            StateModel::AwaitKey,
            EventModel::Line { text: l },
        ) == StateModel::AwaitKey && step_action(
            flags,
            cfg,
            StateModel::AwaitKey,
            EventModel::Line { text: l },
        ) == ActionModel::PromptKeyAgain,
        trim_of(l).len() == KEY_LEN && !flags.no_sms ==> step_state(
            flags,
            StateModel::AwaitKey,
            EventModel::Line { text: l },
        ) == (StateModel::AwaitConfirm { key: trim_of(l) }),
        trim_of(l).len() == KEY_LEN && flags.no_sms ==> step_state(
            flags,
            StateModel::AwaitKey,
            EventModel::Line { text: l },
        ) == (StateModel::AwaitBuild { key: trim_of(l) }),
{
}

/// Declining the SMS safety gate ends the run at once: the machine is
/// finished with the deliberate `Aborted` outcome, asks for nothing further
/// (so nothing is built, tested or sent), accepts no more events, and the
/// process exit code is 0.
pub proof fn lemma_decline_ends_run(flags: Flags, cfg: ConfigModel, key: Seq<char>, l: Seq<char>)
    requires
        trim_of(l) == "n"@,
    ensures
        step_state(flags, StateModel::AwaitConfirm { key }, EventModel::Line { text: l })
            == (StateModel::Finished { outcome: RunOutcomeModel::Aborted }),
        step_action(flags, cfg, StateModel::AwaitConfirm { key }, EventModel::Line { text: l })
            == ActionModel::Stop,
        exit_code_of(RunOutcomeModel::Aborted) == 0,
        forall|e: EventModel|
            !accepts(StateModel::Finished { outcome: RunOutcomeModel::Aborted }, e),
{
    reveal_strlit("y");
    reveal_strlit("n");
    assert("y"@[0] == 'y' && "n"@[0] == 'n');
    assert(trim_of(l) != "y"@);
}

/// An answer other than exactly `y` or `n` at the safety gate changes
/// nothing: the machine keeps its state and only asks for the reminder
/// prompt.
pub proof fn lemma_unrecognized_answer_repeats(
    flags: Flags,
    cfg: ConfigModel,
    key: Seq<char>,
    l: Seq<char>,
)
    requires
        trim_of(l) != "y"@,
        trim_of(l) != "n"@,
    ensures
        step_state(flags, StateModel::AwaitConfirm { key }, EventModel::Line { text: l })
            == (StateModel::AwaitConfirm { key }),
        step_action(flags, cfg, StateModel::AwaitConfirm { key }, EventModel::Line { text: l })
            == ActionModel::PromptConfirmAgain,
{
}

/// A build that merely exits non-zero does not end the run: whatever the
/// build outcome, the machine goes on to run the tests, and the payload it
/// then sends carries both outcomes and the active feature names.
pub proof fn lemma_build_failure_still_reports(
    flags: Flags,
    cfg: ConfigModel,
    key: Seq<char>,
    build: OutcomeModel,
    test: OutcomeModel,
)
    ensures
        step_state(
            flags,
            StateModel::AwaitBuild { key },
            EventModel::Process {
                succeeded: build.succeeded,
                stdout: build.stdout,
                stderr: build.stderr,
            },
        ) == (StateModel::AwaitTest { key, build }),
        step_action(
            flags,
            cfg,
            StateModel::AwaitBuild { key },
            EventModel::Process {
                succeeded: build.succeeded,
                stdout: build.stdout,
                stderr: build.stderr,
            },
        ) == (ActionModel::RunTest {
            manifest: manifest_of(cfg),
            features: feature_argument_model(flags),
        }),
        step_state(
            flags,
            StateModel::AwaitTest { key, build },
            EventModel::Process {
                succeeded: test.succeeded,
                stdout: test.stdout,
                stderr: test.stderr,
            },
        ) == (StateModel::AwaitResponse { key, result: result_model(flags, build, test) }),
        step_action(
            flags,
            cfg,
            StateModel::AwaitTest { key, build },
            EventModel::Process {
                succeeded: test.succeeded,
                stdout: test.stdout,
                stderr: test.stderr,
            },
        ) == (ActionModel::Send {
            url: cfg.endpoint_url,
            key,
            body: json_of_result(result_model(flags, build, test)),
        }),
        result_model(flags, build, test).build == build,
        result_model(flags, build, test).test == test,
        result_model(flags, build, test).features == feature_names(flags),
{
}

} // verus!
