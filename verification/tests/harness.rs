use stratos_ci::features::{feature_argument, feature_name_list, Flags};
use stratos_ci::json::encode_result;
use stratos_ci::pipeline::{exit_code, Action, Config, Event, Pipeline, RunOutcome, RunState};
use stratos_ci::record::{PhaseOutcome, TestResult};
use stratos_ci::report::{interpret_response, HarnessError};
use stratos_ci::text::trim;

const KEY: &str = "01234567890123456789";

fn flags(
    raspicam: bool,
    fona: bool,
    no_sms: bool,
    gps: bool,
    telemetry: bool,
    no_power_off: bool,
) -> Flags {
    Flags { raspicam, fona, no_sms, gps, telemetry, no_power_off }
}

fn no_flags() -> Flags {
    flags(false, false, false, false, false, false)
}

fn line(s: &str) -> Event {
    Event::Line { text: s.to_string() }
}

fn process(succeeded: bool, stdout: &str, stderr: &str) -> Event {
    Event::Process { succeeded, stdout: stdout.to_string(), stderr: stderr.to_string() }
}

fn outcome(succeeded: bool, stdout: &str, stderr: &str) -> PhaseOutcome {
    PhaseOutcome { succeeded, stdout: stdout.to_string(), stderr: stderr.to_string() }
}

fn names(list: &[&str]) -> Vec<String> {
    list.iter().map(|s| s.to_string()).collect()
}

#[test]
fn trim_removes_surrounding_whitespace() {
    assert_eq!(trim(" \t key\r\n"), "key");
    assert_eq!(trim("key"), "key");
    assert_eq!(trim("a b"), "a b");
}

#[test]
fn trim_of_only_whitespace_is_empty() {
    assert_eq!(trim(" \n\t"), "");
    assert_eq!(trim(""), "");
}

#[test]
fn key_of_wrong_length_reprompts() {
    let (mut p, a) = Pipeline::start(no_flags(), Config::standard());
    assert!(matches!(a, Action::PromptKey));
    let a = p.step(line("tooshort\n"));
    assert!(matches!(a, Action::PromptKeyAgain));
    assert!(matches!(p.state, RunState::AwaitKey));
    let a = p.step(line("0123456789012345678901\n"));
    assert!(matches!(a, Action::PromptKeyAgain));
    assert!(matches!(p.state, RunState::AwaitKey));
    let a = p.step(line(&format!("{}\n", KEY)));
    assert!(matches!(a, Action::PromptConfirm));
    match &p.state {
        RunState::AwaitConfirm { key } => assert_eq!(key.as_str(), KEY),
        other => panic!("unexpected state: {:?}", state_name(other)),
    }
}

#[test]
fn key_accepted_at_exact_length_with_no_sms_goes_straight_to_build() {
    let (mut p, _) = Pipeline::start(flags(false, true, true, false, false, false), Config::standard());
    let a = p.step(line(&format!("  {}\n", KEY)));
    match a {
        Action::RunBuild { manifest } => {
            assert_eq!(manifest, "/opt/openstratos/server-rs/Cargo.toml");
        }
        _ => panic!("expected a build action"),
    }
    match &p.state {
        RunState::AwaitBuild { key } => assert_eq!(key.as_str(), KEY),
        other => panic!("unexpected state: {:?}", state_name(other)),
    }
}

#[test]
fn features_keep_declaration_order_and_exclude_no_sms() {
    let f = flags(true, true, true, true, true, true);
    let list = feature_name_list(&f);
    assert_eq!(list, names(&["raspicam", "fona", "gps", "telemetry", "no_power_off"]));
    let f = flags(false, false, false, true, true, false);
    assert_eq!(feature_name_list(&f), names(&["gps", "telemetry"]));
    let f = flags(true, false, false, false, true, false);
    assert_eq!(feature_name_list(&f), names(&["raspicam", "telemetry"]));
}

#[test]
fn features_fona_gps_report_exactly_in_order() {
    let f = flags(false, true, false, true, false, false);
    assert_eq!(feature_name_list(&f), names(&["fona", "gps"]));
    assert_eq!(feature_argument(&f), Some("fona gps".to_string()));
}

#[test]
fn feature_argument_is_omitted_when_nothing_is_active() {
    assert_eq!(feature_argument(&no_flags()), None);
    let f = flags(false, true, true, false, false, false);
    assert_eq!(feature_argument(&f), Some("fona".to_string()));
}

#[test]
fn declining_the_safety_gate_aborts_with_exit_code_zero() {
    let (mut p, _) = Pipeline::start(no_flags(), Config::standard());
    let a = p.step(line(&format!("{}\n", KEY)));
    assert!(matches!(a, Action::PromptConfirm));
    let a = p.step(line("n\n"));
    assert!(matches!(a, Action::Stop));
    match &p.state {
        RunState::Finished { outcome } => {
            assert!(matches!(outcome, RunOutcome::Aborted));
            assert_eq!(exit_code(outcome), 0);
        }
        other => panic!("unexpected state: {:?}", state_name(other)),
    }
}

#[test]
fn unrecognized_safety_answer_only_reprompts() {
    let (mut p, _) = Pipeline::start(no_flags(), Config::standard());
    p.step(line(&format!("{}\n", KEY)));
    let a = p.step(line("maybe\n"));
    assert!(matches!(a, Action::PromptConfirmAgain));
    assert!(matches!(p.state, RunState::AwaitConfirm { .. }));
    let a = p.step(line("Y\n"));
    assert!(matches!(a, Action::PromptConfirmAgain));
    let a = p.step(line("y\n"));
    assert!(matches!(a, Action::RunBuild { .. }));
}

#[test]
fn build_failure_still_runs_tests_and_reports_both_outcomes() {
    let f = flags(false, true, true, false, false, false);
    let (mut p, _) = Pipeline::start(f, Config::standard());
    p.step(line(&format!("{}\n", KEY)));
    let a = p.step(process(false, "build out", "build broke"));
    match a {
        Action::RunTest { manifest, features } => {
            assert_eq!(manifest, "/opt/openstratos/server-rs/Cargo.toml");
            assert_eq!(features, Some("fona".to_string()));
        }
        _ => panic!("expected a test action after a failed build"),
    }
    let a = p.step(process(true, "test out", ""));
    match a {
        Action::Send { url, key, body } => {
            assert_eq!(url, "http://staging.openstratos.org/test");
            assert_eq!(key, KEY);
            assert!(body.contains("\"build\":false"));
            assert!(body.contains("build broke"));
            assert!(body.contains("\"test\":true"));
            assert!(body.contains("test out"));
            assert!(body.contains("\"features\":[\"fona\"]"));
        }
        _ => panic!("expected the report to be sent despite the build failure"),
    }
    let a = p.step(Event::HttpResponse { status: 200, body: String::new() });
    assert!(matches!(a, Action::Stop));
    match &p.state {
        RunState::Finished { outcome } => {
            assert!(matches!(outcome, RunOutcome::Reported));
            assert_eq!(exit_code(outcome), 0);
        }
        other => panic!("unexpected state: {:?}", state_name(other)),
    }
}

#[test]
fn payload_is_encoded_exactly() {
    let r = TestResult::assemble(
        outcome(true, "ok\n", ""),
        outcome(false, "ran \"tests\"", "path C:\\tmp"),
        names(&["fona", "gps"]),
    );
    let expected = "{\"build\":true,\"build_stdout\":\"ok\\n\",\"build_stderr\":\"\",\
                    \"test\":false,\"test_stdout\":\"ran \\\"tests\\\"\",\
                    \"test_stderr\":\"path C:\\\\tmp\",\
                    \"features\":[\"fona\",\"gps\"]}";
    assert_eq!(encode_result(&r), expected);
}

#[test]
fn payload_escapes_control_characters() {
    let r = TestResult::assemble(
        outcome(true, "a\u{1}b\tc\rd", ""),
        outcome(true, "", ""),
        names(&[]),
    );
    let body = encode_result(&r);
    assert!(body.contains("a\\u0001b\\tc\\rd"));
    assert!(body.contains("\"features\":[]"));
}

#[test]
fn non_ok_response_is_an_error_with_status_and_body() {
    let r = interpret_response(404, "not found here".to_string());
    match r {
        Err(e) => {
            let msg = e.message();
            assert!(msg.contains("404"));
            assert!(msg.contains("not found here"));
        }
        Ok(()) => panic!("a 404 must not count as success"),
    }
    assert!(interpret_response(200, String::new()).is_ok());
}

#[test]
fn response_error_message_is_exact() {
    let e = HarnessError::Response { status: 500, body: "boom".to_string() };
    assert_eq!(
        e.message(),
        "A '500' status code was received, with this response body:\nboom"
    );
}

#[test]
fn full_run_delivers_error_on_non_ok_status() {
    let (mut p, _) = Pipeline::start(no_flags(), Config::standard());
    p.step(line(&format!("{}\n", KEY)));
    p.step(line("y\n"));
    let a = p.step(process(true, "", ""));
    match &a {
        Action::RunTest { features, .. } => assert!(features.is_none()),
        _ => panic!("expected a test action"),
    }
    p.step(process(true, "", ""));
    let a = p.step(Event::HttpResponse { status: 503, body: "overloaded".to_string() });
    assert!(matches!(a, Action::Stop));
    match &p.state {
        RunState::Finished { outcome } => {
            assert_eq!(exit_code(outcome), 1);
            match outcome {
                RunOutcome::Failed { error } => {
                    let msg = error.message();
                    assert!(msg.contains("503"));
                    assert!(msg.contains("overloaded"));
                }
                _ => panic!("a 503 answer must fail the run"),
            }
        }
        other => panic!("unexpected state: {:?}", state_name(other)),
    }
}

#[test]
fn spawn_failure_is_fatal_with_exit_code_one() {
    let f = flags(false, true, true, false, false, false);
    let (mut p, _) = Pipeline::start(f, Config::standard());
    p.step(line(&format!("{}\n", KEY)));
    let a = p.step(Event::SpawnFailed { detail: "No such file or directory".to_string() });
    assert!(matches!(a, Action::Stop));
    match &p.state {
        RunState::Finished { outcome } => {
            assert_eq!(exit_code(outcome), 1);
            match outcome {
                RunOutcome::Failed { error } => {
                    assert_eq!(
                        error.message(),
                        "error running the command: No such file or directory"
                    );
                }
                _ => panic!("a spawn failure must fail the run"),
            }
        }
        other => panic!("unexpected state: {:?}", state_name(other)),
    }
}

#[test]
fn transport_failure_is_fatal() {
    let (mut p, _) = Pipeline::start(no_flags(), Config::standard());
    p.step(line(&format!("{}\n", KEY)));
    p.step(line("y\n"));
    p.step(process(true, "", ""));
    p.step(process(true, "", ""));
    let a = p.step(Event::TransportFailed { detail: "connection refused".to_string() });
    assert!(matches!(a, Action::Stop));
    match &p.state {
        RunState::Finished { outcome } => {
            assert_eq!(exit_code(outcome), 1);
            match outcome {
                RunOutcome::Failed { error } => {
                    assert_eq!(error.message(), "error sending result: connection refused");
                }
                _ => panic!("a transport failure must fail the run"),
            }
        }
        other => panic!("unexpected state: {:?}", state_name(other)),
    }
}

#[test]
fn closed_input_is_an_io_error() {
    let (mut p, _) = Pipeline::start(no_flags(), Config::standard());
    let a = p.step(Event::InputClosed { detail: "stream closed".to_string() });
    assert!(matches!(a, Action::Stop));
    match &p.state {
        RunState::Finished { outcome } => {
            assert_eq!(exit_code(outcome), 1);
            match outcome {
                RunOutcome::Failed { error } => {
                    assert_eq!(error.message(), "error reading operator input: stream closed");
                }
                _ => panic!("closed input must fail the run"),
            }
        }
        other => panic!("unexpected state: {:?}", state_name(other)),
    }
}

fn state_name(s: &RunState) -> &'static str {
    match s {
        RunState::AwaitKey => "AwaitKey",
        RunState::AwaitConfirm { .. } => "AwaitConfirm",
        RunState::AwaitBuild { .. } => "AwaitBuild",
        RunState::AwaitTest { .. } => "AwaitTest",
        RunState::AwaitResponse { .. } => "AwaitResponse",
        RunState::Finished { .. } => "Finished",
    }
}
