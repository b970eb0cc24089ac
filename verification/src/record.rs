//! The result record: the outcome of one phase (build or test) and the
//! aggregate report delivered to the remote endpoint.

use vstd::prelude::*;

verus! {

/// What running one external phase produced: whether the child process
/// exited successfully, and its two output streams, decoded permissively
/// upstream (invalid bytes replaced, never fatal).
pub struct PhaseOutcome {
    pub succeeded: bool,
    pub stdout: String,
    pub stderr: String,
}

/// Mathematical model of a [`PhaseOutcome`].
pub ghost struct OutcomeModel {
    pub succeeded: bool,
    pub stdout: Seq<char>,
    pub stderr: Seq<char>,
}

impl Clone for PhaseOutcome {
    /// A clone carries the same outcome and the same captured output.
    fn clone(&self) -> (r: Self)
        ensures
            r@ == self@,
    {
        PhaseOutcome {
            succeeded: self.succeeded,
            stdout: self.stdout.clone(),
            stderr: self.stderr.clone(),
        }
    }
}

impl View for PhaseOutcome {
    type V = OutcomeModel;

    open spec fn view(&self) -> OutcomeModel {
        OutcomeModel { succeeded: self.succeeded, stdout: self.stdout@, stderr: self.stderr@ }
    }
}

/// The report payload: both phase outcomes plus the ordered names of the
/// features that were actually passed to the test command.
pub struct TestResult {
    pub build: PhaseOutcome,
    pub test: PhaseOutcome,
    pub features: Vec<String>,
}

/// Mathematical model of a [`TestResult`].
pub ghost struct ResultModel {
    pub build: OutcomeModel,
    pub test: OutcomeModel,
    pub features: Seq<Seq<char>>,
}

impl View for TestResult {
    type V = ResultModel;

    open spec fn view(&self) -> ResultModel {
        ResultModel { build: self.build@, test: self.test@, features: self.features.deep_view() }
    }
}

impl TestResult {
    /// Pure assembly of the finished record from the two phase outcomes and
    /// the active feature names: no I/O, no fallibility.
    pub fn assemble(build: PhaseOutcome, test: PhaseOutcome, features: Vec<String>) -> (r:
        TestResult)
        ensures
            r@.build == build@,
            r@.test == test@,
            r@.features == features.deep_view(),
    {
        TestResult { build, test, features }
    }
}

} // verus!
