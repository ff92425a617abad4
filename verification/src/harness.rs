//! How a conformance test is set up and judged, and how the tests are reported.
use vstd::prelude::*;
use vstd::string::*;

use crate::conformance_tests::ConformanceTest;
use crate::scratch_path::ScratchPath;
use crate::scratch_space::ScratchSpace;
#[allow(unused_imports)]
use crate::scratch_space::registry_parts;

verus! {

/// How many tests run at a time.
pub const CONCURRENT_TESTS: usize = 4;

/// Why a test did not pass. `S` is what a scratch space fails with, `B` what a
/// registry or a test fails with, and `P` says where a scratch space was left.
#[derive(Debug)]
#[allow(inconsistent_fields)]
pub enum TestError<S, B, P> {
    Scratch { source: S },
    RegistryStart { source: B },
    Assert { text: String, scratch_space: P },
    Failure { source: B, scratch_space: P },
    RegistryShutdown { source: B },
}

impl<S, B, P> TestError<S, B, P> {
    /// Where the scratch space was left, if it was.
    pub open spec fn left_in(self) -> Option<P> {
        match self {
            TestError::Assert { scratch_space, .. } => Some(scratch_space),
            TestError::Failure { scratch_space, .. } => Some(scratch_space),
            _ => None,
        }
    }

    /// Where the scratch space was left, if it was.
    pub fn scratch_space(&self) -> (path: Option<&P>)
        ensures
            self.left_in() is Some <==> path is Some,
            path matches Some(path) ==> self.left_in() == Some(*path),
    {
        match self {
            TestError::Assert { scratch_space, .. } => Some(scratch_space),
            TestError::Failure { scratch_space, .. } => Some(scratch_space),
            _ => None,
        }
    }
}

/// What came of a test.
#[derive(Debug)]
pub enum TestResultKind<S, B, P> {
    Success,
    Failure(TestError<S, B, P>),
    Skipped,
}

impl<S, B, P> TestResultKind<S, B, P> {
    /// The word by which the result is reported.
    pub open spec fn word(self) -> Seq<char> {
        match self {
            TestResultKind::Success => "PASS"@,
            TestResultKind::Failure(_) => "FAIL"@,
            TestResultKind::Skipped => "SKIP"@,
        }
    }

    /// The word by which the result is reported.
    pub fn code(&self) -> (code: &'static str)
        ensures
            code@ == self.word(),
    {
        match self {
            TestResultKind::Success => "PASS",
            TestResultKind::Failure(_) => "FAIL",
            TestResultKind::Skipped => "SKIP",
        }
    }
}

impl<S, B, P> From<Result<(), TestError<S, B, P>>> for TestResultKind<S, B, P> {
    fn from(value: Result<(), TestError<S, B, P>>) -> (kind: Self) {
        match value {
            Ok(()) => TestResultKind::Success,
            Err(e) => TestResultKind::Failure(e),
        }
    }
}

impl<S, B, P> vstd::std_specs::convert::FromSpecImpl<Result<(), TestError<S, B, P>>> for TestResultKind<S, B, P> {
    open spec fn obeys_from_spec() -> bool {
        true
    }

    open spec fn from_spec(value: Result<(), TestError<S, B, P>>) -> Self {
        match value {
            Ok(()) => TestResultKind::Success,
            Err(e) => TestResultKind::Failure(e),
        }
    }
}

/// What came of the test of this name.
#[derive(Debug)]
pub struct TestResult<S, B, P> {
    pub name: &'static str,
    pub result: TestResultKind<S, B, P>,
}

impl<S, B, P> TestResult<S, B, P> {
    /// The result of a test that was run, or was not to run.
    pub fn new(test: ConformanceTest, ran: Option<Result<(), TestError<S, B, P>>>) -> (result: Self)
        ensures
            result.name@ == test.title(),
            result.result == match ran {
                Some(Ok(())) => TestResultKind::Success,
                Some(Err(e)) => TestResultKind::Failure(e),
                None => TestResultKind::Skipped,
            },
    {
        let result = match ran {
            Some(outcome) => TestResultKind::from(outcome),
            None => TestResultKind::Skipped,
        };
        TestResult { name: test.name(), result }
    }

    /// The line that is printed when the test has ended.
    pub fn status_line(&self) -> (line: String)
        ensures
            line@ == self.result.word() + ": "@ + self.name@,
    {
        self.result.code().to_owned().concat(": ").concat(self.name)
    }
}

/// How the whole run ends.
#[derive(Debug, Clone, Copy, PartialEq, Eq, Structural)]
pub enum Exit {
    Success,
    Failure,
}

/// What is printed of a test that did not pass.
#[derive(Debug)]
pub struct FailureReport<'a, S, B, P> {
    pub heading: String,
    pub error: &'a TestError<S, B, P>,
    /// Where the scratch space was left, if it was.
    pub artifacts: Option<&'a P>,
}

/// The tests that did not pass, in the order of the results.
pub open spec fn failed<S, B, P>(results: Seq<TestResult<S, B, P>>) -> Seq<TestResult<S, B, P>> {
    results.filter(|result: TestResult<S, B, P>| result.result is Failure)
}

impl<'a, S, B, P> FailureReport<'a, S, B, P> {
    /// Whether the report is about the result.
    pub open spec fn is_about(self, result: TestResult<S, B, P>) -> bool {
        &&& self.heading@ == "=== "@ + result.name@
        &&& result.result == TestResultKind::Failure(*self.error)
        &&& self.error.left_in() is Some <==> self.artifacts is Some
        &&& self.artifacts matches Some(path) ==> self.error.left_in() == Some(*path)
    }
}

/// Ends the whole run: it fails if a test has failed, and every test that has
/// failed is reported, in the order of the results.
pub fn conclude<'a, S, B, P>(results: &'a Vec<TestResult<S, B, P>>) -> (conclusion: (
    Exit,
    Vec<FailureReport<'a, S, B, P>>,
))
    ensures
        conclusion.0 == if failed(results@).len() == 0 {
            Exit::Success
        } else {
            Exit::Failure
        },
        conclusion.1@.len() == failed(results@).len(),
        forall|k: int|
            0 <= k < conclusion.1@.len() ==> (#[trigger] conclusion.1@[k]).is_about(
                failed(results@)[k],
            ),
{
    let mut exit = Exit::Success;
    let mut reports: Vec<FailureReport<'a, S, B, P>> = Vec::new();
    let mut i: usize = 0;
    proof {
        reveal(Seq::filter);
        assert(results@.take(0) =~= seq![]);
    }
    while i < results.len()
        invariant
            i <= results@.len(),
            exit == if failed(results@.take(i as int)).len() == 0 {
                Exit::Success
            } else {
                Exit::Failure
            },
            reports@.len() == failed(results@.take(i as int)).len(),
            forall|k: int|
                0 <= k < reports@.len() ==> (#[trigger] reports@[k]).is_about(
                    failed(results@.take(i as int))[k],
                ),
        decreases results@.len() - i,
    {
        let t = &results[i];
        proof {
            reveal(Seq::filter);
            assert(results@.take(i + 1).drop_last() =~= results@.take(i as int));
        }
        if let TestResultKind::Failure(error) = &t.result {
            let heading = "=== ".to_owned().concat(t.name);
            reports.push(FailureReport { heading, error, artifacts: error.scratch_space() });
            exit = Exit::Failure;
        }
        i += 1;
    }
    assert(results@.take(i as int) =~= results@);
    (exit, reports)
}

/// The run fails if and only if some test has failed: tests that have passed or
/// were skipped do not matter.
pub proof fn one_failure_fails_the_run<S, B, P>(results: Seq<TestResult<S, B, P>>)
    ensures
        failed(results).len() > 0 <==> exists|i: int|
            0 <= i < results.len() && (#[trigger] results[i]).result is Failure,
    decreases results.len(),
{
    reveal(Seq::filter);
    if results.len() > 0 {
        let before = results.drop_last();
        one_failure_fails_the_run(before);
        if failed(before).len() > 0 {
            let i = choose|i: int| 0 <= i < before.len() && (#[trigger] before[i]).result is Failure;
            assert(results[i] == before[i]);
        } else {
            assert forall|i: int| 0 <= i < before.len() implies !((
            #[trigger] results[i]).result is Failure) by {
                assert(before[i] == results[i]);
            }
        }
        assert(results[results.len() - 1] == results.last());
    }
}

/// How the run ends does not depend on the order in which the tests end.
pub proof fn order_does_not_matter<S, B, P>(
    results: Seq<TestResult<S, B, P>>,
    reordered: Seq<TestResult<S, B, P>>,
)
    requires
        results.to_multiset() == reordered.to_multiset(),
    ensures
        failed(results).len() > 0 <==> failed(reordered).len() > 0,
{
    one_failure_fails_the_run(results);
    one_failure_fails_the_run(reordered);
    results.to_multiset_ensures();
    reordered.to_multiset_ensures();
    if failed(results).len() > 0 {
        let i = choose|i: int| 0 <= i < results.len() && (#[trigger] results[i]).result is Failure;
        assert(results.contains(results[i]));
        assert(results.to_multiset().count(results[i]) > 0);
        assert(reordered.contains(results[i]));
    }
    if failed(reordered).len() > 0 {
        let i = choose|i: int|
            0 <= i < reordered.len() && (#[trigger] reordered[i]).result is Failure;
        assert(reordered.contains(reordered[i]));
        assert(reordered.to_multiset().count(reordered[i]) > 0);
        assert(results.contains(reordered[i]));
    }
}

/// How a test itself ended.
#[derive(Debug)]
pub enum TestOutcome<B> {
    Passed,
    /// The test returned an error.
    Failed(B),
    /// The test panicked, with this text if it gave one.
    Panicked(Option<String>),
}

/// How far a test has come.
#[derive(Debug)]
pub enum TestStage<B> {
    CreatingScratch,
    StartingRegistry,
    Running,
    /// The test has failed, and its scratch space is to be kept.
    LeavingAssert { text: String },
    /// The test has returned an error, and its scratch space is to be kept.
    LeavingFailure { source: B },
    ShuttingDown,
    Finished,
}

/// What came of the last action.
#[derive(Debug)]
pub enum TestEvent<S, B, P> {
    ScratchCreated(Result<ScratchSpace, S>),
    RegistryStarted(Result<(), B>),
    Ran(TestOutcome<B>),
    ScratchLeft(P),
    RegistryShutDown(Result<(), B>),
}

/// What is to be done next.
#[derive(Debug)]
pub enum TestAction<S, B, P> {
    CreateScratch,
    /// Start the registry with its files at the path, and let it ask for the
    /// user name and the password if they are given.
    StartRegistry { path: ScratchPath, login: Option<(&'static str, &'static str)> },
    Run,
    /// Keep the scratch space, which is removed otherwise.
    LeaveScratch,
    ShutDownRegistry,
    Finish(Result<(), TestError<S, B, P>>),
}

/// The text that a panic gave, or the one that stands for it if it gave none.
pub open spec fn panic_text(text: Option<String>) -> Seq<char> {
    match text {
        Some(text) => text@,
        None => "Unknown error"@,
    }
}

impl<B> TestStage<B> {
    /// Whether the event can come of what was asked for last.
    pub open spec fn expects<S, P>(self, event: TestEvent<S, B, P>) -> bool {
        match self {
            TestStage::CreatingScratch => event is ScratchCreated,
            TestStage::StartingRegistry => event is RegistryStarted,
            TestStage::Running => event is Ran,
            TestStage::LeavingAssert { .. } | TestStage::LeavingFailure { .. } => event
                is ScratchLeft,
            TestStage::ShuttingDown => event is RegistryShutDown,
            TestStage::Finished => false,
        }
    }

    /// Whether the stage is the one after this stage and the event: whatever
    /// fails before or after the test ends it at once, and a test that fails
    /// leaves its scratch space.
    pub open spec fn moves_to<S, P>(self, event: TestEvent<S, B, P>, stage: TestStage<B>) -> bool {
        match event {
            TestEvent::ScratchCreated(Ok(_)) => stage is StartingRegistry,
            TestEvent::RegistryStarted(Ok(_)) => stage is Running,
            TestEvent::Ran(TestOutcome::Passed) => stage is ShuttingDown,
            TestEvent::Ran(TestOutcome::Failed(source)) => stage == (TestStage::LeavingFailure {
                source,
            }),
            TestEvent::Ran(TestOutcome::Panicked(given)) => stage matches TestStage::LeavingAssert {
                text,
            } && text@ == panic_text(given),
            _ => stage is Finished,
        }
    }

    /// Whether the action is what is to be done for the test after this stage
    /// and the event.
    pub open spec fn asks_for<S, P>(
        self,
        test: ConformanceTest,
        event: TestEvent<S, B, P>,
        action: TestAction<S, B, P>,
    ) -> bool {
        match event {
            TestEvent::ScratchCreated(Ok(_)) => {
                &&& action matches TestAction::StartRegistry { path, login }
                &&& path.deep_view() == registry_parts()
                &&& login.deep_view() == test.login()
            },
            TestEvent::ScratchCreated(Err(source)) => action == TestAction::<S, B, P>::Finish(
                Err(TestError::Scratch { source }),
            ),
            TestEvent::RegistryStarted(Ok(_)) => action is Run,
            TestEvent::RegistryStarted(Err(source)) => action == TestAction::<S, B, P>::Finish(
                Err(TestError::RegistryStart { source }),
            ),
            TestEvent::Ran(TestOutcome::Passed) => action is ShutDownRegistry,
            TestEvent::Ran(_) => action is LeaveScratch,
            TestEvent::ScratchLeft(scratch_space) => match self {
                TestStage::LeavingAssert { text } => action == TestAction::<S, B, P>::Finish(
                    Err(TestError::Assert { text, scratch_space }),
                ),
                TestStage::LeavingFailure { source } => action == TestAction::<S, B, P>::Finish(
                    Err(TestError::Failure { source, scratch_space }),
                ),
                _ => false,
            },
            TestEvent::RegistryShutDown(Ok(_)) => action == TestAction::<S, B, P>::Finish(Ok(())),
            TestEvent::RegistryShutDown(Err(source)) => action == TestAction::<S, B, P>::Finish(
                Err(TestError::RegistryShutdown { source }),
            ),
        }
    }

    /// Starts a test.
    pub fn start<S, P>() -> (begun: (TestStage<B>, TestAction<S, B, P>))
        ensures
            begun.0 is CreatingScratch,
            begun.1 is CreateScratch,
    {
        (TestStage::CreatingScratch, TestAction::CreateScratch)
    }

    /// Goes on with the test after an event.
    pub fn next<S, P>(self, test: ConformanceTest, event: TestEvent<S, B, P>) -> (next: (
        TestStage<B>,
        TestAction<S, B, P>,
    ))
        requires
            self.expects(event),
        ensures
            self.moves_to(event, next.0),
            self.asks_for(test, event, next.1),
    {
        match event {
            TestEvent::ScratchCreated(Ok(scratch)) => {
                let path = scratch.registry().clone();
                let action = TestAction::StartRegistry { path, login: test.setup() };
                (TestStage::StartingRegistry, action)
            },
            TestEvent::ScratchCreated(Err(source)) => Self::finish(
                Err(TestError::Scratch { source }),
            ),
            TestEvent::RegistryStarted(Ok(())) => (TestStage::Running, TestAction::Run),
            TestEvent::RegistryStarted(Err(source)) => Self::finish(
                Err(TestError::RegistryStart { source }),
            ),
            TestEvent::Ran(TestOutcome::Passed) => (
                TestStage::ShuttingDown,
                TestAction::ShutDownRegistry,
            ),
            TestEvent::Ran(TestOutcome::Failed(source)) => (
                TestStage::LeavingFailure { source },
                TestAction::LeaveScratch,
            ),
            TestEvent::Ran(TestOutcome::Panicked(given)) => {
                let text = match given {
                    Some(text) => text,
                    None => "Unknown error".to_owned(),
                };
                (TestStage::LeavingAssert { text }, TestAction::LeaveScratch)
            },
            TestEvent::ScratchLeft(scratch_space) => match self {
                TestStage::LeavingFailure { source } => Self::finish(
                    Err(TestError::Failure { source, scratch_space }),
                ),
                TestStage::LeavingAssert { text } => Self::finish(
                    Err(TestError::Assert { text, scratch_space }),
                ),
                _ => Self::finish(Ok(())),
            },
            TestEvent::RegistryShutDown(Ok(())) => Self::finish(Ok(())),
            TestEvent::RegistryShutDown(Err(source)) => Self::finish(
                Err(TestError::RegistryShutdown { source }),
            ),
        }
    }

    fn finish<S, P>(result: Result<(), TestError<S, B, P>>) -> (next: (
        TestStage<B>,
        TestAction<S, B, P>,
    ))
        ensures
            next.0 is Finished,
            next.1 == TestAction::<S, B, P>::Finish(result),
    {
        (TestStage::Finished, TestAction::Finish(result))
    }
}

impl<S, B, P> TestError<S, B, P> {
    /// What the error says of itself.
    pub open spec fn wording(self) -> Seq<char> {
        match self {
            TestError::Scratch { .. } => "Could not create the registry scratch space"@,
            TestError::RegistryStart { .. } => "Could not start the registry"@,
            TestError::Assert { text, .. } => "The test failed the assertion: "@ + text@,
            TestError::Failure { .. } => "The test returned an error"@,
            TestError::RegistryShutdown { .. } => "Could not shut down the registry"@,
        }
    }

    /// What the error says of itself.
    pub fn message(&self) -> (text: String)
        ensures
            text@ == self.wording(),
    {
        match self {
            TestError::Scratch { .. } => "Could not create the registry scratch space".to_owned(),
            TestError::RegistryStart { .. } => "Could not start the registry".to_owned(),
            TestError::Assert { text, .. } => "The test failed the assertion: ".to_owned().concat(
                text.as_str(),
            ),
            TestError::Failure { .. } => "The test returned an error".to_owned(),
            TestError::RegistryShutdown { .. } => "Could not shut down the registry".to_owned(),
        }
    }
}

/// Whether a test went through these stages as these events came.
pub open spec fn is_course<S, B, P>(
    stages: Seq<TestStage<B>>,
    events: Seq<TestEvent<S, B, P>>,
) -> bool {
    &&& stages.len() == events.len() + 1
    &&& stages[0] is CreatingScratch
    &&& forall|i: int|
        0 <= i < events.len() ==> stages[i].expects(#[trigger] events[i]) && stages[i].moves_to(
            events[i],
            stages[i + 1],
        )
}

/// Whether a scratch space was made and a registry was started in it.
pub open spec fn was_set_up<S, B, P>(events: Seq<TestEvent<S, B, P>>) -> bool {
    &&& events.len() >= 2
    &&& events[0] matches TestEvent::ScratchCreated(created)
    &&& created is Ok
    &&& events[1] matches TestEvent::RegistryStarted(started)
    &&& started is Ok
}

/// A test takes no more than four events. Its registry is shut down if and only
/// if the test has passed, and its scratch space is left if and only if the
/// test itself has failed.
pub proof fn course_of_a_test<S, B, P>(
    stages: Seq<TestStage<B>>,
    events: Seq<TestEvent<S, B, P>>,
)
    requires
        is_course(stages, events),
    ensures
        events.len() <= 4,
        stages.last() is ShuttingDown <==> {
            &&& events.len() == 3
            &&& was_set_up(events)
            &&& events[2] == TestEvent::<S, B, P>::Ran(TestOutcome::Passed)
        },
        stages.last() is LeavingAssert || stages.last() is LeavingFailure <==> {
            &&& events.len() == 3
            &&& was_set_up(events)
            &&& events[2] != TestEvent::<S, B, P>::Ran(TestOutcome::Passed)
        },
{
    if events.len() > 0 {
        assert(stages[0].expects(events[0]));
    }
    if events.len() > 1 {
        assert(stages[1].expects(events[1]));
    }
    if events.len() > 2 {
        assert(stages[2].expects(events[2]));
    }
    if events.len() > 3 {
        assert(stages[3].expects(events[3]));
    }
    if events.len() > 4 {
        assert(stages[4].expects(events[4]));
    }
}

} // verus!
