//! What holds of how the scratch space, the tests and the whole run turn out.
use vstd::prelude::*;

#[allow(unused_imports)]
use crate::command::{is_shown, CommandError, Expectation, RawOutput};
#[allow(unused_imports)]
use crate::cargo_command::CommandModel;
#[allow(unused_imports)]
use crate::conformance_tests::ConformanceTest;
#[allow(unused_imports)]
use crate::crates::CrateModel;
#[allow(unused_imports)]
use crate::creation::CreatedModel;
#[allow(unused_imports)]
use crate::harness::{
    failed, is_course, panic_text, was_set_up, FailureReport, TestAction, TestError, TestEvent,
    TestOutcome, TestResult, TestResultKind, TestStage,
};
#[allow(unused_imports)]
use crate::scenario_run::{wrong_count, ScenarioAction, ScenarioError, ScenarioEvent};
#[allow(unused_imports)]
use crate::scratch_space::{
    cache_parts, CacheEvent, CacheScan, DownloadedCratesError, ScratchSpaceError, ScratchStage,
};
#[allow(unused_imports)]
use crate::steps::{Step, StepModel};
#[allow(unused_imports)]
use crate::text::{decimal_digits, decimal_reads_back, digits_value};

verus! {

/// A check of the downloads can come to any count, and passes if and only if the
/// count is the expected one, none being expected or some.
pub proof fn downloads_must_agree<E, I>(expected: usize, actual: usize)
    ensures
        StepModel::CheckDownloads(expected).accepts(ScenarioEvent::<E, I>::Downloaded(actual)),
        StepModel::CheckDownloads(expected).passes(ScenarioEvent::<E, I>::Downloaded(actual))
            <==> expected == actual,
{
}

/// A command can end in any way, and passes if and only if it was run and ended
/// as it was to end.
pub proof fn commands_must_end_as_expected<E, I>(
    command: CommandModel,
    expectation: Expectation,
    output: RawOutput,
    cause: I,
)
    ensures
        StepModel::Execute(command, expectation).accepts(
            ScenarioEvent::<E, I>::Executed(Ok(output)),
        ),
        StepModel::Execute(command, expectation).accepts(
            ScenarioEvent::<E, I>::Executed(Err(cause)),
        ),
        expectation is Success ==> (StepModel::Execute(command, expectation).passes(
            ScenarioEvent::<E, I>::Executed(Ok(output)),
        ) <==> output.success),
        expectation is Failure ==> (StepModel::Execute(command, expectation).passes(
            ScenarioEvent::<E, I>::Executed(Ok(output)),
        ) <==> !output.success),
        !StepModel::Execute(command, expectation).passes(
            ScenarioEvent::<E, I>::Executed(Err(cause)),
        ),
{
}

/// Writing and publishing crates and asking for the URL pass when they are done,
/// and whatever cannot be done does not pass.
pub proof fn what_cannot_be_done_does_not_pass<E, I>(
    step: StepModel,
    krate: CrateModel,
    created: CreatedModel,
    url: String,
    source: E,
    count: usize,
)
    ensures
        StepModel::Create(krate).accepts(ScenarioEvent::<E, I>::Done),
        StepModel::Create(krate).accepts(ScenarioEvent::<E, I>::Failed(source)),
        StepModel::Create(krate).passes(ScenarioEvent::<E, I>::Done),
        StepModel::Publish(created).accepts(ScenarioEvent::<E, I>::Done),
        StepModel::Publish(created).accepts(ScenarioEvent::<E, I>::Failed(source)),
        StepModel::Publish(created).passes(ScenarioEvent::<E, I>::Done),
        StepModel::AskUrl.accepts(ScenarioEvent::<E, I>::Url(url)),
        StepModel::AskUrl.passes(ScenarioEvent::<E, I>::Url(url)),
        StepModel::CheckDownloads(count).accepts(ScenarioEvent::<E, I>::Failed(source)),
        !step.passes(ScenarioEvent::<E, I>::Failed(source)),
{
}

/// A step that has not passed ends the test: with a panic that tells both counts
/// if the downloads were wrong, and with an error that holds the cause otherwise.
pub proof fn rejections_tell_why<E, I>(
    action: ScenarioAction<E, I>,
    step: StepModel,
    event: ScenarioEvent<E, I>,
)
    requires
        step.accepts(event),
        !step.passes(event),
        action.rejects(step, event),
    ensures
        action is Panic || action is Fail,
        action is Panic <==> event is Downloaded,
        action matches ScenarioAction::Panic(text) ==> {
            &&& step matches StepModel::CheckDownloads(expected)
            &&& event matches ScenarioEvent::Downloaded(actual)
            &&& expected != actual
            &&& text@ == "Should have downloaded "@ + decimal_digits(expected as nat)
                + " crates, but there were "@ + decimal_digits(actual as nat)
        },
        action matches ScenarioAction::Fail(ScenarioError::Step(source)) ==> event
            == ScenarioEvent::<E, I>::Failed(source),
        event matches ScenarioEvent::Failed(source) ==> action == ScenarioAction::<E, I>::Fail(
            ScenarioError::Step(source),
        ),
        event matches ScenarioEvent::Executed(outcome) ==> {
            &&& action matches ScenarioAction::Fail(ScenarioError::Command(error))
            &&& match error {
                CommandError::Output { source } => outcome == Err::<RawOutput, I>(source),
                CommandError::SuccessExit { stdout, stderr } => outcome is Ok
                    && outcome->Ok_0.success && is_shown(stdout@, outcome->Ok_0.stdout@)
                    && is_shown(stderr@, outcome->Ok_0.stderr@),
                CommandError::ErrorExit { stdout, stderr } => outcome is Ok
                    && !outcome->Ok_0.success && is_shown(stdout@, outcome->Ok_0.stdout@)
                    && is_shown(stderr@, outcome->Ok_0.stderr@),
            }
        },
{
}

/// Different counts are told in different words: both can be read back.
pub proof fn wrong_counts_can_be_read_back(expected: usize, actual: usize)
    ensures
        exists|first: Seq<char>, second: Seq<char>|
            {
                &&& #[trigger] digits_value(first) == expected
                &&& #[trigger] digits_value(second) == actual
                &&& wrong_count(expected, actual) == "Should have downloaded "@ + first
                    + " crates, but there were "@ + second
            },
{
    let first = decimal_digits(expected as nat);
    let second = decimal_digits(actual as nat);
    decimal_reads_back(expected as nat);
    decimal_reads_back(actual as nat);
    assert(digits_value(first) == expected && digits_value(second) == actual);
}

/// A step shows what it is about.
pub proof fn steps_show_everything(step: Step)
    ensures
        match step {
            Step::Create(krate) => step.deep_view() == StepModel::Create(krate.deep_view()),
            Step::AskUrl => step.deep_view() is AskUrl,
            Step::Publish(krate) => step.deep_view() == StepModel::Publish(krate.deep_view()),
            Step::Execute(command, expectation) => step.deep_view() == StepModel::Execute(
                command.deep_view(),
                expectation,
            ),
            Step::CheckDownloads(count) => step.deep_view() == StepModel::CheckDownloads(count),
        },
{
}

/// A scratch space is set up directory by directory, and an error tells which one
/// could not be made, and why.
pub proof fn setups_go_directory_by_directory<E>(
    stage: ScratchStage,
    error: ScratchSpaceError<E>,
    source: E,
)
    ensures
        stage is Root ==> stage.following() is CargoHome && stage.following().directory()
            == seq!["cargo-home"@],
        stage is CargoHome ==> stage.following() is Crates && stage.following().directory()
            == seq!["crates"@],
        stage is Crates ==> stage.following() is Registry && stage.following().directory()
            == seq!["registry"@],
        stage is Registry ==> stage.following() is Finished,
        stage.failed_with(error, source) ==> match error {
            ScratchSpaceError::Root { source: cause } => stage is Root && cause == source,
            ScratchSpaceError::CargoHomeCreate { source: cause, path } => stage is CargoHome
                && cause == source && path.deep_view() == seq!["cargo-home"@],
            ScratchSpaceError::CratesCreate { source: cause, path } => stage is Crates && cause
                == source && path.deep_view() == seq!["crates"@],
            ScratchSpaceError::RegistryCreate { source: cause, path } => stage is Registry && cause
                == source && path.deep_view() == seq!["registry"@],
        },
{
}

/// What can be met when the downloads are counted, whatever the names, and
/// however many packages there are, up to what can be counted.
pub proof fn any_cache_can_be_met<E, N>(scan: CacheScan<N>, event: CacheEvent<E, N>)
    ensures
        (scan is OpeningCache || scan is OpeningRegistry) && (event is Opened || event is Failed)
            ==> scan.expects(event),
        scan is ListingCache && event !is Opened ==> scan.expects(event),
        scan is ListingRegistry && (event is Exhausted || event is Failed) ==> scan.expects(event),
        scan is ListingRegistry && event is Entry && scan->count < usize::MAX ==> scan.expects(
            event,
        ),
{
}

/// The count goes through the cache and then through the registry that was found
/// there, by its own name, and grows by one with every entry. It ends well with
/// nothing where a directory or a registry is not there, and with the number of
/// entries where the registry has no more.
pub proof fn downloads_are_counted_entry_by_entry<E, N>(
    scan: CacheScan<N>,
    event: CacheEvent<E, N>,
)
    requires
        scan.expects(event),
    ensures
        scan is OpeningCache && event is Opened ==> scan.after(event) is ListingCache && scan.after(
            event,
        )->found is None,
        scan is ListingCache && scan->found is None && event is Entry ==> scan.after(event)
            is ListingCache && scan.after(event)->found == Some(event->Entry_0),
        scan is ListingCache && scan->found is Some && event is Exhausted ==> scan.after(event)
            is OpeningRegistry && scan.after(event)->OpeningRegistry_registry == scan->found->0,
        scan is OpeningRegistry && event is Opened ==> scan.after(event) is ListingRegistry
            && scan.after(event)->ListingRegistry_registry == scan->OpeningRegistry_registry
            && scan.after(event)->count == 0,
        scan is ListingRegistry && event is Entry ==> scan.after(event) is ListingRegistry
            && scan.after(event)->ListingRegistry_registry == scan->ListingRegistry_registry
            && scan.after(event)->count == scan->count + 1,
        event is Failed ==> scan.after(event) is Finished,
        scan.total(event) is Some ==> scan.after(event) is Finished,
        scan is OpeningCache || scan is OpeningRegistry ==> (scan.total(event) is Some
            <==> event is Failed && event->not_found),
        scan is ListingCache ==> (scan.total(event) is Some <==> event is Exhausted && scan->found
            is None),
        scan is ListingRegistry ==> (scan.total(event) is Some <==> event is Exhausted),
        scan.total(event) is Some && scan !is ListingRegistry ==> scan.total(event) == Some(0usize),
        scan.total(event) is Some && scan is ListingRegistry ==> scan.total(event) == Some(
            scan->count,
        ),
{
}

/// An error of the count tells which directory could not be opened or listed,
/// which registry it belongs to, and why.
pub proof fn failed_counts_tell_where<E, N>(
    scan: CacheScan<N>,
    error: DownloadedCratesError<E, N>,
    source: E,
)
    requires
        scan.failed_with(error, source),
    ensures
        error.place() == Some(seq!["cargo-home"@, "registry"@, "cache"@]),
        scan is OpeningCache <==> error is OpenCache,
        scan is ListingCache <==> error is EnumerateCache,
        scan is OpeningRegistry <==> error is OpenRegistry,
        scan is ListingRegistry <==> error is EnumerateRegistry,
        scan matches CacheScan::OpeningRegistry { registry } ==> error.entry() == Some(registry),
        scan matches CacheScan::ListingRegistry { registry, .. } ==> error.entry() == Some(
            registry,
        ),
        scan is OpeningCache || scan is ListingCache ==> error.entry() is None,
        match error {
            DownloadedCratesError::OpenCache { source: cause, .. } => cause == source,
            DownloadedCratesError::EnumerateCache { source: cause, .. } => cause == source,
            DownloadedCratesError::OpenRegistry { source: cause, .. } => cause == source,
            DownloadedCratesError::EnumerateRegistry { source: cause, .. } => cause == source,
        },
{
    assert(cache_parts() =~= seq!["cargo-home"@, "registry"@, "cache"@]);
}

/// The errors of the scratch space end with the path that they are about, whatever
/// it is.
pub proof fn scratch_errors_end_with_their_path<E, N>(
    error: ScratchSpaceError<E>,
    other: DownloadedCratesError<E, N>,
    shown: Seq<char>,
)
    ensures
        error is Root <==> error.place() is None,
        error.place() is Some ==> error.wording(shown) == error.wording(seq![]) + shown,
        error.place() is None ==> error.wording(shown) == error.wording(seq![]),
        other.wording(shown) == other.wording(seq![]) + shown,
        match error {
            ScratchSpaceError::Root { .. } => true,
            ScratchSpaceError::CargoHomeCreate { path, .. } => error.place() == Some(
                path.deep_view(),
            ),
            ScratchSpaceError::CratesCreate { path, .. } => error.place() == Some(path.deep_view()),
            ScratchSpaceError::RegistryCreate { path, .. } => error.place() == Some(
                path.deep_view(),
            ),
        },
        match other {
            DownloadedCratesError::OpenCache { path, .. } => other.place() == Some(
                path.deep_view(),
            ),
            DownloadedCratesError::EnumerateCache { path, .. } => other.place() == Some(
                path.deep_view(),
            ),
            DownloadedCratesError::OpenRegistry { path, .. } => other.place() == Some(
                path.deep_view(),
            ),
            DownloadedCratesError::EnumerateRegistry { path, .. } => other.place() == Some(
                path.deep_view(),
            ),
        },
{
    assert(error.place() is None || error.wording(seq![]) + shown =~= error.wording(shown));
    assert(other.wording(seq![]) + shown =~= other.wording(shown));
}

/// Whatever comes of making the scratch space, of starting the registry, of the
/// test itself and of shutting down can be met at its time.
pub proof fn any_outcome_can_be_met<S, B, P>(
    stage: TestStage<B>,
    created: Result<crate::scratch_space::ScratchSpace, S>,
    started: Result<(), B>,
    outcome: TestOutcome<B>,
    place: P,
)
    ensures
        stage is CreatingScratch ==> stage.expects(TestEvent::<S, B, P>::ScratchCreated(created)),
        stage is StartingRegistry ==> stage.expects(TestEvent::<S, B, P>::RegistryStarted(started)),
        stage is Running ==> stage.expects(TestEvent::<S, B, P>::Ran(outcome)),
        stage is LeavingAssert || stage is LeavingFailure ==> stage.expects(
            TestEvent::<S, B, P>::ScratchLeft(place),
        ),
        stage is ShuttingDown ==> stage.expects(TestEvent::<S, B, P>::RegistryShutDown(started)),
{
}

/// A panic is told in the text that it gave.
pub proof fn panics_keep_their_text(given: String)
    ensures
        panic_text(Some(given)) == given@,
        panic_text(None) == "Unknown error"@,
{
}

/// How a test is judged at its end. It passes if and only if everything went well,
/// from the scratch space to the shutting down; otherwise its error tells what
/// went wrong first, and where the scratch space was left if the test itself did.
pub proof fn verdict_of_a_test<S, B, P>(
    test: ConformanceTest,
    stages: Seq<TestStage<B>>,
    events: Seq<TestEvent<S, B, P>>,
    action: TestAction<S, B, P>,
)
    requires
        is_course(stages, events),
        events.len() > 0,
        stages[events.len() - 1].asks_for(test, events.last(), action),
    ensures
        action is Finish <==> stages.last() is Finished,
        action == TestAction::<S, B, P>::Finish(Ok(())) <==> {
            &&& events.len() == 4
            &&& was_set_up(events)
            &&& events[2] == TestEvent::<S, B, P>::Ran(TestOutcome::Passed)
            &&& events[3] is RegistryShutDown
            &&& events[3]->RegistryShutDown_0 is Ok
        },
        events.len() == 1 ==> (match events[0] {
            TestEvent::ScratchCreated(Ok(_)) => {
                &&& action matches TestAction::StartRegistry { path, login }
                &&& path.deep_view() == seq!["registry"@]
                &&& login is Some <==> test is AuthorizationRequired
                &&& login matches Some((username, password)) ==> username@ == "admin"@ && password@
                    == "baseball123"@
            },
            TestEvent::ScratchCreated(Err(source)) => action == TestAction::<S, B, P>::Finish(
                Err(TestError::Scratch { source }),
            ),
            _ => false,
        }),
        events.len() == 2 ==> (match events[1] {
            TestEvent::RegistryStarted(Ok(_)) => action is Run,
            TestEvent::RegistryStarted(Err(source)) => action == TestAction::<S, B, P>::Finish(
                Err(TestError::RegistryStart { source }),
            ),
            _ => false,
        }),
        events.len() == 3 ==> (match events[2] {
            TestEvent::Ran(TestOutcome::Passed) => action is ShutDownRegistry,
            TestEvent::Ran(_) => action is LeaveScratch,
            _ => false,
        }),
        events.len() == 4 ==> (match (events[2], events[3]) {
            (
                TestEvent::Ran(TestOutcome::Passed),
                TestEvent::RegistryShutDown(Ok(_)),
            ) => action == TestAction::<S, B, P>::Finish(Ok(())),
            (
                TestEvent::Ran(TestOutcome::Passed),
                TestEvent::RegistryShutDown(Err(source)),
            ) => action == TestAction::<S, B, P>::Finish(
                Err(TestError::RegistryShutdown { source }),
            ),
            (
                TestEvent::Ran(TestOutcome::Failed(source)),
                TestEvent::ScratchLeft(scratch_space),
            ) => action == TestAction::<S, B, P>::Finish(
                Err(TestError::Failure { source, scratch_space }),
            ),
            (
                TestEvent::Ran(TestOutcome::Panicked(given)),
                TestEvent::ScratchLeft(place),
            ) => {
                &&& action matches TestAction::Finish(Err(TestError::Assert { text, scratch_space }))
                &&& scratch_space == place
                &&& given matches Some(said) ==> text@ == said@
                &&& given is None ==> text@ == "Unknown error"@
            },
            _ => false,
        }),
{
    assert(stages[0].expects(events[0]));
    if events.len() > 1 {
        assert(stages[1].expects(events[1]));
    }
    if events.len() > 2 {
        assert(stages[2].expects(events[2]));
    }
    if events.len() > 3 {
        assert(stages[3].expects(events[3]));
    }
    if events.len() > 4 {
        assert(stages[4].expects(events[4]));
    }
}

/// The failed tests of two runs, one after the other, are those of the first and
/// then those of the second, and a single test is among them if and only if it
/// has failed.
pub proof fn failures_add_up<S, B, P>(
    first: Seq<TestResult<S, B, P>>,
    second: Seq<TestResult<S, B, P>>,
    result: TestResult<S, B, P>,
)
    ensures
        failed(first + second) == failed(first) + failed(second),
        result.result is Failure ==> failed(seq![result]) == seq![result],
        !(result.result is Failure) ==> failed(seq![result]).len() == 0,
    decreases second.len(),
{
    reveal(Seq::filter);
    let one = seq![result];
    assert(one.drop_last() =~= seq![]);
    assert(failed(one.drop_last()) =~= seq![]);
    assert(result.result is Failure ==> failed(one) =~= seq![result]);
    if second.len() == 0 {
        assert(first + second =~= first);
        assert(failed(first) + failed(second) =~= failed(first));
    } else {
        failures_add_up(first, second.drop_last(), result);
        assert((first + second).drop_last() =~= first + second.drop_last());
        assert(failed(first + second) =~= failed(first) + failed(second));
    }
}

/// The report on a failed test names the test, holds its error, and tells where
/// the scratch space was left if and only if the test itself has failed.
pub proof fn reports_are_about_their_test<'a, S, B, P>(
    report: FailureReport<'a, S, B, P>,
    result: TestResult<S, B, P>,
)
    requires
        report.is_about(result),
    ensures
        report.heading@ == "=== "@ + result.name@,
        result.result == TestResultKind::Failure(*report.error),
        match *report.error {
            TestError::Assert { scratch_space, .. } => report.artifacts == Some(&scratch_space),
            TestError::Failure { scratch_space, .. } => report.artifacts == Some(&scratch_space),
            _ => report.artifacts is None,
        },
{
}

/// A test that was run has succeeded, or has failed with its error.
pub proof fn results_come_of_tests<S, B, P>(error: TestError<S, B, P>)
    ensures
        <TestResultKind<S, B, P> as vstd::std_specs::convert::FromSpec<
            Result<(), TestError<S, B, P>>,
        >>::from_spec(Ok(())) is Success,
        <TestResultKind<S, B, P> as vstd::std_specs::convert::FromSpec<
            Result<(), TestError<S, B, P>>,
        >>::from_spec(Err(error)) == TestResultKind::Failure(error),
{
}

/// Every result is reported by its own word, and every error of a test in its own
/// words; a panic's text is told in full.
pub proof fn results_are_worded<S, B, P>(kind: TestResultKind<S, B, P>, error: TestError<S, B, P>)
    ensures
        kind is Success ==> kind.word() == "PASS"@,
        kind is Failure ==> kind.word() == "FAIL"@,
        kind is Skipped ==> kind.word() == "SKIP"@,
        error is Scratch ==> error.wording() == "Could not create the registry scratch space"@,
        error is RegistryStart ==> error.wording() == "Could not start the registry"@,
        error matches TestError::Assert { text, .. } ==> error.wording()
            == "The test failed the assertion: "@ + text@,
        error is Failure ==> error.wording() == "The test returned an error"@,
        error is RegistryShutdown ==> error.wording() == "Could not shut down the registry"@,
        error matches TestError::Assert { scratch_space, .. } ==> error.left_in() == Some(
            scratch_space,
        ),
        error matches TestError::Failure { scratch_space, .. } ==> error.left_in() == Some(
            scratch_space,
        ),
        !(error is Assert) && !(error is Failure) ==> error.left_in() is None,
{
}

} // verus!
