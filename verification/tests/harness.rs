use registry_conformance::{
    conclude, ConformanceTest, Exit, ScratchAction, ScratchSpace, TestAction, TestError, TestEvent,
    TestOutcome, TestResult, TestResultKind, TestStage, CONCURRENT_TESTS,
};

type Failed = TestError<&'static str, &'static str, u8>;
type Event = TestEvent<&'static str, &'static str, u8>;
type Action = TestAction<&'static str, &'static str, u8>;
type Outcome = TestResult<&'static str, &'static str, u8>;

fn space() -> ScratchSpace {
    let (mut stage, _) = ScratchSpace::new::<()>();
    loop {
        let (next, action) = stage.next::<()>(Ok(()));
        if let ScratchAction::Finish(result) = action {
            return result.unwrap();
        }
        stage = next;
    }
}

fn last(test: ConformanceTest, events: Vec<Event>) -> Action {
    let (mut stage, mut action) = TestStage::start();
    for event in events {
        (stage, action) = stage.next(test, event);
    }
    action
}

fn run(events: Vec<Event>) -> Action {
    last(ConformanceTest::MultipleVersions, events)
}

fn set_up() -> Vec<Event> {
    vec![TestEvent::ScratchCreated(Ok(space())), TestEvent::RegistryStarted(Ok(()))]
}

fn result(events: Vec<Event>) -> Result<(), Failed> {
    match run(events) {
        TestAction::Finish(result) => result,
        other => panic!("unexpected: {other:?}"),
    }
}

#[test]
fn a_test_that_passes() {
    assert_eq!(CONCURRENT_TESTS, 4);
    assert!(matches!(run(vec![]), TestAction::CreateScratch));
    let mut events = set_up();
    events.truncate(1);
    assert!(matches!(
        run(events),
        TestAction::StartRegistry { path, login: None } if path.parts == ["registry"]
    ));
    assert!(matches!(run(set_up()), TestAction::Run));
    let mut events = set_up();
    events.push(TestEvent::Ran(TestOutcome::Passed));
    assert!(matches!(run(events), TestAction::ShutDownRegistry));
    let mut events = set_up();
    events.push(TestEvent::Ran(TestOutcome::Passed));
    events.push(TestEvent::RegistryShutDown(Ok(())));
    assert!(result(events).is_ok());
}

#[test]
fn one_test_has_a_login() {
    for test in ConformanceTest::all() {
        let action = last(test, vec![TestEvent::ScratchCreated(Ok(space()))]);
        let expected = if test == ConformanceTest::AuthorizationRequired {
            Some(("admin", "baseball123"))
        } else {
            None
        };
        assert!(matches!(action, TestAction::StartRegistry { login, .. } if login == expected));
    }
}

#[test]
fn no_scratch_space() {
    let error = result(vec![TestEvent::ScratchCreated(Err("disk"))]).unwrap_err();
    assert!(matches!(error, TestError::Scratch { source: "disk" }));
    assert!(error.scratch_space().is_none());
    assert_eq!(error.message(), "Could not create the registry scratch space");
}

#[test]
fn no_registry() {
    let events = vec![
        TestEvent::ScratchCreated(Ok(space())),
        TestEvent::RegistryStarted(Err("port")),
    ];
    let error = result(events).unwrap_err();
    assert!(matches!(error, TestError::RegistryStart { source: "port" }));
    assert!(error.scratch_space().is_none());
    assert_eq!(error.message(), "Could not start the registry");
}

#[test]
fn a_test_that_returns_an_error() {
    let mut events = set_up();
    events.push(TestEvent::Ran(TestOutcome::Failed("oops")));
    assert!(matches!(run(events), TestAction::LeaveScratch));
    let mut events = set_up();
    events.push(TestEvent::Ran(TestOutcome::Failed("oops")));
    events.push(TestEvent::ScratchLeft(9));
    let error = result(events).unwrap_err();
    assert!(matches!(error, TestError::Failure { source: "oops", scratch_space: 9 }));
    assert_eq!(error.scratch_space(), Some(&9));
    assert_eq!(error.message(), "The test returned an error");
}

#[test]
fn a_test_that_panics() {
    for (given, text) in [(Some("7 != 8".to_owned()), "7 != 8"), (None, "Unknown error")] {
        let mut events = set_up();
        events.push(TestEvent::Ran(TestOutcome::Panicked(given)));
        events.push(TestEvent::ScratchLeft(9));
        let error = result(events).unwrap_err();
        assert_eq!(error.scratch_space(), Some(&9));
        assert_eq!(error.message(), format!("The test failed the assertion: {text}"));
        assert!(matches!(error, TestError::Assert { text: t, scratch_space: 9 } if t == text));
    }
}

#[test]
fn a_registry_that_does_not_stop() {
    let mut events = set_up();
    events.push(TestEvent::Ran(TestOutcome::Passed));
    events.push(TestEvent::RegistryShutDown(Err("stuck")));
    let error = result(events).unwrap_err();
    assert!(matches!(error, TestError::RegistryShutdown { source: "stuck" }));
    assert!(error.scratch_space().is_none());
    assert_eq!(error.message(), "Could not shut down the registry");
}

fn passed() -> Outcome {
    TestResult::new(ConformanceTest::NameLength1, Some(Ok(())))
}

fn skipped() -> Outcome {
    TestResult::new(ConformanceTest::NameLength2, None)
}

fn failed() -> Outcome {
    let error = TestError::Failure { source: "oops", scratch_space: 4 };
    TestResult::new(ConformanceTest::NameLength3, Some(Err(error)))
}

fn unstarted() -> Outcome {
    let error = TestError::RegistryStart { source: "port" };
    TestResult::new(ConformanceTest::NameLength4, Some(Err(error)))
}

#[test]
fn status_lines() {
    assert_eq!(passed().status_line(), "PASS: name_length_1");
    assert_eq!(skipped().status_line(), "SKIP: name_length_2");
    assert_eq!(failed().status_line(), "FAIL: name_length_3");
    let kind: TestResultKind<(), (), ()> = Ok(()).into();
    assert_eq!(kind.code(), "PASS");
}

#[test]
fn no_failure_no_report() {
    let results = vec![passed(), skipped(), passed()];
    let (exit, reports) = conclude(&results);
    assert_eq!(exit, Exit::Success);
    assert!(reports.is_empty());
}

#[test]
fn failures_are_reported_in_order() {
    for results in [
        vec![unstarted(), passed(), failed(), skipped()],
        vec![skipped(), unstarted(), failed(), passed()],
    ] {
        let (exit, reports) = conclude(&results);
        assert_eq!(exit, Exit::Failure);
        assert_eq!(reports.len(), 2);
        assert_eq!(reports[0].heading, "=== name_length_4");
        assert_eq!(reports[0].artifacts, None);
        assert_eq!(reports[1].heading, "=== name_length_3");
        assert_eq!(reports[1].artifacts, Some(&4));
        assert_eq!(reports[1].error.message(), "The test returned an error");
    }
}
