use registry_conformance::{
    CommandError, ConformanceTest, RawOutput, ScenarioAction, ScenarioError, ScenarioEvent,
    ScenarioRun, ScratchAction, ScratchSpace, Step,
};

type Event = ScenarioEvent<&'static str, u8>;
type Action = ScenarioAction<&'static str, u8>;

fn space() -> ScratchSpace {
    let (mut stage, _) = ScratchSpace::new::<()>();
    loop {
        let (next, action) = stage.next::<()>(Ok(()));
        if let ScratchAction::Finish(result) = action {
            return result.unwrap();
        }
        stage = next;
    }
}

fn output(success: bool) -> RawOutput {
    RawOutput { success, stdout: b"o".to_vec(), stderr: b"e".to_vec() }
}

/// Answers every step but one as it should be, and that one with the event.
fn carry_out(test: ConformanceTest, odd: usize, event: Event) -> (usize, Action) {
    let space = space();
    let url = "http://there";
    let (mut run, mut action) = ScenarioRun::start(test, &space, "target");
    let mut event = Some(event);
    let mut position = 0;
    loop {
        let ScenarioAction::Perform(step) = action else {
            assert!(run.is_finished());
            return (position, action);
        };
        assert!(!run.is_finished());
        let good = match &step {
            Step::Create(krate) => {
                if let Some(config) = krate.config() {
                    assert_eq!(config.registries.get("mine").unwrap().index, url);
                }
                ScenarioEvent::Done
            }
            Step::Publish(_) => ScenarioEvent::Done,
            Step::AskUrl => ScenarioEvent::Url(url.to_owned()),
            Step::Execute(_, expectation) => {
                let success = *expectation == registry_conformance::Expectation::Success;
                ScenarioEvent::Executed(Ok(output(success)))
            }
            Step::CheckDownloads(count) => ScenarioEvent::Downloaded(*count),
        };
        let answer = if position == odd { event.take().unwrap() } else { good };
        (run, action) = run.next(&space, answer);
        position += 1;
    }
}

#[test]
fn every_test_can_pass() {
    for test in ConformanceTest::all() {
        let (steps, action) = carry_out(test, usize::MAX, ScenarioEvent::Done);
        assert_eq!(steps, test.steps(&space(), "target", "").len());
        assert!(matches!(action, ScenarioAction::Succeed));
    }
}

#[test]
fn a_step_that_cannot_be_done_ends_the_test() {
    let test = ConformanceTest::ConflictingLinks;
    for position in [1, 2, 3, 4, 5, 7] {
        let (steps, action) = carry_out(test, position, ScenarioEvent::Failed("disk"));
        assert_eq!(steps, position + 1);
        assert!(matches!(action, ScenarioAction::Fail(ScenarioError::Step("disk"))));
    }
}

#[test]
fn a_command_must_end_as_expected() {
    let event = ScenarioEvent::Executed(Ok(output(false)));
    let (steps, action) = carry_out(ConformanceTest::MultipleVersions, 6, event);
    assert_eq!(steps, 7);
    assert!(matches!(
        action,
        ScenarioAction::Fail(ScenarioError::Command(CommandError::ErrorExit { stdout, stderr }))
            if stdout == "o" && stderr == "e"
    ));
    let event = ScenarioEvent::Executed(Ok(output(true)));
    let (_, action) = carry_out(ConformanceTest::ConflictingLinks, 6, event);
    assert!(matches!(
        action,
        ScenarioAction::Fail(ScenarioError::Command(CommandError::SuccessExit { stdout, stderr }))
            if stdout == "o" && stderr == "e"
    ));
    let (_, action) = carry_out(
        ConformanceTest::ConflictingLinks,
        6,
        ScenarioEvent::Executed(Err(2)),
    );
    assert!(matches!(
        action,
        ScenarioAction::Fail(ScenarioError::Command(CommandError::Output { source: 2 }))
    ));
}

#[test]
fn a_wrong_number_of_downloads_is_a_panic() {
    let test = ConformanceTest::BuildOnlyDependency;
    let most = usize::MAX.to_string();
    for (actual, shown) in [(0, "0"), (1, "1"), (10, "10"), (usize::MAX, most.as_str())] {
        let (steps, action) = carry_out(test, 7, ScenarioEvent::Downloaded(actual));
        assert_eq!(steps, 8);
        let ScenarioAction::Panic(text) = action else {
            panic!("the count is wrong");
        };
        assert_eq!(text, format!("Should have downloaded 2 crates, but there were {shown}"));
    }
}
