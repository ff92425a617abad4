//! How a conformance test is carried out, step by step.
use vstd::prelude::*;
use vstd::string::*;

use crate::command::{expect_failure, expect_success, CommandError, Expectation, RawOutput};
#[allow(unused_imports)]
use crate::command::is_shown;
use crate::conformance_tests::ConformanceTest;
use crate::scratch_space::ScratchSpace;
use crate::steps::Step;
#[allow(unused_imports)]
use crate::steps::StepModel;
use crate::text::decimal;
#[allow(unused_imports)]
use crate::text::decimal_digits;

verus! {

/// What came of the last step.
#[derive(Debug)]
pub enum ScenarioEvent<E, I> {
    /// The crate is written, or published.
    Done,
    /// The registry's URL.
    Url(String),
    /// The command ended, or could not be run.
    Executed(Result<RawOutput, I>),
    /// So many packages were downloaded.
    Downloaded(usize),
    /// The step could not be done.
    Failed(E),
}

/// Why a conformance test returned an error.
#[derive(Debug)]
pub enum ScenarioError<E, I> {
    /// A step could not be done.
    Step(E),
    /// A command did not end as expected.
    Command(CommandError<I>),
}

/// What is to be done next.
#[derive(Debug)]
pub enum ScenarioAction<E, I> {
    Perform(Step),
    /// The test has passed.
    Succeed,
    /// The test returns an error.
    Fail(ScenarioError<E, I>),
    /// The test panics with the text.
    Panic(String),
}

impl StepModel {
    /// Whether the event can come of the step.
    pub open spec fn accepts<E, I>(self, event: ScenarioEvent<E, I>) -> bool {
        match self {
            StepModel::Create(_) | StepModel::Publish(_) => event is Done || event is Failed,
            StepModel::AskUrl => event is Url,
            StepModel::Execute(_, _) => event is Executed,
            StepModel::CheckDownloads(_) => event is Downloaded || event is Failed,
        }
    }

    /// Whether the step went as it should.
    pub open spec fn passes<E, I>(self, event: ScenarioEvent<E, I>) -> bool {
        match event {
            ScenarioEvent::Done | ScenarioEvent::Url(_) => true,
            ScenarioEvent::Executed(Ok(output)) => self matches StepModel::Execute(_, expectation)
                && output.success == (expectation is Success),
            ScenarioEvent::Downloaded(count) => self == StepModel::CheckDownloads(count),
            _ => false,
        }
    }
}

/// What is said when the number of downloaded packages is wrong.
pub open spec fn wrong_count(expected: usize, actual: usize) -> Seq<char> {
    "Should have downloaded "@ + decimal_digits(expected as nat) + " crates, but there were "@
        + decimal_digits(actual as nat)
}

impl<E, I> ScenarioAction<E, I> {
    /// Whether the action ends the test as it is to end when the step has not
    /// passed.
    pub open spec fn rejects(self, step: StepModel, event: ScenarioEvent<E, I>) -> bool {
        match event {
            ScenarioEvent::Failed(source) => self == ScenarioAction::<E, I>::Fail(
                ScenarioError::Step(source),
            ),
            ScenarioEvent::Executed(Err(cause)) => self == ScenarioAction::<E, I>::Fail(
                ScenarioError::Command(CommandError::Output { source: cause }),
            ),
            ScenarioEvent::Executed(Ok(output)) => {
                &&& self matches ScenarioAction::Fail(ScenarioError::Command(error))
                &&& if output.success {
                    &&& error matches CommandError::SuccessExit { stdout, stderr }
                    &&& is_shown(stdout@, output.stdout@)
                    &&& is_shown(stderr@, output.stderr@)
                } else {
                    &&& error matches CommandError::ErrorExit { stdout, stderr }
                    &&& is_shown(stdout@, output.stdout@)
                    &&& is_shown(stderr@, output.stderr@)
                }
            },
            ScenarioEvent::Downloaded(actual) => {
                &&& step matches StepModel::CheckDownloads(expected)
                &&& self matches ScenarioAction::Panic(text)
                &&& text@ == wrong_count(expected, actual)
            },
            _ => false,
        }
    }
}

/// What the step that was handed out last asks for.
#[derive(Debug, Clone, Copy, PartialEq, Eq, Structural)]
enum Awaited {
    Completion,
    Url,
    Command(Expectation),
    Downloads(usize),
}

/// A conformance test while it is carried out.
#[derive(Debug)]
pub struct ScenarioRun {
    test: ConformanceTest,
    current_target: String,
    url: String,
    position: usize,
    /// Nothing once the test has ended.
    awaited: Option<Awaited>,
    remaining: Vec<Step>,
}

spec fn awaits(step: StepModel) -> Awaited {
    match step {
        StepModel::Create(_) | StepModel::Publish(_) => Awaited::Completion,
        StepModel::AskUrl => Awaited::Url,
        StepModel::Execute(_, expectation) => Awaited::Command(expectation),
        StepModel::CheckDownloads(count) => Awaited::Downloads(count),
    }
}

fn awaited_by(step: &Step) -> (awaited: Awaited)
    ensures
        awaited == awaits(step.deep_view()),
{
    match step {
        Step::Create(_) => Awaited::Completion,
        Step::AskUrl => Awaited::Url,
        Step::Publish(_) => Awaited::Completion,
        Step::Execute(_, expectation) => Awaited::Command(*expectation),
        Step::CheckDownloads(count) => Awaited::Downloads(*count),
    }
}

impl ScenarioRun {
    /// The test that is carried out.
    pub closed spec fn test(self) -> ConformanceTest {
        self.test
    }

    /// The target that it is carried out on.
    pub closed spec fn target(self) -> Seq<char> {
        self.current_target@
    }

    /// The URL that the registry has named, nothing before it was asked.
    pub closed spec fn url(self) -> Seq<char> {
        self.url@
    }

    /// How many steps are done.
    pub closed spec fn position(self) -> nat {
        self.position as nat
    }

    /// The steps of the test.
    pub open spec fn script(self) -> Seq<StepModel> {
        self.test().script(self.target(), self.url())
    }

    /// The step that was handed out last.
    pub open spec fn current(self) -> StepModel {
        self.script()[self.position() as int]
    }

    /// Whether `next` is this run after the event.
    pub open spec fn leads_to<E, I>(self, event: ScenarioEvent<E, I>, next: ScenarioRun) -> bool {
        &&& next.test() == self.test()
        &&& next.target() == self.target()
        &&& next.url() == match event {
            ScenarioEvent::Url(url) => url@,
            _ => self.url(),
        }
        &&& next.position() == if self.current().passes(event) {
            self.position() + 1
        } else {
            next.script().len()
        }
    }

    #[verifier::type_invariant]
    spec fn on_script(self) -> bool {
        &&& self.position <= self.script().len()
        &&& self.position == self.script().len() <==> self.awaited is None
        &&& self.awaited is Some ==> {
            &&& self.awaited == Some(awaits(self.current()))
            &&& self.remaining.deep_view() == self.script().skip(self.position + 1)
        }
    }

    /// Starts a test.
    pub fn start<E, I>(
        test: ConformanceTest,
        scratch: &ScratchSpace,
        current_target: &str,
    ) -> (begun: (ScenarioRun, ScenarioAction<E, I>))
        ensures
            begun.0.test() == test,
            begun.0.target() == current_target@,
            begun.0.url() == Seq::<char>::empty(),
            begun.0.position() == 0,
            begun.1 matches ScenarioAction::Perform(step) && step.deep_view()
                == begun.0.current(),
    {
        let mut remaining = test.steps(scratch, current_target, "");
        proof {
            reveal_strlit("");
            assert(""@ =~= Seq::<char>::empty());
            assert(remaining.deep_view().len() == remaining@.len());
            script_is_never_empty(test, current_target@, seq![]);
        }
        let ghost script = remaining.deep_view();
        let step = remaining.remove(0);
        assert(remaining.deep_view() =~= script.skip(1));
        let run = ScenarioRun {
            test,
            current_target: current_target.to_owned(),
            url: String::new(),
            position: 0,
            awaited: Some(awaited_by(&step)),
            remaining,
        };
        (run, ScenarioAction::Perform(step))
    }

    /// Whether the test has ended.
    pub fn is_finished(&self) -> (finished: bool)
        ensures
            finished == (self.position() >= self.script().len()),
    {
        proof {
            use_type_invariant(self);
        }
        self.awaited.is_none()
    }

    /// Goes on after an event.
    pub fn next<E, I>(self, scratch: &ScratchSpace, event: ScenarioEvent<E, I>) -> (next: (
        ScenarioRun,
        ScenarioAction<E, I>,
    ))
        requires
            self.position() < self.script().len(),
            self.current().accepts(event),
        ensures
            self.leads_to(event, next.0),
            next.0.test() == self.test(),
            next.0.target() == self.target(),
            event matches ScenarioEvent::Url(url) ==> next.0.url() == url@,
            event !is Url ==> next.0.url() == self.url(),
            self.current().passes(event) ==> {
                &&& next.0.position() < next.0.script().len() ==> (
                next.1 matches ScenarioAction::Perform(step) && step.deep_view()
                    == next.0.current())
                &&& next.0.position() >= next.0.script().len() ==> next.1 is Succeed
            },
            !self.current().passes(event) ==> next.1.rejects(self.current(), event),
            self.current() matches StepModel::CheckDownloads(expected) ==> (
            event matches ScenarioEvent::Downloaded(actual) ==> (next.1 is Panic <==> expected
                != actual)),
            self.current() matches StepModel::Execute(_, expectation) ==> (
            event matches ScenarioEvent::Executed(Ok(output)) ==> (next.1 is Fail
                <==> output.success != (expectation is Success))),
            event is Failed || (event is Executed && event->Executed_0 is Err) ==> next.1 is Fail,
            next.1 is Panic ==> event is Downloaded,
            next.1 is Succeed ==> next.0.position() == self.position() + 1
                && next.0.position() == next.0.script().len(),
            next.1 matches ScenarioAction::Perform(step) ==> next.0.position() == self.position()
                + 1 && step.deep_view() == next.0.script()[self.position() as int + 1],
    {
        proof {
            use_type_invariant(&self);
        }
        let awaited = self.awaited;
        match event {
            ScenarioEvent::Done => self.advance(),
            ScenarioEvent::Url(url) => {
                let run = self.restart(scratch, url);
                run.advance()
            },
            ScenarioEvent::Failed(source) => {
                (self.end(), ScenarioAction::Fail(ScenarioError::Step(source)))
            },
            ScenarioEvent::Executed(outcome) => {
                let result = match awaited {
                    Some(Awaited::Command(Expectation::Failure)) => expect_failure(outcome),
                    _ => expect_success(outcome),
                };
                match result {
                    Ok(_) => self.advance(),
                    Err(error) => (
                        self.end(),
                        ScenarioAction::Fail(ScenarioError::Command(error)),
                    ),
                }
            },
            ScenarioEvent::Downloaded(actual) => {
                let expected: usize = match awaited {
                    Some(Awaited::Downloads(expected)) => expected,
                    _ => 0,
                };
                if expected == actual {
                    self.advance()
                } else {
                    let text = "Should have downloaded ".to_owned().concat(
                        decimal(expected).as_str(),
                    ).concat(" crates, but there were ").concat(decimal(actual).as_str());
                    (self.end(), ScenarioAction::Panic(text))
                }
            },
        }
    }

    /// The same test at the same position, with the steps for the URL.
    fn restart(self, scratch: &ScratchSpace, url: String) -> (run: ScenarioRun)
        requires
            self.position() < self.script().len(),
        ensures
            run.test() == self.test(),
            run.target() == self.target(),
            run.url() == url@,
            run.position() == self.position(),
            run.script().len() == self.script().len(),
    {
        proof {
            use_type_invariant(&self);
            url_leaves_the_kinds_of_steps(self.test, self.target(), self.url@, url@);
        }
        let mut steps = self.test.steps(scratch, self.current_target.as_str(), url.as_str());
        let ghost script = steps.deep_view();
        assert(script.len() == steps@.len());
        let awaited = awaited_by(&steps[self.position]);
        assert(script[self.position as int] == steps@[self.position as int].deep_view());
        let remaining = steps.split_off(self.position + 1);
        assert(remaining.deep_view() =~= script.skip(self.position + 1));
        ScenarioRun {
            test: self.test,
            current_target: self.current_target,
            url,
            position: self.position,
            awaited: Some(awaited),
            remaining,
        }
    }

    /// Goes on to the next step.
    fn advance<E, I>(self) -> (next: (ScenarioRun, ScenarioAction<E, I>))
        requires
            self.position() < self.script().len(),
        ensures
            next.0.test() == self.test(),
            next.0.target() == self.target(),
            next.0.url() == self.url(),
            next.0.position() == self.position() + 1,
            next.0.position() < self.script().len() ==> (next.1 matches ScenarioAction::Perform(
                step,
            ) && step.deep_view() == next.0.current()),
            next.0.position() >= self.script().len() ==> next.1 is Succeed,
    {
        proof {
            use_type_invariant(&self);
            assert(self.remaining.deep_view().len() == self.remaining@.len());
        }
        let ghost script = self.script();
        let position = self.position;
        let mut remaining = self.remaining;
        if remaining.len() == 0 {
            let run = ScenarioRun {
                test: self.test,
                current_target: self.current_target,
                url: self.url,
                position: position + 1,
                awaited: None,
                remaining,
            };
            (run, ScenarioAction::Succeed)
        } else {
            let ghost before = remaining.deep_view();
            let step = remaining.remove(0);
            assert(before[0] == step.deep_view());
            assert(remaining.deep_view() =~= before.skip(1));
            assert(before.skip(1) =~= script.skip(position + 2));
            let run = ScenarioRun {
                test: self.test,
                current_target: self.current_target,
                url: self.url,
                position: position + 1,
                awaited: Some(awaited_by(&step)),
                remaining,
            };
            (run, ScenarioAction::Perform(step))
        }
    }

    /// Leaves out all steps that are left.
    fn end(self) -> (run: ScenarioRun)
        requires
            self.position() < self.script().len(),
        ensures
            run.test() == self.test(),
            run.target() == self.target(),
            run.url() == self.url(),
            run.position() == self.script().len(),
    {
        proof {
            use_type_invariant(&self);
            assert(self.remaining.deep_view().len() == self.remaining@.len());
        }
        let position: usize = self.position + 1 + self.remaining.len();
        ScenarioRun {
            test: self.test,
            current_target: self.current_target,
            url: self.url,
            position,
            awaited: None,
            remaining: Vec::new(),
        }
    }
}

/// Whether two steps are of the same kind.
pub open spec fn same_kind(a: StepModel, b: StepModel) -> bool {
    &&& a is Create <==> b is Create
    &&& a is AskUrl <==> b is AskUrl
    &&& a is Publish <==> b is Publish
    &&& a is Execute <==> b is Execute
    &&& a is CheckDownloads <==> b is CheckDownloads
}

/// Wherever the registry is, a test takes the same number of steps, and each is
/// of the same kind.
#[verifier::rlimit(40)]
pub proof fn url_leaves_the_kinds_of_steps(
    test: ConformanceTest,
    current_target: Seq<char>,
    url: Seq<char>,
    other: Seq<char>,
)
    ensures
        test.script(current_target, url).len() == test.script(current_target, other).len(),
        forall|i: int|
            0 <= i < test.script(current_target, url).len() ==> same_kind(
                #[trigger] test.script(current_target, url)[i],
                test.script(current_target, other)[i],
            ),
{
}

/// A test has at least one step.
pub proof fn script_is_never_empty(
    test: ConformanceTest,
    current_target: Seq<char>,
    url: Seq<char>,
)
    ensures
        test.script(current_target, url).len() > 0,
{
}

} // verus!
