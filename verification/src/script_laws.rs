//! What holds of the steps of every conformance test.
use vstd::prelude::*;

#[allow(unused_imports)]
use crate::cargo_command::{
    basic_token, env_name, sets, token_variable, tokens_are_set_where_given, CallModel, EnvModel,
};
#[allow(unused_imports)]
use crate::cargo_toml::EntryModel;
#[allow(unused_imports)]
use crate::conformance_tests::ConformanceTest;
#[allow(unused_imports)]
use crate::scenario_run::{url_leaves_the_kinds_of_steps, ScenarioEvent, ScenarioRun};
#[allow(unused_imports)]
use crate::steps::StepModel;

verus! {

/// The step at which a test asks the registry for its URL.
pub open spec fn asked_at(test: ConformanceTest) -> int {
    match test {
        ConformanceTest::NameLength1
        | ConformanceTest::NameLength2
        | ConformanceTest::NameLength3
        | ConformanceTest::NameLength4 => 1,
        ConformanceTest::MultipleSiblingDependencies => 4,
        _ => 0,
    }
}

/// A test asks the registry for its URL once.
pub proof fn url_is_asked_once(test: ConformanceTest, current_target: Seq<char>, url: Seq<char>)
    ensures
        0 <= asked_at(test) < test.script(current_target, url).len(),
        forall|i: int|
            0 <= i < test.script(current_target, url).len() ==> (#[trigger] test.script(
                current_target,
                url,
            )[i] is AskUrl <==> i == asked_at(test)),
{
}

/// What a test does before it asks for the URL does not depend on the URL.
pub proof fn url_is_not_used_before_it_is_asked(
    test: ConformanceTest,
    current_target: Seq<char>,
    url: Seq<char>,
    other: Seq<char>,
)
    ensures
        forall|i: int|
            0 <= i <= asked_at(test) ==> #[trigger] test.script(current_target, url)[i]
                == test.script(current_target, other)[i],
{
}

/// Only one test depends on the current target.
pub proof fn target_matters_to_one_test(
    test: ConformanceTest,
    current_target: Seq<char>,
    other: Seq<char>,
    url: Seq<char>,
)
    requires
        test !is PlatformSpecificDependencyUsed,
    ensures
        test.script(current_target, url) == test.script(other, url),
{
}

/// Whether the step publishes what an earlier step has written.
pub open spec fn publishes_written(script: Seq<StepModel>, i: int) -> bool {
    script[i] matches StepModel::Publish(created) ==> exists|j: int|
        0 <= j < i && ((#[trigger] script[j]) matches StepModel::Create(krate) && krate.created()
            == created)
}

/// Nothing is published that was not written before.
pub proof fn crates_are_written_before_they_are_published(
    test: ConformanceTest,
    current_target: Seq<char>,
    url: Seq<char>,
)
    ensures
        forall|i: int|
            0 <= i < test.script(current_target, url).len() ==> #[trigger] publishes_written(
                test.script(current_target, url),
                i,
            ),
{
    let script = test.script(current_target, url);
    assert forall|i: int| 0 <= i < script.len() implies #[trigger] publishes_written(script, i) by {
        if script[i] is Publish {
            assert(i > 0);
            if script[i - 1] is Create {
                assert(script[i - 1]->Create_0.created() == script[i]->Publish_0);
            } else {
                assert(i == 2 && script[0]->Create_0.created() == script[i]->Publish_0);
            }
        }
    }
}

/// Cargo is only ever called on the crate that was written just before.
pub proof fn the_crate_written_last_is_run(
    test: ConformanceTest,
    current_target: Seq<char>,
    url: Seq<char>,
)
    ensures
        forall|i: int|
            #![trigger test.script(current_target, url)[i]]
            0 <= i < test.script(current_target, url).len() && test.script(current_target, url)[i]
                is Execute ==> {
                let script = test.script(current_target, url);
                &&& i > 0
                &&& script[i - 1] matches StepModel::Create(krate)
                &&& script[i]->Execute_0.program == "cargo"@
                &&& script[i]->Execute_0.current_dir == krate.created().directory
                &&& script[i]->Execute_0.args[0] == "run"@
            },
{
}

/// Whether a package of this name and version is published before step `i`.
pub open spec fn published_before(
    script: Seq<StepModel>,
    i: int,
    name: Seq<char>,
    version: Seq<char>,
) -> bool {
    exists|j: int|
        0 <= j < i && ((#[trigger] script[j]) matches StepModel::Publish(created) && created.name
            == name && created.version == version)
}

/// Whether step `i` can rely on the dependency: it is found on crates.io, or in
/// a registry that the crate is told about and to which the package was
/// published before.
pub open spec fn provided(
    script: Seq<StepModel>,
    i: int,
    url: Seq<char>,
    name: Seq<char>,
    entry: EntryModel,
) -> bool {
    entry.registry matches Some(registry) ==> {
        let package = match entry.package {
            Some(package) => package,
            None => name,
        };
        &&& published_before(script, i, package, entry.version)
        &&& script[i] matches StepModel::Create(krate)
        &&& krate.config matches Some(registries)
        &&& registries.contains_key(registry)
        &&& registries[registry].index == url
    }
}

/// Whether step `i` can rely on every dependency of a section.
pub open spec fn all_provided(
    script: Seq<StepModel>,
    i: int,
    url: Seq<char>,
    section: Map<Seq<char>, EntryModel>,
) -> bool {
    forall|name: Seq<char>| #[trigger]
        section.contains_key(name) ==> provided(script, i, url, name, section[name])
}

/// Whether step `i` can rely on every dependency of the crate that it writes.
pub open spec fn crate_provided(script: Seq<StepModel>, i: int, url: Seq<char>) -> bool {
    script[i] matches StepModel::Create(krate) ==> {
        &&& all_provided(script, i, url, krate.manifest.dependencies)
        &&& all_provided(script, i, url, krate.manifest.build_dependencies)
        &&& forall|target: Seq<char>| #[trigger]
            krate.manifest.target.contains_key(target) ==> all_provided(
                script,
                i,
                url,
                krate.manifest.target[target].dependencies,
            )
    }
}

/// When a crate is written, whatever it depends on is there already.
pub proof fn dependencies_are_published_first(
    test: ConformanceTest,
    current_target: Seq<char>,
    url: Seq<char>,
)
    ensures
        forall|i: int|
            0 <= i < test.script(current_target, url).len() ==> #[trigger] crate_provided(
                test.script(current_target, url),
                i,
                url,
            ),
{
    let script = test.script(current_target, url);
    assert forall|i: int| 0 <= i < script.len() implies #[trigger] crate_provided(
        script,
        i,
        url,
    ) by {
        assert(script[1] is Publish || script[1] !is Publish);
        assert(script[2] is Publish || script[2] !is Publish);
        assert(script[3] is Publish || script[3] !is Publish);
        assert(script[4] is Publish || script[4] !is Publish);
    }
}

/// A test gives Cargo a token for the registry if and only if the registry is
/// set up to ask for a login, and the token is made of that login.
pub proof fn logins_are_answered(test: ConformanceTest, current_target: Seq<char>, url: Seq<char>)
    ensures
        forall|i: int|
            #![trigger test.script(current_target, url)[i]]
            0 <= i < test.script(current_target, url).len() && test.script(current_target, url)[i]
                is Execute ==> {
                let env = test.script(current_target, url)[i]->Execute_0.env;
                let variable = token_variable(env_name("mine"@));
                match test.login() {
                    Some((username, password)) => env.contains(
                        (variable, EnvModel::Text(basic_token(username, password))),
                    ),
                    None => !sets(env, variable),
                }
            },
{
    let script = test.script(current_target, url);
    assert forall|i: int|
        #![trigger script[i]]
        0 <= i < script.len() && script[i] is Execute implies {
        let env = script[i]->Execute_0.env;
        let variable = token_variable(env_name("mine"@));
        match test.login() {
            Some((username, password)) => env.contains(
                (variable, EnvModel::Text(basic_token(username, password))),
            ),
            None => !sets(env, variable),
        }
    } by {
        let krate = script[i - 1]->Create_0.created();
        let plain = CallModel::new(krate);
        let call = if test is AuthorizationRequired {
            let login = test.login()->0;
            plain.with_token("mine"@, basic_token(login.0, login.1)).subcommand("run"@)
        } else if test is MinimumVersion {
            plain.use_nightly().enable_msrv_resolver().subcommand("run"@)
        } else {
            plain.subcommand("run"@)
        };
        assert(script[i]->Execute_0 == call.finished());
        tokens_are_set_where_given(call, env_name("mine"@));
    }
}

/// Whether a test was carried out from its start in these stages, as these
/// events came.
pub open spec fn is_carried_out<E, I>(
    runs: Seq<ScenarioRun>,
    events: Seq<ScenarioEvent<E, I>>,
) -> bool {
    &&& runs.len() == events.len() + 1
    &&& runs[0].position() == 0
    &&& forall|i: int|
        0 <= i < events.len() ==> {
            &&& runs[i].position() < runs[i].script().len()
            &&& runs[i].current().accepts(#[trigger] events[i])
            &&& runs[i].leads_to(events[i], runs[i + 1])
        }
}

proof fn lemma_in_step<E, I>(runs: Seq<ScenarioRun>, events: Seq<ScenarioEvent<E, I>>, i: int)
    requires
        is_carried_out(runs, events),
        0 <= i <= events.len(),
    ensures
        runs[i].test() == runs[0].test(),
        runs[i].target() == runs[0].target(),
        i < events.len() ==> runs[i].position() == i,
        forall|j: int|
            0 <= j < i && (j < i - 1 || i < events.len()) ==> runs[j].current().passes(
                #[trigger] events[j],
            ),
    decreases i,
{
    if i > 0 {
        lemma_in_step(runs, events, i - 1);
        assert(runs[i - 1].leads_to(events[i - 1], runs[i]));
        if i < events.len() {
            assert(runs[i].current().accepts(events[i]));
        }
    }
}

proof fn lemma_url_stays<E, I>(
    runs: Seq<ScenarioRun>,
    events: Seq<ScenarioEvent<E, I>>,
    i: int,
    j: int,
)
    requires
        is_carried_out(runs, events),
        asked_at(runs[0].test()) < i <= j <= events.len(),
    ensures
        runs[i].url() == runs[j].url(),
    decreases j - i,
{
    if i < j {
        lemma_url_stays(runs, events, i, j - 1);
        lemma_in_step(runs, events, j - 1);
        let run = runs[j - 1];
        assert(run.current().accepts(events[j - 1]) && run.leads_to(events[j - 1], runs[j]));
        url_is_asked_once(run.test(), run.target(), run.url());
        assert(run.script()[j - 1] !is AskUrl);
    }
}

/// A test is carried out step by step. The steps are those of the script for
/// the URL that the registry has named, each in its turn; every step but the
/// last one went as it should; and the test has ended if and only if the last
/// one did not, or no step is left.
pub proof fn steps_are_done_in_order<E, I>(
    runs: Seq<ScenarioRun>,
    events: Seq<ScenarioEvent<E, I>>,
)
    requires
        is_carried_out(runs, events),
    ensures
        ({
            let script = runs.last().script();
            &&& events.len() <= script.len()
            &&& forall|i: int| 0 <= i < events.len() ==> (#[trigger] runs[i]).current() == script[i]
            &&& forall|i: int|
                0 <= i < events.len() - 1 ==> script[i].passes(#[trigger] events[i])
            &&& runs.last().position() == script.len() <==> {
                ||| events.len() == script.len()
                ||| events.len() > 0 && !script[events.len() - 1].passes(events.last())
            }
        }),
{
    let count = events.len() as int;
    let test = runs[0].test();
    let target = runs[0].target();
    let end = runs.last();
    lemma_in_step(runs, events, count);
    assert forall|i: int| 0 <= i < count implies (#[trigger] runs[i]).current() == end.script()[i]
        && runs[i].position() == i && i < end.script().len() by {
        lemma_in_step(runs, events, i);
        let run = runs[i];
        assert(run.current().accepts(events[i]));
        url_leaves_the_kinds_of_steps(test, target, run.url(), end.url());
        if i <= asked_at(test) {
            url_is_not_used_before_it_is_asked(test, target, run.url(), end.url());
            assert(test.script(target, run.url())[i] == test.script(target, end.url())[i]);
        } else {
            lemma_url_stays(runs, events, i, count);
        }
    }
    if count > 0 {
        assert(runs[count - 1].current() == end.script()[count - 1]);
        assert(runs[count - 1].leads_to(events[count - 1], end));
    } else {
        url_is_asked_once(test, target, end.url());
    }
    assert forall|i: int| 0 <= i < count - 1 implies end.script()[i].passes(#[trigger] events[i]) by {
        assert(runs[i].current() == end.script()[i]);
    }
}

} // verus!
