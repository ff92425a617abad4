//! What the test of each name is about, and what its steps depend on.
use vstd::prelude::*;

#[allow(unused_imports)]
use crate::command::Expectation;
#[allow(unused_imports)]
use crate::conformance_tests::{names_tell_tests_apart, ConformanceTest};
#[allow(unused_imports)]
use crate::crates::CrateModel;
#[allow(unused_imports)]
use crate::definition::DependencyModel;
#[allow(unused_imports)]
use crate::scenarios::parameterized_name_script;
#[allow(unused_imports)]
use crate::steps::StepModel;

verus! {

/// The steps of a test against two registries are the same, but that the crates
/// that know the registry find it at the one URL or at the other.
pub proof fn only_registries_depend_on_the_url(
    test: ConformanceTest,
    current_target: Seq<char>,
    url: Seq<char>,
    other: Seq<char>,
    i: int,
)
    requires
        0 <= i < test.script(current_target, url).len(),
    ensures
        test.script(current_target, other).len() == test.script(current_target, url).len(),
        match test.script(current_target, url)[i] {
            StepModel::Create(krate) => {
                &&& test.script(current_target, other)[i] matches StepModel::Create(twin)
                &&& twin.manifest == krate.manifest
                &&& twin.src == krate.src
                &&& twin.build_script == krate.build_script
                &&& twin.config is Some <==> krate.config is Some
                &&& krate.config matches Some(registries) ==> {
                    &&& forall|name: Seq<char>| #[trigger]
                        registries.contains_key(name) <==> name == "mine"@
                    &&& registries["mine"@].index == url
                    &&& registries["mine"@].credential_provider == seq!["cargo:token"@]
                }
                &&& twin.config matches Some(registries) ==> {
                    &&& forall|name: Seq<char>| #[trigger]
                        registries.contains_key(name) <==> name == "mine"@
                    &&& registries["mine"@].index == other
                    &&& registries["mine"@].credential_provider == seq!["cargo:token"@]
                }
            },
            step => test.script(current_target, other)[i] == step,
        },
{
}

/// The steps of the test for the current target are the same on two targets, but
/// that the library has its dependency in the section of the one or of the other.
pub proof fn only_one_section_depends_on_the_target(
    current_target: Seq<char>,
    other: Seq<char>,
    url: Seq<char>,
    i: int,
)
    requires
        0 <= i < 8,
    ensures
        ({
            let script = ConformanceTest::PlatformSpecificDependencyUsed.script(current_target, url);
            let twin = ConformanceTest::PlatformSpecificDependencyUsed.script(other, url);
            &&& script.len() == 8
            &&& twin.len() == 8
            &&& i != 3 ==> twin[i] == script[i]
            &&& script[3] matches StepModel::Create(here)
            &&& twin[3] matches StepModel::Create(there)
            &&& there.src == here.src
            &&& there.config == here.config
            &&& there.build_script == here.build_script
            &&& there.manifest.package == here.manifest.package
            &&& there.manifest.dependencies == here.manifest.dependencies
            &&& there.manifest.build_dependencies == here.manifest.build_dependencies
            &&& there.manifest.features == here.manifest.features
            &&& forall|target: Seq<char>| #[trigger]
                here.manifest.target.contains_key(target) <==> target == current_target
            &&& forall|target: Seq<char>| #[trigger]
                there.manifest.target.contains_key(target) <==> target == other
            &&& there.manifest.target[other] == here.manifest.target[current_target]
        }),
{
}

/// Whatever the name of the library, it is published under that name, and the
/// program depends on it and calls it by that name.
pub proof fn libraries_are_used_by_their_name(name: Seq<char>, url: Seq<char>)
    ensures
        ({
            let script = parameterized_name_script(name, url);
            let library = CrateModel::new(name, "0.1.0"@).lib_rs(
                "pub fn add(a: u8, b: u8) -> u8 { a + b }"@,
            );
            let before = "fn main() { assert_eq!(3, "@;
            let behind = "::add(1, 2)); }"@;
            let program = CrateModel::new("the-binary"@, "0.1.0"@).add_registry(
                "mine"@,
                url,
            ).add_dependency(DependencyModel::base(name, "0.1.0"@).in_registry("mine"@)).main_rs(
                before + name + behind,
            );
            &&& script.len() == 5
            &&& script[0] == StepModel::Create(library)
            &&& script[1] is AskUrl
            &&& script[2] == StepModel::Publish(library.created())
            &&& script[3] == StepModel::Create(program)
            &&& script[4] matches StepModel::Execute(command, expectation)
            &&& expectation is Success
            &&& command == program.created().run_call().finished()
        }),
{
    let script = parameterized_name_script(name, url);
    let library = CrateModel::new(name, "0.1.0"@).lib_rs(
        "pub fn add(a: u8, b: u8) -> u8 { a + b }"@,
    );
    let text = "fn main() { assert_eq!(3, "@ + name + "::add(1, 2)); }"@;
    let program = CrateModel::new("the-binary"@, "0.1.0"@).add_registry(
        "mine"@,
        url,
    ).add_dependency(DependencyModel::base(name, "0.1.0"@).in_registry("mine"@)).main_rs(text);
    assert(script[0]->Create_0 =~~= library);
    assert(script[3]->Create_0 =~~= program);
}

/// Whether a step publishes the crate of this name and version, which is in its
/// directory below `crates`.
pub open spec fn publishes(step: StepModel, name: Seq<char>, version: Seq<char>) -> bool {
    &&& step matches StepModel::Publish(created)
    &&& created.name == name
    &&& created.version == version
    &&& created.directory.len() == 3
    &&& created.directory[0] == "crates"@
    &&& created.directory[1] == name
    &&& created.directory[2] == version
}

/// Whether a step runs a command that is to end like that.
pub open spec fn ends_in(step: StepModel, expectation: Expectation) -> bool {
    step matches StepModel::Execute(_, expected) && expected == expectation
}

/// The tests of name lengths publish a library whose name has that length.
pub proof fn name_length_tests(test: ConformanceTest, target: Seq<char>, url: Seq<char>)
    ensures
        test.title() == "name_length_1"@ ==> publishes(
            test.script(target, url)[2],
            "a"@,
            "0.1.0"@,
        ),
        test.title() == "name_length_2"@ ==> publishes(
            test.script(target, url)[2],
            "ab"@,
            "0.1.0"@,
        ),
        test.title() == "name_length_3"@ ==> publishes(
            test.script(target, url)[2],
            "abc"@,
            "0.1.0"@,
        ),
        test.title() == "name_length_4"@ ==> publishes(
            test.script(target, url)[2],
            "abcd"@,
            "0.1.0"@,
        ),
{
    if test.title() == "name_length_1"@ {
        names_tell_tests_apart(test, ConformanceTest::NameLength1);
    }
    if test.title() == "name_length_2"@ {
        names_tell_tests_apart(test, ConformanceTest::NameLength2);
    }
    if test.title() == "name_length_3"@ {
        names_tell_tests_apart(test, ConformanceTest::NameLength3);
    }
    if test.title() == "name_length_4"@ {
        names_tell_tests_apart(test, ConformanceTest::NameLength4);
    }
}

/// The tests of several dependencies: siblings are used side by side, in a
/// hierarchy each uses the next, and a crate of crates.io is used by the library
/// alone, or by the program as well.
pub proof fn dependency_tests(test: ConformanceTest, target: Seq<char>, url: Seq<char>)
    ensures
        test.title() == "multiple_sibling_dependencies"@ ==> {
            let script = test.script(target, url);
            &&& publishes(script[1], "left"@, "0.1.0"@)
            &&& publishes(script[3], "right"@, "0.2.0"@)
            &&& script[5]->Create_0.manifest.dependencies.contains_key("left"@)
            &&& script[5]->Create_0.manifest.dependencies.contains_key("right"@)
            &&& ends_in(script[6], Expectation::Success)
        },
        test.title() == "multiple_hierarchical_dependencies"@ ==> {
            let script = test.script(target, url);
            &&& publishes(script[2], "two"@, "0.1.0"@)
            &&& publishes(script[4], "one"@, "0.2.0"@)
            &&& script[3]->Create_0.manifest.dependencies.contains_key("two"@)
            &&& script[5]->Create_0.manifest.dependencies.contains_key("one"@)
            &&& ends_in(script[6], Expectation::Success)
        },
        test.title() == "cross_registry_dependencies"@ ==> {
            let script = test.script(target, url);
            &&& publishes(script[2], "the-library"@, "0.2.0"@)
            &&& script[1]->Create_0.manifest.dependencies.contains_key("either"@)
            &&& script[1]->Create_0.manifest.dependencies["either"@].registry is None
            &&& !script[3]->Create_0.manifest.dependencies.contains_key("either"@)
            &&& ends_in(script[4], Expectation::Success)
        },
        test.title() == "crates_io_dependencies_unify"@ ==> {
            let script = test.script(target, url);
            &&& publishes(script[2], "the-library"@, "0.2.0"@)
            &&& script[1]->Create_0.manifest.dependencies.contains_key("either"@)
            &&& script[3]->Create_0.manifest.dependencies.contains_key("either"@)
            &&& script[3]->Create_0.manifest.dependencies["either"@]
                == script[1]->Create_0.manifest.dependencies["either"@]
            &&& ends_in(script[4], Expectation::Success)
        },
{
    reveal_strlit("either");
    reveal_strlit("the-library");
    assert("either"@.len() != "the-library"@.len());
    if test.title() == "multiple_sibling_dependencies"@ {
        names_tell_tests_apart(test, ConformanceTest::MultipleSiblingDependencies);
    }
    if test.title() == "multiple_hierarchical_dependencies"@ {
        names_tell_tests_apart(test, ConformanceTest::MultipleHierarchicalDependencies);
    }
    if test.title() == "cross_registry_dependencies"@ {
        names_tell_tests_apart(test, ConformanceTest::CrossRegistryDependencies);
    }
    if test.title() == "crates_io_dependencies_unify"@ {
        names_tell_tests_apart(test, ConformanceTest::CratesIoDependenciesUnify);
    }
}

/// The tests of versions and links: two versions of a library are each run, two
/// libraries with the same link are not run together and nothing is downloaded,
/// and a library that asks for a later Rust is passed over.
pub proof fn version_and_link_tests(test: ConformanceTest, target: Seq<char>, url: Seq<char>)
    ensures
        test.title() == "multiple_versions"@ ==> {
            let script = test.script(target, url);
            &&& script.len() == 9
            &&& publishes(script[2], "the-library"@, "1.0.0"@)
            &&& publishes(script[4], "the-library"@, "2.0.0"@)
            &&& script[5]->Create_0.manifest.dependencies["the-library"@].version == "1.0.0"@
            &&& ends_in(script[6], Expectation::Success)
            &&& script[7]->Create_0.manifest.dependencies["the-library"@].version == "2.0.0"@
            &&& ends_in(script[8], Expectation::Success)
        },
        test.title() == "conflicting_links"@ ==> {
            let script = test.script(target, url);
            &&& script.len() == 8
            &&& publishes(script[2], "conflict-one"@, "1.0.0"@)
            &&& publishes(script[4], "conflict-two"@, "1.0.0"@)
            &&& script[1]->Create_0.manifest.package.links is Some
            &&& script[1]->Create_0.manifest.package.links
                == script[3]->Create_0.manifest.package.links
            &&& script[5]->Create_0.manifest.dependencies.contains_key("conflict-one"@)
            &&& script[5]->Create_0.manifest.dependencies.contains_key("conflict-two"@)
            &&& ends_in(script[6], Expectation::Failure)
            &&& script[7] == StepModel::CheckDownloads(0)
        },
        test.title() == "minimum_version"@ ==> {
            let script = test.script(target, url);
            &&& script.len() == 7
            &&& publishes(script[2], "from-the-future"@, "1.0.0"@)
            &&& publishes(script[4], "from-the-future"@, "1.1.0"@)
            &&& script[1]->Create_0.manifest.package.rust_version == Some("1.56"@)
            &&& script[3]->Create_0.manifest.package.rust_version == Some("1.1111"@)
            &&& ends_in(script[6], Expectation::Success)
            &&& script[6]->Execute_0.args == seq!["run"@, "-Zmsrv-policy"@]
        },
{
    if test.title() == "multiple_versions"@ {
        names_tell_tests_apart(test, ConformanceTest::MultipleVersions);
    }
    if test.title() == "conflicting_links"@ {
        names_tell_tests_apart(test, ConformanceTest::ConflictingLinks);
    }
    if test.title() == "minimum_version"@ {
        names_tell_tests_apart(test, ConformanceTest::MinimumVersion);
        assert(test.script(target, url)[6]->Execute_0.args =~= seq!["run"@, "-Zmsrv-policy"@]);
    }
}

/// The tests of optional dependencies: one that is not switched on is not
/// downloaded, and one that is switched on, by its name, by the name that it was
/// given, or by a feature, is.
pub proof fn optional_dependency_tests(test: ConformanceTest, target: Seq<char>, url: Seq<char>)
    ensures
        test.title() == "optional_dependency_unused"@ ==> {
            let script = test.script(target, url);
            &&& publishes(script[2], "unused"@, "1.0.0"@)
            &&& publishes(script[4], "the-library"@, "1.0.0"@)
            &&& script[3]->Create_0.manifest.dependencies["unused"@].optional
            &&& script[5]->Create_0.manifest.dependencies["the-library"@].features is None
            &&& ends_in(script[6], Expectation::Success)
            &&& script[7] == StepModel::CheckDownloads(1)
        },
        test.title() == "optional_dependency_used_implicit"@ ==> {
            let script = test.script(target, url);
            &&& publishes(script[2], "used"@, "1.0.0"@)
            &&& publishes(script[4], "the-library"@, "1.0.0"@)
            &&& script[3]->Create_0.manifest.dependencies["used"@].optional
            &&& script[3]->Create_0.manifest.dependencies["used"@].package is None
            &&& !script[3]->Create_0.manifest.features.contains_key("used"@)
            &&& script[5]->Create_0.manifest.dependencies["the-library"@].features == Some(
                seq!["used"@],
            )
            &&& ends_in(script[6], Expectation::Success)
            &&& script[7] == StepModel::CheckDownloads(2)
        },
        test.title() == "optional_dependency_used_implicit_renamed"@ ==> {
            let script = test.script(target, url);
            &&& publishes(script[2], "used"@, "1.0.0"@)
            &&& publishes(script[4], "the-library"@, "1.0.0"@)
            &&& script[3]->Create_0.manifest.dependencies["another"@].optional
            &&& script[3]->Create_0.manifest.dependencies["another"@].package == Some("used"@)
            &&& script[5]->Create_0.manifest.dependencies["the-library"@].features == Some(
                seq!["another"@],
            )
            &&& ends_in(script[6], Expectation::Success)
            &&& script[7] == StepModel::CheckDownloads(2)
        },
        test.title() == "optional_dependency_used_explicit"@ ==> {
            let script = test.script(target, url);
            &&& publishes(script[2], "used"@, "1.0.0"@)
            &&& publishes(script[4], "the-library"@, "1.0.0"@)
            &&& script[3]->Create_0.manifest.dependencies["used"@].optional
            &&& script[3]->Create_0.manifest.features["my-feature"@] == seq!["dep:used"@]
            &&& script[5]->Create_0.manifest.dependencies["the-library"@].features == Some(
                seq!["my-feature"@],
            )
            &&& ends_in(script[6], Expectation::Success)
            &&& script[7] == StepModel::CheckDownloads(2)
        },
{
    if test.title() == "optional_dependency_unused"@ {
        names_tell_tests_apart(test, ConformanceTest::OptionalDependencyUnused);
    }
    if test.title() == "optional_dependency_used_implicit"@ {
        names_tell_tests_apart(test, ConformanceTest::OptionalDependencyUsedImplicit);
    }
    if test.title() == "optional_dependency_used_implicit_renamed"@ {
        names_tell_tests_apart(test, ConformanceTest::OptionalDependencyUsedImplicitRenamed);
    }
    if test.title() == "optional_dependency_used_explicit"@ {
        names_tell_tests_apart(test, ConformanceTest::OptionalDependencyUsedExplicit);
    }
}

/// The tests of dependencies for a target, for the build, and behind a login.
pub proof fn special_dependency_tests(test: ConformanceTest, target: Seq<char>, url: Seq<char>)
    ensures
        test.title() == "platform_specific_dependency_unused"@ ==> {
            let script = test.script(target, url);
            &&& publishes(script[2], "not-this-platform"@, "1.0.0"@)
            &&& publishes(script[4], "the-library"@, "1.0.0"@)
            &&& script[3]->Create_0.manifest.target.contains_key("not-a-real-target"@)
            &&& script[3]->Create_0.manifest.target["not-a-real-target"@].dependencies.contains_key(
                "not-this-platform"@,
            )
            &&& ends_in(script[6], Expectation::Success)
            &&& script[7] == StepModel::CheckDownloads(1)
        },
        test.title() == "platform_specific_dependency_used"@ ==> {
            let script = test.script(target, url);
            &&& publishes(script[2], "this-platform"@, "1.0.0"@)
            &&& publishes(script[4], "the-library"@, "1.0.0"@)
            &&& script[3]->Create_0.manifest.target.contains_key(target)
            &&& script[3]->Create_0.manifest.target[target].dependencies.contains_key(
                "this-platform"@,
            )
            &&& ends_in(script[6], Expectation::Success)
            &&& script[7] == StepModel::CheckDownloads(2)
        },
        test.title() == "build_only_dependency"@ ==> {
            let script = test.script(target, url);
            &&& publishes(script[2], "only-for-build"@, "1.0.0"@)
            &&& publishes(script[4], "the-library"@, "1.0.0"@)
            &&& script[3]->Create_0.manifest.build_dependencies.contains_key("only-for-build"@)
            &&& !script[3]->Create_0.manifest.dependencies.contains_key("only-for-build"@)
            &&& script[3]->Create_0.build_script is Some
            &&& ends_in(script[6], Expectation::Success)
            &&& script[7] == StepModel::CheckDownloads(2)
        },
        test.title() == "authorization_required"@ <==> test.login() is Some,
        test.login() matches Some((username, password)) ==> {
            let script = test.script(target, url);
            &&& username == "admin"@
            &&& password == "baseball123"@
            &&& publishes(script[2], "the-library"@, "1.0.0"@)
            &&& ends_in(script[4], Expectation::Success)
            &&& script[4]->Execute_0.args == seq!["run"@]
        },
{
    if test.title() == "platform_specific_dependency_unused"@ {
        names_tell_tests_apart(test, ConformanceTest::PlatformSpecificDependencyUnused);
    }
    if test.title() == "platform_specific_dependency_used"@ {
        names_tell_tests_apart(test, ConformanceTest::PlatformSpecificDependencyUsed);
    }
    if test.title() == "build_only_dependency"@ {
        names_tell_tests_apart(test, ConformanceTest::BuildOnlyDependency);
    }
    if test.title() == "authorization_required"@ {
        names_tell_tests_apart(test, ConformanceTest::AuthorizationRequired);
    }
    if test.login() is Some {
        assert(test.script(target, url)[4]->Execute_0.args =~= seq!["run"@]);
    }
}

} // verus!
