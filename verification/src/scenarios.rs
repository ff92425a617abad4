//! The conformance tests, each as the steps that it takes.
use vstd::prelude::*;
use vstd::string::*;

#[allow(unused_imports)]
use crate::cargo_command::{basic_token, CallModel};
#[allow(unused_imports)]
use crate::cargo_toml::{EntryModel, ManifestModel, PackageModel, TargetModel};
use crate::command::Expectation;
#[allow(unused_imports)]
use crate::crates::CrateModel;
use crate::crates::Crate;
use crate::definition::{CreatedRegistry, DependencyDefinition};
use crate::scratch_space::ScratchSpace;
use crate::steps::Step;
#[allow(unused_imports)]
use crate::steps::{
    binary, depending, featured_from_mine, from_crates_io, from_mine, library, optional_from_mine,
    runs, told, StepModel,
};

verus! {

/// Source code that never compiles.
pub const COMPILATION_FAILURE: &'static str = "const _: () = panic!();";

/// The user that a registry with a password is set up for.
pub const USERNAME: &'static str = "admin";

/// The password of that user.
pub const PASSWORD: &'static str = "baseball123";

/// A library that uses the crate `either`.
pub const EITHER_LIBRARY: &'static str = "pub fn iter(c: bool) -> impl Iterator<Item = u8> {
                 if c {
                     either::Either::Left([1u8].into_iter())
                 } else {
                     either::Either::Right([2u8, 3].into_iter())
                 }
             }";

/// A build script that hands on what it has from a dependency.
pub const BUILD_ID_SCRIPT: &'static str = "fn main() { println!(\"cargo::rustc-env=BUILD_ID_2={}\", only_for_build::BUILD_ID); }";

/// A library that shows what its build script has handed on.
pub const BUILD_ID_LIBRARY: &'static str = "pub const ID: &str = env!(\"BUILD_ID_2\");";

/// A library that links to a native library by means of its build script.
pub open spec fn linking(name: Seq<char>, text: Seq<char>) -> CrateModel {
    let plain = library(name, "1.0.0"@, text);
    CrateModel {
        manifest: ManifestModel {
            package: PackageModel { links: Some("native-library"@), ..plain.manifest.package },
            ..plain.manifest
        },
        build_script: Some("fn main() {}"@),
        ..plain
    }
}

/// A version of the library `from-the-future` that asks for a version of Rust.
pub open spec fn asking(version: Seq<char>, rust: Seq<char>, text: Seq<char>) -> CrateModel {
    let plain = library("from-the-future"@, version, text);
    CrateModel {
        manifest: ManifestModel {
            package: PackageModel { rust_version: Some(rust), ..plain.manifest.package },
            ..plain.manifest
        },
        ..plain
    }
}

/// A crate that depends on another one for one target only.
pub open spec fn targeting(
    krate: CrateModel,
    target: Seq<char>,
    dependency: Seq<char>,
) -> CrateModel {
    let section = TargetModel { dependencies: map![dependency => from_mine("1.0.0"@)] };
    CrateModel {
        manifest: ManifestModel { target: map![target => section], ..krate.manifest },
        ..krate
    }
}

/// A library is published under a name, and a program uses it by that name.
pub open spec fn parameterized_name_script(name: Seq<char>, url: Seq<char>) -> Seq<StepModel> {
    let used = library(name, "0.1.0"@, "pub fn add(a: u8, b: u8) -> u8 { a + b }"@);
    let usage = binary(
        url,
        map![name => from_mine("0.1.0"@)],
        "fn main() { assert_eq!(3, "@ + name + "::add(1, 2)); }"@,
    );
    seq![
        StepModel::Create(used),
        StepModel::AskUrl,
        StepModel::Publish(used.created()),
        StepModel::Create(usage),
        runs(usage),
    ]
}

pub fn parameterized_name(scratch: &ScratchSpace, registry_url: &str, name: &str) -> (steps: Vec<
    Step,
>)
    ensures
        steps.deep_view() == parameterized_name_script(name@, registry_url@),
{
    let ghost script = parameterized_name_script(name@, registry_url@);
    let mut steps: Vec<Step> = Vec::new();
    let library_crate = Crate::new(name, "0.1.0").lib_rs(
        "pub fn add(a: u8, b: u8) -> u8 { a + b }",
    );
    let library_created = library_crate.created(scratch);
    steps.push(Step::Create(library_crate));

    steps.push(Step::AskUrl);
    steps.push(Step::Publish(library_created.clone()));

    let reg = CreatedRegistry::new("mine", registry_url);
    let text = "fn main() { assert_eq!(3, ".to_owned().concat(library_created.name()).concat(
        "::add(1, 2)); }",
    );
    let usage_crate = Crate::new("the-binary", "0.1.0").add_registry(&reg).add_dependency(
        library_created.as_ref().in_registry(&reg),
    ).main_rs(text.as_str());
    let run = usage_crate.created(scratch).run();
    steps.push(Step::Create(usage_crate));
    steps.push(Step::Execute(run, Expectation::Success));
    assert(steps.deep_view() =~~= script);
    steps
}

/// The library's name has one character.
pub fn name_length_1(scratch: &ScratchSpace, registry_url: &str) -> (steps: Vec<Step>)
    ensures
        steps.deep_view() == parameterized_name_script("a"@, registry_url@),
{
    parameterized_name(scratch, registry_url, "a")
}

/// The library's name has two characters.
pub fn name_length_2(scratch: &ScratchSpace, registry_url: &str) -> (steps: Vec<Step>)
    ensures
        steps.deep_view() == parameterized_name_script("ab"@, registry_url@),
{
    parameterized_name(scratch, registry_url, "ab")
}

/// The library's name has three characters.
pub fn name_length_3(scratch: &ScratchSpace, registry_url: &str) -> (steps: Vec<Step>)
    ensures
        steps.deep_view() == parameterized_name_script("abc"@, registry_url@),
{
    parameterized_name(scratch, registry_url, "abc")
}

/// The library's name has four characters.
pub fn name_length_4(scratch: &ScratchSpace, registry_url: &str) -> (steps: Vec<Step>)
    ensures
        steps.deep_view() == parameterized_name_script("abcd"@, registry_url@),
{
    parameterized_name(scratch, registry_url, "abcd")
}

/// A program uses two libraries that know nothing of each other.
pub open spec fn multiple_sibling_dependencies_script(url: Seq<char>) -> Seq<StepModel> {
    let left = library("left"@, "0.1.0"@, "pub fn add(a: u8, b: u8) -> u8 { a + b }"@);
    let right = library("right"@, "0.2.0"@, "pub fn mul(a: u8, b: u8) -> u8 { a * b }"@);
    let usage = binary(
        url,
        map!["left"@ => from_mine("0.1.0"@), "right"@ => from_mine("0.2.0"@)],
        "fn main() { assert_eq!(7, left::add(1, right::mul(2, 3))); }"@,
    );
    seq![
        StepModel::Create(left),
        StepModel::Publish(left.created()),
        StepModel::Create(right),
        StepModel::Publish(right.created()),
        StepModel::AskUrl,
        StepModel::Create(usage),
        runs(usage),
    ]
}

pub fn multiple_sibling_dependencies(scratch: &ScratchSpace, registry_url: &str) -> (steps: Vec<
    Step,
>)
    ensures
        steps.deep_view() == multiple_sibling_dependencies_script(registry_url@),
{
    let ghost script = multiple_sibling_dependencies_script(registry_url@);
    let mut steps: Vec<Step> = Vec::new();
    let left_crate = Crate::new("left", "0.1.0").lib_rs("pub fn add(a: u8, b: u8) -> u8 { a + b }");
    let left_created = left_crate.created(scratch);
    steps.push(Step::Create(left_crate));
    steps.push(Step::Publish(left_created.clone()));

    let right_crate = Crate::new("right", "0.2.0").lib_rs(
        "pub fn mul(a: u8, b: u8) -> u8 { a * b }",
    );
    let right_created = right_crate.created(scratch);
    steps.push(Step::Create(right_crate));
    steps.push(Step::Publish(right_created.clone()));

    steps.push(Step::AskUrl);
    let reg = CreatedRegistry::new("mine", registry_url);
    let usage_crate = Crate::new("the-binary", "0.1.0").add_registry(&reg).add_dependency(
        left_created.in_registry(&reg),
    ).add_dependency(right_created.in_registry(&reg)).main_rs(
        "fn main() { assert_eq!(7, left::add(1, right::mul(2, 3))); }",
    );
    let run = usage_crate.created(scratch).run();
    steps.push(Step::Create(usage_crate));
    steps.push(Step::Execute(run, Expectation::Success));
    assert(steps.deep_view() =~~= script);
    steps
}

/// A program uses a library that uses another library.
pub open spec fn multiple_hierarchical_dependencies_script(url: Seq<char>) -> Seq<StepModel> {
    let two = library("two"@, "0.1.0"@, "pub fn add(a: u8, b: u8) -> u8 { a + b }"@);
    let one = depending(
        told(
            library(
                "one"@,
                "0.2.0"@,
                "pub fn triple(a: u8) -> u8 { two::add(a, two::add(a, a)) }"@,
            ),
            url,
        ),
        map!["two"@ => from_mine("0.1.0"@)],
    );
    let usage = binary(
        url,
        map!["one"@ => from_mine("0.2.0"@)],
        "fn main() { assert_eq!(9, one::triple(3)); }"@,
    );
    seq![
        StepModel::AskUrl,
        StepModel::Create(two),
        StepModel::Publish(two.created()),
        StepModel::Create(one),
        StepModel::Publish(one.created()),
        StepModel::Create(usage),
        runs(usage),
    ]
}

pub fn multiple_hierarchical_dependencies(scratch: &ScratchSpace, registry_url: &str) -> (steps: Vec<Step>)
    ensures
        steps.deep_view() == multiple_hierarchical_dependencies_script(registry_url@),
{
    let ghost script = multiple_hierarchical_dependencies_script(registry_url@);
    let mut steps: Vec<Step> = Vec::new();
    steps.push(Step::AskUrl);
    let reg = CreatedRegistry::new("mine", registry_url);

    let two_away = Crate::new("two", "0.1.0").lib_rs("pub fn add(a: u8, b: u8) -> u8 { a + b }");
    let two_away_created = two_away.created(scratch);
    steps.push(Step::Create(two_away));
    steps.push(Step::Publish(two_away_created.clone()));

    let one_away = Crate::new("one", "0.2.0").add_registry(&reg).add_dependency(
        two_away_created.in_registry(&reg),
    ).lib_rs("pub fn triple(a: u8) -> u8 { two::add(a, two::add(a, a)) }");
    let one_away_created = one_away.created(scratch);
    steps.push(Step::Create(one_away));
    steps.push(Step::Publish(one_away_created.clone()));

    let usage_crate = Crate::new("the-binary", "0.1.0").add_registry(&reg).add_dependency(
        one_away_created.in_registry(&reg),
    ).main_rs(
        "fn main() { assert_eq!(9, one::triple(3)); }",
    );
    let run = usage_crate.created(scratch).run();
    steps.push(Step::Create(usage_crate));
    steps.push(Step::Execute(run, Expectation::Success));
    assert(steps.deep_view() =~~= script);
    steps
}

/// A library uses a crate of crates.io.
pub open spec fn cross_registry_dependencies_script(url: Seq<char>) -> Seq<StepModel> {
    let used = depending(
        library("the-library"@, "0.2.0"@, EITHER_LIBRARY@),
        map!["either"@ => from_crates_io("1.0"@)],
    );
    let usage = binary(
        url,
        map!["the-library"@ => from_mine("0.2.0"@)],
        "fn main() { assert_eq!(2, the_library::iter(false).count()); }"@,
    );
    seq![
        StepModel::AskUrl,
        StepModel::Create(used),
        StepModel::Publish(used.created()),
        StepModel::Create(usage),
        runs(usage),
    ]
}

pub fn cross_registry_dependencies(scratch: &ScratchSpace, registry_url: &str) -> (steps: Vec<Step>)
    ensures
        steps.deep_view() == cross_registry_dependencies_script(registry_url@),
{
    let ghost script = cross_registry_dependencies_script(registry_url@);
    let mut steps: Vec<Step> = Vec::new();
    steps.push(Step::AskUrl);
    let reg = CreatedRegistry::new("mine", registry_url);

    let library_crate = Crate::new("the-library", "0.2.0").add_dependency(("either", "1.0")).lib_rs(
        EITHER_LIBRARY,
    );
    let library_crate_created = library_crate.created(scratch);
    steps.push(Step::Create(library_crate));
    steps.push(Step::Publish(library_crate_created.clone()));

    let usage_crate = Crate::new("the-binary", "0.1.0").add_registry(&reg).add_dependency(
        library_crate_created.in_registry(&reg),
    ).main_rs(
        "fn main() { assert_eq!(2, the_library::iter(false).count()); }",
    );
    let run = usage_crate.created(scratch).run();
    steps.push(Step::Create(usage_crate));
    steps.push(Step::Execute(run, Expectation::Success));
    assert(steps.deep_view() =~~= script);
    steps
}

/// A library and a program use the same crate of crates.io.
pub open spec fn crates_io_dependencies_unify_script(url: Seq<char>) -> Seq<StepModel> {
    let used = depending(
        library("the-library"@, "0.2.0"@, "pub fn consume(_: either::Either<(), ()>) {}"@),
        map!["either"@ => from_crates_io("1.0"@)],
    );
    let usage = binary(
        url,
        map!["the-library"@ => from_mine("0.2.0"@), "either"@ => from_crates_io("1.0"@)],
        "fn main() { the_library::consume(either::Either::Left(())); }"@,
    );
    seq![
        StepModel::AskUrl,
        StepModel::Create(used),
        StepModel::Publish(used.created()),
        StepModel::Create(usage),
        runs(usage),
    ]
}

pub fn crates_io_dependencies_unify(scratch: &ScratchSpace, registry_url: &str) -> (steps: Vec<Step>)
    ensures
        steps.deep_view() == crates_io_dependencies_unify_script(registry_url@),
{
    let ghost script = crates_io_dependencies_unify_script(registry_url@);
    let mut steps: Vec<Step> = Vec::new();
    steps.push(Step::AskUrl);
    let reg = CreatedRegistry::new("mine", registry_url);

    let either_dep = ("either", "1.0");

    let library_crate = Crate::new("the-library", "0.2.0").add_dependency(either_dep).lib_rs(
        "pub fn consume(_: either::Either<(), ()>) {}",
    );
    let library_crate_created = library_crate.created(scratch);
    steps.push(Step::Create(library_crate));
    steps.push(Step::Publish(library_crate_created.clone()));

    let usage_crate = Crate::new("the-binary", "0.1.0").add_registry(&reg).add_dependency(
        library_crate_created.in_registry(&reg),
    ).add_dependency(either_dep).main_rs(
        "fn main() { the_library::consume(either::Either::Left(())); }",
    );
    let run = usage_crate.created(scratch).run();
    steps.push(Step::Create(usage_crate));
    steps.push(Step::Execute(run, Expectation::Success));
    assert(steps.deep_view() =~~= script);
    steps
}

/// Two versions of a library are published, and a program uses either.
pub open spec fn multiple_versions_script(url: Seq<char>) -> Seq<StepModel> {
    let first = library("the-library"@, "1.0.0"@, "pub const VERSION: u8 = 1;"@);
    let second = library("the-library"@, "2.0.0"@, "pub const VERSION: u8 = 2;"@);
    let uses_first = binary(
        url,
        map!["the-library"@ => from_mine("1.0.0"@)],
        "fn main() { assert_eq!(1, the_library::VERSION); }"@,
    );
    let uses_second = binary(
        url,
        map!["the-library"@ => from_mine("2.0.0"@)],
        "fn main() { assert_eq!(2, the_library::VERSION); }"@,
    );
    seq![
        StepModel::AskUrl,
        StepModel::Create(first),
        StepModel::Publish(first.created()),
        StepModel::Create(second),
        StepModel::Publish(second.created()),
        StepModel::Create(uses_first),
        runs(uses_first),
        StepModel::Create(uses_second),
        runs(uses_second),
    ]
}

pub fn multiple_versions(scratch: &ScratchSpace, registry_url: &str) -> (steps: Vec<Step>)
    ensures
        steps.deep_view() == multiple_versions_script(registry_url@),
{
    let ghost script = multiple_versions_script(registry_url@);
    let mut steps: Vec<Step> = Vec::new();
    steps.push(Step::AskUrl);
    let reg = CreatedRegistry::new("mine", registry_url);

    let library_v1 = Crate::new("the-library", "1.0.0").lib_rs("pub const VERSION: u8 = 1;");
    let library_v1_created = library_v1.created(scratch);
    steps.push(Step::Create(library_v1));
    steps.push(Step::Publish(library_v1_created.clone()));

    let library_v2 = Crate::new("the-library", "2.0.0").lib_rs("pub const VERSION: u8 = 2;");
    let library_v2_created = library_v2.created(scratch);
    steps.push(Step::Create(library_v2));
    steps.push(Step::Publish(library_v2_created.clone()));

    let usage_crate = Crate::new("the-binary", "0.1.0").add_registry(&reg).add_dependency(
        library_v1_created.in_registry(&reg),
    ).main_rs(
        "fn main() { assert_eq!(1, the_library::VERSION); }",
    );
    let run = usage_crate.created(scratch).run();
    steps.push(Step::Create(usage_crate));
    steps.push(Step::Execute(run, Expectation::Success));

    let usage_crate = Crate::new("the-binary", "0.1.0").add_registry(&reg).add_dependency(
        library_v2_created.in_registry(&reg),
    ).main_rs(
        "fn main() { assert_eq!(2, the_library::VERSION); }",
    );
    let run = usage_crate.created(scratch).run();
    steps.push(Step::Create(usage_crate));
    steps.push(Step::Execute(run, Expectation::Success));
    assert(steps.deep_view() =~~= script);
    steps
}

/// Two libraries link to the same native library, so that no program can use
/// both, which is found out before anything is downloaded.
pub open spec fn conflicting_links_script(url: Seq<char>) -> Seq<StepModel> {
    let one = linking("conflict-one"@, "pub const ID: u8 = 1;"@);
    let two = linking("conflict-two"@, "pub const ID: u8 = 2;"@);
    let usage = binary(
        url,
        map!["conflict-one"@ => from_mine("1.0.0"@), "conflict-two"@ => from_mine("1.0.0"@)],
        "fn main() {}"@,
    );
    seq![
        StepModel::AskUrl,
        StepModel::Create(one),
        StepModel::Publish(one.created()),
        StepModel::Create(two),
        StepModel::Publish(two.created()),
        StepModel::Create(usage),
        StepModel::Execute(usage.created().run_call().finished(), Expectation::Failure),
        StepModel::CheckDownloads(0),
    ]
}

pub fn conflicting_links(scratch: &ScratchSpace, registry_url: &str) -> (steps: Vec<Step>)
    ensures
        steps.deep_view() == conflicting_links_script(registry_url@),
{
    let ghost script = conflicting_links_script(registry_url@);
    let mut steps: Vec<Step> = Vec::new();
    steps.push(Step::AskUrl);
    let reg = CreatedRegistry::new("mine", registry_url);

    let links_key = "native-library";

    let conflict_one = Crate::new("conflict-one", "1.0.0").links(links_key).build_script(
        "fn main() {}",
    ).lib_rs("pub const ID: u8 = 1;");
    let conflict_one_created = conflict_one.created(scratch);
    steps.push(Step::Create(conflict_one));
    steps.push(Step::Publish(conflict_one_created.clone()));

    let conflict_two = Crate::new("conflict-two", "1.0.0").links(links_key).build_script(
        "fn main() {}",
    ).lib_rs("pub const ID: u8 = 2;");
    let conflict_two_created = conflict_two.created(scratch);
    steps.push(Step::Create(conflict_two));
    steps.push(Step::Publish(conflict_two_created.clone()));

    let usage_crate = Crate::new("the-binary", "0.1.0").add_registry(&reg).add_dependency(
        conflict_one_created.in_registry(&reg),
    ).add_dependency(conflict_two_created.in_registry(&reg)).main_rs(
        "fn main() {}",
    );
    let run = usage_crate.created(scratch).cargo().run().command();
    steps.push(Step::Create(usage_crate));
    steps.push(Step::Execute(run, Expectation::Failure));
    // If the registry does not put the links in the index, then Cargo will
    // download the crates and only find the conflict later.
    steps.push(Step::CheckDownloads(0));
    assert(steps.deep_view() =~~= script);
    steps
}

/// A library asks for a version of Rust that is not there yet, so that a
/// program gets the version before it.
pub open spec fn minimum_version_script(url: Seq<char>) -> Seq<StepModel> {
    let current = asking("1.0.0"@, "1.56"@, "pub const ID: u16 = 56;"@);
    let future = asking("1.1.0"@, "1.1111"@, "pub const ID: u16 = 1111;"@);
    let usage = binary(
        url,
        map!["from-the-future"@ => from_mine("1.0.0"@)],
        "fn main() { assert_eq!(56, from_the_future::ID); }"@,
    );
    let call = CallModel::new(usage.created()).use_nightly().enable_msrv_resolver().subcommand(
        "run"@,
    );
    seq![
        StepModel::AskUrl,
        StepModel::Create(current),
        StepModel::Publish(current.created()),
        StepModel::Create(future),
        StepModel::Publish(future.created()),
        StepModel::Create(usage),
        StepModel::Execute(call.finished(), Expectation::Success),
    ]
}

pub fn minimum_version(scratch: &ScratchSpace, registry_url: &str) -> (steps: Vec<Step>)
    ensures
        steps.deep_view() == minimum_version_script(registry_url@),
{
    let ghost script = minimum_version_script(registry_url@);
    let mut steps: Vec<Step> = Vec::new();
    steps.push(Step::AskUrl);
    let reg = CreatedRegistry::new("mine", registry_url);

    let current_crate = Crate::new("from-the-future", "1.0.0").rust_version("1.56").lib_rs(
        "pub const ID: u16 = 56;",
    );
    let current_crate_created = current_crate.created(scratch);
    steps.push(Step::Create(current_crate));
    steps.push(Step::Publish(current_crate_created.clone()));

    let future_crate = Crate::new("from-the-future", "1.1.0").rust_version("1.1111").lib_rs(
        "pub const ID: u16 = 1111;",
    );
    let future_crate_created = future_crate.created(scratch);
    steps.push(Step::Create(future_crate));
    steps.push(Step::Publish(future_crate_created.clone()));

    let usage_crate = Crate::new("the-binary", "0.1.0").add_registry(&reg).add_dependency(
        current_crate_created.in_registry(&reg),
    ).main_rs(
        "fn main() { assert_eq!(56, from_the_future::ID); }",
    );
    let run = usage_crate.created(scratch).cargo().use_nightly().enable_msrv_resolver().run()
        .command();
    steps.push(Step::Create(usage_crate));
    steps.push(Step::Execute(run, Expectation::Success));
    assert(steps.deep_view() =~~= script);
    steps
}

/// An optional dependency that nobody switches on is not downloaded.
pub open spec fn optional_dependency_unused_script(url: Seq<char>) -> Seq<StepModel> {
    let unused = library("unused"@, "1.0.0"@, COMPILATION_FAILURE@);
    let user = depending(
        told(library("the-library"@, "1.0.0"@, "pub const ID: u8 = 1;"@), url),
        map!["unused"@ => optional_from_mine("1.0.0"@)],
    );
    let usage = binary(
        url,
        map!["the-library"@ => from_mine("1.0.0"@)],
        "fn main() { assert_eq!(1, the_library::ID); }"@,
    );
    seq![
        StepModel::AskUrl,
        StepModel::Create(unused),
        StepModel::Publish(unused.created()),
        StepModel::Create(user),
        StepModel::Publish(user.created()),
        StepModel::Create(usage),
        runs(usage),
        StepModel::CheckDownloads(1),
    ]
}

pub fn optional_dependency_unused(scratch: &ScratchSpace, registry_url: &str) -> (steps: Vec<Step>)
    ensures
        steps.deep_view() == optional_dependency_unused_script(registry_url@),
{
    let ghost script = optional_dependency_unused_script(registry_url@);
    let mut steps: Vec<Step> = Vec::new();
    steps.push(Step::AskUrl);
    let reg = CreatedRegistry::new("mine", registry_url);

    let unused_dependency = Crate::new("unused", "1.0.0").lib_rs(COMPILATION_FAILURE);
    let unused_dependency_created = unused_dependency.created(scratch);
    steps.push(Step::Create(unused_dependency));
    steps.push(Step::Publish(unused_dependency_created.clone()));

    let library_crate = Crate::new("the-library", "1.0.0").add_registry(&reg).add_dependency(
        unused_dependency_created.in_registry(&reg).optional(),
    ).lib_rs("pub const ID: u8 = 1;");
    let library_crate_created = library_crate.created(scratch);
    steps.push(Step::Create(library_crate));
    steps.push(Step::Publish(library_crate_created.clone()));

    let usage_crate = Crate::new("the-binary", "0.1.0").add_registry(&reg).add_dependency(
        library_crate_created.in_registry(&reg),
    ).main_rs(
        "fn main() { assert_eq!(1, the_library::ID); }",
    );
    let run = usage_crate.created(scratch).run();
    steps.push(Step::Create(usage_crate));
    steps.push(Step::Execute(run, Expectation::Success));
    steps.push(Step::CheckDownloads(1));
    assert(steps.deep_view() =~~= script);
    steps
}

/// An optional dependency is switched on by its own name.
pub open spec fn optional_dependency_used_implicit_script(url: Seq<char>) -> Seq<StepModel> {
    let used = library("used"@, "1.0.0"@, "pub const ID: u8 = 1;"@);
    let user = depending(
        told(library("the-library"@, "1.0.0"@, "pub use used::ID;"@), url),
        map!["used"@ => optional_from_mine("1.0.0"@)],
    );
    let usage = binary(
        url,
        map!["the-library"@ => featured_from_mine("1.0.0"@, "used"@)],
        "fn main() { assert_eq!(1, the_library::ID); }"@,
    );
    seq![
        StepModel::AskUrl,
        StepModel::Create(used),
        StepModel::Publish(used.created()),
        StepModel::Create(user),
        StepModel::Publish(user.created()),
        StepModel::Create(usage),
        runs(usage),
        StepModel::CheckDownloads(2),
    ]
}

pub fn optional_dependency_used_implicit(scratch: &ScratchSpace, registry_url: &str) -> (steps: Vec<Step>)
    ensures
        steps.deep_view() == optional_dependency_used_implicit_script(registry_url@),
{
    let ghost script = optional_dependency_used_implicit_script(registry_url@);
    let mut steps: Vec<Step> = Vec::new();
    steps.push(Step::AskUrl);
    let reg = CreatedRegistry::new("mine", registry_url);

    let used_dependency = Crate::new("used", "1.0.0").lib_rs("pub const ID: u8 = 1;");
    let used_dependency_created = used_dependency.created(scratch);
    steps.push(Step::Create(used_dependency));
    steps.push(Step::Publish(used_dependency_created.clone()));

    let library_crate = Crate::new("the-library", "1.0.0").add_registry(&reg).add_dependency(
        used_dependency_created.as_ref().in_registry(&reg).optional(),
    ).lib_rs("pub use used::ID;");
    let library_crate_created = library_crate.created(scratch);
    steps.push(Step::Create(library_crate));
    steps.push(Step::Publish(library_crate_created.clone()));

    let usage_crate = Crate::new("the-binary", "0.1.0").add_registry(&reg).add_dependency(
        library_crate_created.in_registry(&reg).with_feature(used_dependency_created.name()),
    ).main_rs(
        "fn main() { assert_eq!(1, the_library::ID); }",
    );
    let run = usage_crate.created(scratch).run();
    steps.push(Step::Create(usage_crate));
    steps.push(Step::Execute(run, Expectation::Success));
    steps.push(Step::CheckDownloads(2));
    assert(steps.deep_view() =~~= script);
    steps
}

/// An optional dependency is switched on by the name that it was given.
pub open spec fn optional_dependency_used_implicit_renamed_script(url: Seq<char>) -> Seq<StepModel> {
    let used = library("used"@, "1.0.0"@, "pub const ID: u8 = 1;"@);
    let renamed = EntryModel { package: Some("used"@), ..optional_from_mine("1.0.0"@) };
    let user = depending(
        told(library("the-library"@, "1.0.0"@, "pub use another::ID;"@), url),
        map!["another"@ => renamed],
    );
    let usage = binary(
        url,
        map!["the-library"@ => featured_from_mine("1.0.0"@, "another"@)],
        "fn main() { assert_eq!(1, the_library::ID); }"@,
    );
    seq![
        StepModel::AskUrl,
        StepModel::Create(used),
        StepModel::Publish(used.created()),
        StepModel::Create(user),
        StepModel::Publish(user.created()),
        StepModel::Create(usage),
        runs(usage),
        StepModel::CheckDownloads(2),
    ]
}

pub fn optional_dependency_used_implicit_renamed(scratch: &ScratchSpace, registry_url: &str) -> (steps: Vec<Step>)
    ensures
        steps.deep_view() == optional_dependency_used_implicit_renamed_script(registry_url@),
{
    let ghost script = optional_dependency_used_implicit_renamed_script(registry_url@);
    let mut steps: Vec<Step> = Vec::new();
    steps.push(Step::AskUrl);
    let reg = CreatedRegistry::new("mine", registry_url);

    let rename = "another";

    let used_dependency = Crate::new("used", "1.0.0").lib_rs("pub const ID: u8 = 1;");
    let used_dependency_created = used_dependency.created(scratch);
    steps.push(Step::Create(used_dependency));
    steps.push(Step::Publish(used_dependency_created.clone()));

    let library_crate = Crate::new("the-library", "1.0.0").add_registry(&reg).add_dependency(
        used_dependency_created.as_ref().in_registry(&reg).renamed_as(rename).optional(),
    ).lib_rs("pub use another::ID;");
    let library_crate_created = library_crate.created(scratch);
    steps.push(Step::Create(library_crate));
    steps.push(Step::Publish(library_crate_created.clone()));

    let usage_crate = Crate::new("the-binary", "0.1.0").add_registry(&reg).add_dependency(
        library_crate_created.in_registry(&reg).with_feature(rename),
    ).main_rs(
        "fn main() { assert_eq!(1, the_library::ID); }",
    );
    let run = usage_crate.created(scratch).run();
    steps.push(Step::Create(usage_crate));
    steps.push(Step::Execute(run, Expectation::Success));
    steps.push(Step::CheckDownloads(2));
    assert(steps.deep_view() =~~= script);
    steps
}

/// An optional dependency is switched on by a feature that names it.
pub open spec fn optional_dependency_used_explicit_script(url: Seq<char>) -> Seq<StepModel> {
    let used = library("used"@, "1.0.0"@, "pub const ID: u8 = 1;"@);
    let plain = depending(
        told(library("the-library"@, "1.0.0"@, "pub use used::ID;"@), url),
        map!["used"@ => optional_from_mine("1.0.0"@)],
    );
    let user = CrateModel {
        manifest: ManifestModel {
            features: map!["my-feature"@ => seq!["dep:used"@]],
            ..plain.manifest
        },
        ..plain
    };
    let usage = binary(
        url,
        map!["the-library"@ => featured_from_mine("1.0.0"@, "my-feature"@)],
        "fn main() { assert_eq!(1, the_library::ID); }"@,
    );
    seq![
        StepModel::AskUrl,
        StepModel::Create(used),
        StepModel::Publish(used.created()),
        StepModel::Create(user),
        StepModel::Publish(user.created()),
        StepModel::Create(usage),
        runs(usage),
        StepModel::CheckDownloads(2),
    ]
}

pub fn optional_dependency_used_explicit(scratch: &ScratchSpace, registry_url: &str) -> (steps: Vec<Step>)
    ensures
        steps.deep_view() == optional_dependency_used_explicit_script(registry_url@),
{
    let ghost script = optional_dependency_used_explicit_script(registry_url@);
    let mut steps: Vec<Step> = Vec::new();
    steps.push(Step::AskUrl);
    let reg = CreatedRegistry::new("mine", registry_url);

    let used_dependency = Crate::new("used", "1.0.0").lib_rs("pub const ID: u8 = 1;");
    let used_dependency_created = used_dependency.created(scratch);
    steps.push(Step::Create(used_dependency));
    steps.push(Step::Publish(used_dependency_created.clone()));

    let feature_name = "my-feature";

    let members = ["dep:used"];
    assert(members@.map_values(|member: &str| member@) =~= seq!["dep:used"@]);
    let library_crate = Crate::new("the-library", "1.0.0").add_registry(&reg).add_dependency(
        used_dependency_created.as_ref().in_registry(&reg).optional(),
    ).add_feature(feature_name, &members).lib_rs("pub use used::ID;");
    let library_crate_created = library_crate.created(scratch);
    steps.push(Step::Create(library_crate));
    steps.push(Step::Publish(library_crate_created.clone()));

    let usage_crate = Crate::new("the-binary", "0.1.0").add_registry(&reg).add_dependency(
        library_crate_created.in_registry(&reg).with_feature(feature_name),
    ).main_rs(
        "fn main() { assert_eq!(1, the_library::ID); }",
    );
    let run = usage_crate.created(scratch).run();
    steps.push(Step::Create(usage_crate));
    steps.push(Step::Execute(run, Expectation::Success));
    steps.push(Step::CheckDownloads(2));
    assert(steps.deep_view() =~~= script);
    steps
}

/// A dependency for another target is not downloaded.
pub open spec fn platform_specific_dependency_unused_script(url: Seq<char>) -> Seq<StepModel> {
    let unused = library("not-this-platform"@, "1.0.0"@, COMPILATION_FAILURE@);
    let user = targeting(
        told(library("the-library"@, "1.0.0"@, "pub const ID: u8 = 1;"@), url),
        "not-a-real-target"@,
        "not-this-platform"@,
    );
    let usage = binary(
        url,
        map!["the-library"@ => from_mine("1.0.0"@)],
        "fn main() { assert_eq!(1, the_library::ID); }"@,
    );
    seq![
        StepModel::AskUrl,
        StepModel::Create(unused),
        StepModel::Publish(unused.created()),
        StepModel::Create(user),
        StepModel::Publish(user.created()),
        StepModel::Create(usage),
        runs(usage),
        StepModel::CheckDownloads(1),
    ]
}

pub fn platform_specific_dependency_unused(scratch: &ScratchSpace, registry_url: &str) -> (steps: Vec<Step>)
    ensures
        steps.deep_view() == platform_specific_dependency_unused_script(registry_url@),
{
    let ghost script = platform_specific_dependency_unused_script(registry_url@);
    let mut steps: Vec<Step> = Vec::new();
    steps.push(Step::AskUrl);
    let reg = CreatedRegistry::new("mine", registry_url);

    let not_this_platform = Crate::new("not-this-platform", "1.0.0").lib_rs(COMPILATION_FAILURE);
    let not_this_platform_created = not_this_platform.created(scratch);
    steps.push(Step::Create(not_this_platform));
    steps.push(Step::Publish(not_this_platform_created.clone()));

    let library_crate = Crate::new("the-library", "1.0.0").add_registry(&reg).add_target_dependency(
        "not-a-real-target",
        not_this_platform_created.in_registry(&reg),
    ).lib_rs("pub const ID: u8 = 1;");
    let library_crate_created = library_crate.created(scratch);
    steps.push(Step::Create(library_crate));
    steps.push(Step::Publish(library_crate_created.clone()));

    let usage_crate = Crate::new("the-binary", "0.1.0").add_registry(&reg).add_dependency(
        library_crate_created.in_registry(&reg),
    ).main_rs(
        "fn main() { assert_eq!(1, the_library::ID); }",
    );
    let run = usage_crate.created(scratch).run();
    steps.push(Step::Create(usage_crate));
    steps.push(Step::Execute(run, Expectation::Success));
    steps.push(Step::CheckDownloads(1));
    assert(steps.deep_view() =~~= script);
    steps
}

/// A dependency for the current target is downloaded and used.
pub open spec fn platform_specific_dependency_used_script(current_target: Seq<char>, url: Seq<char>) -> Seq<StepModel> {
    let used = library("this-platform"@, "1.0.0"@, "pub const ID: u8 = 1;"@);
    let user = targeting(
        told(library("the-library"@, "1.0.0"@, "pub use this_platform::ID;"@), url),
        current_target,
        "this-platform"@,
    );
    let usage = binary(
        url,
        map!["the-library"@ => from_mine("1.0.0"@)],
        "fn main() { assert_eq!(1, the_library::ID); }"@,
    );
    seq![
        StepModel::AskUrl,
        StepModel::Create(used),
        StepModel::Publish(used.created()),
        StepModel::Create(user),
        StepModel::Publish(user.created()),
        StepModel::Create(usage),
        runs(usage),
        StepModel::CheckDownloads(2),
    ]
}

pub fn platform_specific_dependency_used(scratch: &ScratchSpace, registry_url: &str, current_target: &str) -> (steps: Vec<Step>)
    ensures
        steps.deep_view() == platform_specific_dependency_used_script(current_target@, registry_url@),
{
    let ghost script = platform_specific_dependency_used_script(current_target@, registry_url@);
    let mut steps: Vec<Step> = Vec::new();
    steps.push(Step::AskUrl);
    let reg = CreatedRegistry::new("mine", registry_url);

    let this_platform = Crate::new("this-platform", "1.0.0").lib_rs("pub const ID: u8 = 1;");
    let this_platform_created = this_platform.created(scratch);
    steps.push(Step::Create(this_platform));
    steps.push(Step::Publish(this_platform_created.clone()));

    let library_crate = Crate::new("the-library", "1.0.0").add_registry(&reg).add_target_dependency(
        current_target,
        this_platform_created.in_registry(&reg),
    ).lib_rs("pub use this_platform::ID;");
    let library_crate_created = library_crate.created(scratch);
    steps.push(Step::Create(library_crate));
    steps.push(Step::Publish(library_crate_created.clone()));

    let usage_crate = Crate::new("the-binary", "0.1.0").add_registry(&reg).add_dependency(
        library_crate_created.in_registry(&reg),
    ).main_rs(
        "fn main() { assert_eq!(1, the_library::ID); }",
    );
    let run = usage_crate.created(scratch).run();
    steps.push(Step::Create(usage_crate));
    steps.push(Step::Execute(run, Expectation::Success));
    steps.push(Step::CheckDownloads(2));
    assert(steps.deep_view() =~~= script);
    steps
}

/// A dependency of a build script is downloaded and used.
pub open spec fn build_only_dependency_script(url: Seq<char>) -> Seq<StepModel> {
    let used = library("only-for-build"@, "1.0.0"@, "pub const BUILD_ID: u8 = 1;"@);
    let plain = told(library("the-library"@, "1.0.0"@, BUILD_ID_LIBRARY@), url);
    let user = CrateModel {
        manifest: ManifestModel {
            build_dependencies: map!["only-for-build"@ => from_mine("1.0.0"@)],
            ..plain.manifest
        },
        build_script: Some(BUILD_ID_SCRIPT@),
        ..plain
    };
    let usage = binary(
        url,
        map!["the-library"@ => from_mine("1.0.0"@)],
        "fn main() { assert_eq!(\"1\", the_library::ID); }"@,
    );
    seq![
        StepModel::AskUrl,
        StepModel::Create(used),
        StepModel::Publish(used.created()),
        StepModel::Create(user),
        StepModel::Publish(user.created()),
        StepModel::Create(usage),
        runs(usage),
        StepModel::CheckDownloads(2),
    ]
}

pub fn build_only_dependency(scratch: &ScratchSpace, registry_url: &str) -> (steps: Vec<Step>)
    ensures
        steps.deep_view() == build_only_dependency_script(registry_url@),
{
    let ghost script = build_only_dependency_script(registry_url@);
    let mut steps: Vec<Step> = Vec::new();
    steps.push(Step::AskUrl);
    let reg = CreatedRegistry::new("mine", registry_url);

    let only_for_build = Crate::new("only-for-build", "1.0.0").lib_rs("pub const BUILD_ID: u8 = 1;");
    let only_for_build_created = only_for_build.created(scratch);
    steps.push(Step::Create(only_for_build));
    steps.push(Step::Publish(only_for_build_created.clone()));

    let library_crate = Crate::new("the-library", "1.0.0").add_registry(&reg).add_build_dependency(
        only_for_build_created.in_registry(&reg),
    ).build_script(BUILD_ID_SCRIPT).lib_rs(BUILD_ID_LIBRARY);
    let library_crate_created = library_crate.created(scratch);
    steps.push(Step::Create(library_crate));
    steps.push(Step::Publish(library_crate_created.clone()));

    let usage_crate = Crate::new("the-binary", "0.1.0").add_registry(&reg).add_dependency(
        library_crate_created.in_registry(&reg),
    ).main_rs(
        "fn main() { assert_eq!(\"1\", the_library::ID); }",
    );
    let run = usage_crate.created(scratch).run();
    steps.push(Step::Create(usage_crate));
    steps.push(Step::Execute(run, Expectation::Success));
    steps.push(Step::CheckDownloads(2));
    assert(steps.deep_view() =~~= script);
    steps
}

/// The user name and the password that a registry is to ask for.
pub fn authorization_required_setup() -> (login: (&'static str, &'static str))
    ensures
        login.0@ == USERNAME@,
        login.1@ == PASSWORD@,
{
    (USERNAME, PASSWORD)
}

/// A registry that wants a password gets it.
pub open spec fn authorization_required_script(url: Seq<char>) -> Seq<StepModel> {
    let used = told(library("the-library"@, "1.0.0"@, "pub const ID: u8 = 1;"@), url);
    let usage = binary(
        url,
        map!["the-library"@ => from_mine("1.0.0"@)],
        "fn main() { assert_eq!(1, the_library::ID); }"@,
    );
    let call = CallModel::new(usage.created()).with_token(
        "mine"@,
        basic_token(USERNAME@, PASSWORD@),
    ).subcommand("run"@);
    seq![
        StepModel::AskUrl,
        StepModel::Create(used),
        StepModel::Publish(used.created()),
        StepModel::Create(usage),
        StepModel::Execute(call.finished(), Expectation::Success),
    ]
}

pub fn authorization_required(scratch: &ScratchSpace, registry_url: &str) -> (steps: Vec<Step>)
    ensures
        steps.deep_view() == authorization_required_script(registry_url@),
{
    let ghost script = authorization_required_script(registry_url@);
    let mut steps: Vec<Step> = Vec::new();
    steps.push(Step::AskUrl);
    let reg = CreatedRegistry::new("mine", registry_url);

    let library_crate = Crate::new("the-library", "1.0.0").add_registry(&reg).lib_rs(
        "pub const ID: u8 = 1;",
    );
    let library_crate_created = library_crate.created(scratch);
    steps.push(Step::Create(library_crate));
    steps.push(Step::Publish(library_crate_created.clone()));

    let usage_crate = Crate::new("the-binary", "0.1.0").add_registry(&reg).add_dependency(
        library_crate_created.in_registry(&reg),
    ).main_rs(
        "fn main() { assert_eq!(1, the_library::ID); }",
    );
    let run = usage_crate.created(scratch).cargo().basic_auth_credentials(
        &reg,
        USERNAME,
        PASSWORD,
    ).run().command();
    steps.push(Step::Create(usage_crate));
    steps.push(Step::Execute(run, Expectation::Success));
    assert(steps.deep_view() =~~= script);
    steps
}

} // verus!
