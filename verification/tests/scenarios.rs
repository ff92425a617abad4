use registry_conformance::cargo_toml::{Dependencies, Dependency};
use registry_conformance::{
    CargoCommand, ConformanceTest, Crate, EnvValue, Expectation, ScratchAction, ScratchSpace, Step,
};

fn space() -> ScratchSpace {
    let (mut stage, _) = ScratchSpace::new::<()>();
    loop {
        let (next, action) = stage.next::<()>(Ok(()));
        if let ScratchAction::Finish(result) = action {
            return result.unwrap();
        }
        stage = next;
    }
}

fn dependency(name: &str, dep: &Dependency) -> String {
    let mut text = format!("{name}={}", dep.version);
    if let Some(registry) = &dep.registry {
        text += &format!(" in {registry}");
    }
    if dep.optional {
        text += " optional";
    }
    if let Some(features) = &dep.features {
        text += &format!(" with {}", features.join("+"));
    }
    if let Some(package) = &dep.package {
        text += &format!(" from {package}");
    }
    text
}

fn section(heading: &str, deps: &Dependencies) -> Vec<String> {
    (0..deps.len())
        .map(|i| format!("  {heading} {}", dependency(deps.name_at(i), deps.value_at(i))))
        .collect()
}

fn krate(krate: &Crate) -> Vec<String> {
    let manifest = krate.manifest();
    let package = &manifest.package;
    let mut lines = vec![format!("create {} {}", package.name, package.version)];
    if let Some(links) = &package.links {
        lines.push(format!("  links {links}"));
    }
    if let Some(version) = &package.rust_version {
        lines.push(format!("  rust {version}"));
    }
    lines.extend(section("uses", &manifest.dependencies));
    lines.extend(section("builds with", &manifest.build_dependencies));
    for i in 0..manifest.features.len() {
        let members = manifest.features.value_at(i).join("+");
        lines.push(format!("  feature {}={members}", manifest.features.name_at(i)));
    }
    for i in 0..manifest.target.len() {
        let heading = format!("on {} uses", manifest.target.name_at(i));
        lines.extend(section(&heading, &manifest.target.value_at(i).dependencies));
    }
    if let Some(config) = krate.config() {
        for i in 0..config.registries.len() {
            let registry = config.registries.value_at(i);
            lines.push(format!("  knows {} at {}", config.registries.name_at(i), registry.index));
        }
    }
    for i in 0..krate.sources().len() {
        lines.push(format!("  {}: {}", krate.sources().name_at(i), krate.sources().value_at(i)));
    }
    if let Some(script) = krate.build_rs() {
        lines.push(format!("  build.rs: {script}"));
    }
    lines
}

fn command(command: &CargoCommand, expectation: Expectation) -> String {
    let verb = match expectation {
        Expectation::Success => "succeeds",
        Expectation::Failure => "fails",
    };
    let mut text = format!(
        "{} in {} {verb}",
        [std::slice::from_ref(&command.program), &command.args].concat().join(" "),
        command.current_dir.parts.join("/"),
    );
    for (name, value) in &command.env[1..] {
        match value {
            EnvValue::Text(value) => text += &format!(" {name}={value}"),
            EnvValue::Path(path) => text += &format!(" {name}={}", path.parts.join("/")),
        }
    }
    text
}

fn lines(test: ConformanceTest) -> Vec<String> {
    let mut lines = Vec::new();
    for step in test.steps(&space(), "x86_64-unknown-linux-gnu", "http://here") {
        match step {
            Step::Create(it) => lines.extend(krate(&it)),
            Step::AskUrl => lines.push("ask".to_owned()),
            Step::Publish(it) => lines.push(format!("publish {} {}", it.name(), it.version())),
            Step::Execute(it, expectation) => lines.push(command(&it, expectation)),
            Step::CheckDownloads(count) => lines.push(format!("{count} downloads")),
        }
    }
    lines
}

const RUN: &str =
    "cargo run in crates/the-binary/0.1.0 succeeds RUSTUP_TOOLCHAIN=stable";

#[test]
fn names_of_every_length() {
    for (test, name) in [
        (ConformanceTest::NameLength1, "a"),
        (ConformanceTest::NameLength2, "ab"),
        (ConformanceTest::NameLength3, "abc"),
        (ConformanceTest::NameLength4, "abcd"),
    ] {
        assert_eq!(
            lines(test),
            [
                &format!("create {name} 0.1.0"),
                "  lib.rs: pub fn add(a: u8, b: u8) -> u8 { a + b }",
                "ask",
                &format!("publish {name} 0.1.0"),
                "create the-binary 0.1.0",
                &format!("  uses {name}=0.1.0 in mine"),
                "  knows mine at http://here",
                &format!("  main.rs: fn main() {{ assert_eq!(3, {name}::add(1, 2)); }}"),
                RUN,
            ]
        );
    }
}

#[test]
fn siblings() {
    assert_eq!(
        lines(ConformanceTest::MultipleSiblingDependencies),
        [
            "create left 0.1.0",
            "  lib.rs: pub fn add(a: u8, b: u8) -> u8 { a + b }",
            "publish left 0.1.0",
            "create right 0.2.0",
            "  lib.rs: pub fn mul(a: u8, b: u8) -> u8 { a * b }",
            "publish right 0.2.0",
            "ask",
            "create the-binary 0.1.0",
            "  uses left=0.1.0 in mine",
            "  uses right=0.2.0 in mine",
            "  knows mine at http://here",
            "  main.rs: fn main() { assert_eq!(7, left::add(1, right::mul(2, 3))); }",
            RUN,
        ]
    );
}

#[test]
fn a_hierarchy() {
    assert_eq!(
        lines(ConformanceTest::MultipleHierarchicalDependencies),
        [
            "ask",
            "create two 0.1.0",
            "  lib.rs: pub fn add(a: u8, b: u8) -> u8 { a + b }",
            "publish two 0.1.0",
            "create one 0.2.0",
            "  uses two=0.1.0 in mine",
            "  knows mine at http://here",
            "  lib.rs: pub fn triple(a: u8) -> u8 { two::add(a, two::add(a, a)) }",
            "publish one 0.2.0",
            "create the-binary 0.1.0",
            "  uses one=0.2.0 in mine",
            "  knows mine at http://here",
            "  main.rs: fn main() { assert_eq!(9, one::triple(3)); }",
            RUN,
        ]
    );
}

#[test]
fn across_registries() {
    let either = "pub fn iter(c: bool) -> impl Iterator<Item = u8> {
                 if c {
                     either::Either::Left([1u8].into_iter())
                 } else {
                     either::Either::Right([2u8, 3].into_iter())
                 }
             }";
    assert_eq!(
        lines(ConformanceTest::CrossRegistryDependencies),
        [
            "ask",
            "create the-library 0.2.0",
            "  uses either=1.0",
            &format!("  lib.rs: {either}"),
            "publish the-library 0.2.0",
            "create the-binary 0.1.0",
            "  uses the-library=0.2.0 in mine",
            "  knows mine at http://here",
            "  main.rs: fn main() { assert_eq!(2, the_library::iter(false).count()); }",
            RUN,
        ]
    );
}

#[test]
fn unification() {
    assert_eq!(
        lines(ConformanceTest::CratesIoDependenciesUnify),
        [
            "ask",
            "create the-library 0.2.0",
            "  uses either=1.0",
            "  lib.rs: pub fn consume(_: either::Either<(), ()>) {}",
            "publish the-library 0.2.0",
            "create the-binary 0.1.0",
            "  uses either=1.0",
            "  uses the-library=0.2.0 in mine",
            "  knows mine at http://here",
            "  main.rs: fn main() { the_library::consume(either::Either::Left(())); }",
            RUN,
        ]
    );
}

#[test]
fn two_versions() {
    assert_eq!(
        lines(ConformanceTest::MultipleVersions),
        [
            "ask",
            "create the-library 1.0.0",
            "  lib.rs: pub const VERSION: u8 = 1;",
            "publish the-library 1.0.0",
            "create the-library 2.0.0",
            "  lib.rs: pub const VERSION: u8 = 2;",
            "publish the-library 2.0.0",
            "create the-binary 0.1.0",
            "  uses the-library=1.0.0 in mine",
            "  knows mine at http://here",
            "  main.rs: fn main() { assert_eq!(1, the_library::VERSION); }",
            RUN,
            "create the-binary 0.1.0",
            "  uses the-library=2.0.0 in mine",
            "  knows mine at http://here",
            "  main.rs: fn main() { assert_eq!(2, the_library::VERSION); }",
            RUN,
        ]
    );
}

#[test]
fn links_in_conflict() {
    assert_eq!(
        lines(ConformanceTest::ConflictingLinks),
        [
            "ask",
            "create conflict-one 1.0.0",
            "  links native-library",
            "  lib.rs: pub const ID: u8 = 1;",
            "  build.rs: fn main() {}",
            "publish conflict-one 1.0.0",
            "create conflict-two 1.0.0",
            "  links native-library",
            "  lib.rs: pub const ID: u8 = 2;",
            "  build.rs: fn main() {}",
            "publish conflict-two 1.0.0",
            "create the-binary 0.1.0",
            "  uses conflict-one=1.0.0 in mine",
            "  uses conflict-two=1.0.0 in mine",
            "  knows mine at http://here",
            "  main.rs: fn main() {}",
            "cargo run in crates/the-binary/0.1.0 fails RUSTUP_TOOLCHAIN=stable",
            "0 downloads",
        ]
    );
}

#[test]
fn rust_versions() {
    assert_eq!(
        lines(ConformanceTest::MinimumVersion),
        [
            "ask",
            "create from-the-future 1.0.0",
            "  rust 1.56",
            "  lib.rs: pub const ID: u16 = 56;",
            "publish from-the-future 1.0.0",
            "create from-the-future 1.1.0",
            "  rust 1.1111",
            "  lib.rs: pub const ID: u16 = 1111;",
            "publish from-the-future 1.1.0",
            "create the-binary 0.1.0",
            "  uses from-the-future=1.0.0 in mine",
            "  knows mine at http://here",
            "  main.rs: fn main() { assert_eq!(56, from_the_future::ID); }",
            "cargo run -Zmsrv-policy in crates/the-binary/0.1.0 succeeds \
             RUSTUP_TOOLCHAIN=nightly \
             CARGO_RESOLVER_SOMETHING_LIKE_PRECEDENCE=something-like-rust-version",
        ]
    );
}

const USES_ID: &str = "  main.rs: fn main() { assert_eq!(1, the_library::ID); }";

#[test]
fn optional_but_unused() {
    assert_eq!(
        lines(ConformanceTest::OptionalDependencyUnused),
        [
            "ask",
            "create unused 1.0.0",
            "  lib.rs: const _: () = panic!();",
            "publish unused 1.0.0",
            "create the-library 1.0.0",
            "  uses unused=1.0.0 in mine optional",
            "  knows mine at http://here",
            "  lib.rs: pub const ID: u8 = 1;",
            "publish the-library 1.0.0",
            "create the-binary 0.1.0",
            "  uses the-library=1.0.0 in mine",
            "  knows mine at http://here",
            USES_ID,
            RUN,
            "1 downloads",
        ]
    );
}

#[test]
fn optional_and_used() {
    for (test, dependency, feature, features) in [
        (
            ConformanceTest::OptionalDependencyUsedImplicit,
            "used=1.0.0 in mine optional",
            "used",
            None,
        ),
        (
            ConformanceTest::OptionalDependencyUsedImplicitRenamed,
            "another=1.0.0 in mine optional from used",
            "another",
            None,
        ),
        (
            ConformanceTest::OptionalDependencyUsedExplicit,
            "used=1.0.0 in mine optional",
            "my-feature",
            Some("  feature my-feature=dep:used".to_owned()),
        ),
    ] {
        let (name, _) = dependency.split_once('=').unwrap();
        let mut expected = vec![
            "ask".to_owned(),
            "create used 1.0.0".to_owned(),
            "  lib.rs: pub const ID: u8 = 1;".to_owned(),
            "publish used 1.0.0".to_owned(),
            "create the-library 1.0.0".to_owned(),
            format!("  uses {dependency}"),
        ];
        expected.extend(features);
        expected.extend([
            "  knows mine at http://here".to_owned(),
            format!("  lib.rs: pub use {name}::ID;"),
            "publish the-library 1.0.0".to_owned(),
            "create the-binary 0.1.0".to_owned(),
            format!("  uses the-library=1.0.0 in mine with {feature}"),
            "  knows mine at http://here".to_owned(),
            USES_ID.to_owned(),
            RUN.to_owned(),
            "2 downloads".to_owned(),
        ]);
        assert_eq!(lines(test), expected);
    }
}

#[test]
fn for_one_target() {
    for (test, name, target, used, library, downloads) in [
        (
            ConformanceTest::PlatformSpecificDependencyUnused,
            "not-this-platform",
            "not-a-real-target",
            "const _: () = panic!();",
            "pub const ID: u8 = 1;",
            1,
        ),
        (
            ConformanceTest::PlatformSpecificDependencyUsed,
            "this-platform",
            "x86_64-unknown-linux-gnu",
            "pub const ID: u8 = 1;",
            "pub use this_platform::ID;",
            2,
        ),
    ] {
        assert_eq!(
            lines(test),
            [
                "ask",
                &format!("create {name} 1.0.0"),
                &format!("  lib.rs: {used}"),
                &format!("publish {name} 1.0.0"),
                "create the-library 1.0.0",
                &format!("  on {target} uses {name}=1.0.0 in mine"),
                "  knows mine at http://here",
                &format!("  lib.rs: {library}"),
                "publish the-library 1.0.0",
                "create the-binary 0.1.0",
                "  uses the-library=1.0.0 in mine",
                "  knows mine at http://here",
                USES_ID,
                RUN,
                &format!("{downloads} downloads"),
            ]
        );
    }
}

#[test]
fn for_the_build_only() {
    assert_eq!(
        lines(ConformanceTest::BuildOnlyDependency),
        [
            "ask",
            "create only-for-build 1.0.0",
            "  lib.rs: pub const BUILD_ID: u8 = 1;",
            "publish only-for-build 1.0.0",
            "create the-library 1.0.0",
            "  builds with only-for-build=1.0.0 in mine",
            "  knows mine at http://here",
            r#"  lib.rs: pub const ID: &str = env!("BUILD_ID_2");"#,
            r#"  build.rs: fn main() { println!("cargo::rustc-env=BUILD_ID_2={}", only_for_build::BUILD_ID); }"#,
            "publish the-library 1.0.0",
            "create the-binary 0.1.0",
            "  uses the-library=1.0.0 in mine",
            "  knows mine at http://here",
            r#"  main.rs: fn main() { assert_eq!("1", the_library::ID); }"#,
            RUN,
            "2 downloads",
        ]
    );
}

#[test]
fn behind_a_login() {
    assert_eq!(
        lines(ConformanceTest::AuthorizationRequired),
        [
            "ask",
            "create the-library 1.0.0",
            "  knows mine at http://here",
            "  lib.rs: pub const ID: u8 = 1;",
            "publish the-library 1.0.0",
            "create the-binary 0.1.0",
            "  uses the-library=1.0.0 in mine",
            "  knows mine at http://here",
            USES_ID,
            "cargo run in crates/the-binary/0.1.0 succeeds RUSTUP_TOOLCHAIN=stable \
             CARGO_REGISTRIES_MINE_TOKEN=Basic YWRtaW46YmFzZWJhbGwxMjM=",
        ]
    );
    assert_eq!(
        ConformanceTest::AuthorizationRequired.setup(),
        Some(("admin", "baseball123"))
    );
    assert_eq!(ConformanceTest::MultipleVersions.setup(), None);
}

#[test]
fn cargo_keeps_its_files_in_the_scratch_space() {
    for test in ConformanceTest::all() {
        for step in test.steps(&space(), "target", "http://here") {
            if let Step::Execute(command, _) = step {
                assert_eq!(command.env[0].0, "CARGO_HOME");
                let EnvValue::Path(path) = &command.env[0].1 else {
                    panic!("the home of Cargo is a path");
                };
                assert_eq!(path.parts, ["cargo-home"]);
            }
        }
    }
}

#[test]
fn the_target_matters_to_one_test() {
    for test in ConformanceTest::all() {
        assert_eq!(
            test.depends_on_target(),
            test == ConformanceTest::PlatformSpecificDependencyUsed
        );
    }
}
