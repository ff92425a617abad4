use registry_conformance::{
    Crate, CreateAction, CreateCrateError, CreateEvent, CreatedRegistry, DependencyDefinition,
    ScratchAction, ScratchSpace,
};
use std::collections::BTreeMap;

type Event = CreateEvent<&'static str, u8>;
type Action = CreateAction<&'static str, u8>;

fn space() -> ScratchSpace {
    let (mut stage, _) = ScratchSpace::new::<()>();
    loop {
        let (next, action) = stage.next::<()>(Ok(()));
        if let ScratchAction::Finish(result) = action {
            return result.unwrap();
        }
        stage = next;
    }
}

fn full() -> Crate {
    Crate::new("demo", "0.1.0")
        .main_rs("fn main() {}")
        .lib_rs("pub fn f() {}")
        .build_script("fn main() { }")
        .add_registry(CreatedRegistry::new("mine", "http://localhost"))
}

fn describe(action: &Action) -> String {
    match action {
        CreateAction::MakeDirectory(path) => format!("mkdir {}", path.parts.join("/")),
        CreateAction::SerializeManifest => "manifest".to_owned(),
        CreateAction::SerializeConfig => "config".to_owned(),
        CreateAction::Write(path, text) => format!("write {} {text:?}", path.parts.join("/")),
        CreateAction::Finish(Ok(created)) => format!("created {}", created.name()),
        CreateAction::Finish(Err(error)) => format!("{error:?}"),
    }
}

fn answer(action: &Action) -> Event {
    match action {
        CreateAction::SerializeManifest => CreateEvent::Serialized("[manifest]".to_owned()),
        CreateAction::SerializeConfig => CreateEvent::Serialized("[config]".to_owned()),
        _ => CreateEvent::Done,
    }
}

fn log(krate: Crate) -> Vec<String> {
    let (mut creation, mut action) = krate.create_in::<&'static str, u8>(&space());
    let mut log = Vec::new();
    loop {
        log.push(describe(&action));
        if let CreateAction::Finish(_) = action {
            assert!(creation.is_finished());
            return log;
        }
        assert!(!creation.is_finished());
        let event = answer(&action);
        (creation, action) = creation.next(event);
    }
}

#[test]
fn everything_is_written_in_order() {
    assert_eq!(
        log(full()),
        [
            "mkdir crates/demo/0.1.0",
            "manifest",
            "write crates/demo/0.1.0/Cargo.toml \"[manifest]\"",
            "mkdir crates/demo/0.1.0/.cargo",
            "config",
            "write crates/demo/0.1.0/.cargo/config.toml \"[config]\"",
            "mkdir crates/demo/0.1.0/src",
            "write crates/demo/0.1.0/src/lib.rs \"pub fn f() {}\"",
            "write crates/demo/0.1.0/src/main.rs \"fn main() {}\"",
            "write crates/demo/0.1.0/build.rs \"fn main() { }\"",
            "created demo",
        ]
    );
}

#[test]
fn what_is_not_there_is_not_written() {
    assert_eq!(
        log(Crate::new("empty", "1.2.3")),
        [
            "mkdir crates/empty/1.2.3",
            "manifest",
            "write crates/empty/1.2.3/Cargo.toml \"[manifest]\"",
            "created empty",
        ]
    );
}

fn write(krate: Crate, disk: &mut BTreeMap<String, String>) {
    let manifest = format!("manifest {}", krate.sources().len());
    let (mut creation, mut action) = krate.create_in::<&'static str, u8>(&space());
    loop {
        let event = match action {
            CreateAction::Finish(result) => {
                assert!(result.is_ok());
                return;
            }
            CreateAction::Write(path, text) => {
                disk.insert(path.parts.join("/"), text);
                CreateEvent::Done
            }
            CreateAction::SerializeManifest => CreateEvent::Serialized(manifest.clone()),
            other => answer(&other),
        };
        (creation, action) = creation.next(event);
    }
}

#[test]
fn a_second_write_keeps_what_it_does_not_define() {
    let mut disk = BTreeMap::new();
    write(Crate::new("demo", "0.2.0").lib_rs("other"), &mut disk);
    write(full(), &mut disk);
    write(Crate::new("demo", "0.1.0").main_rs("fn main() { second() }"), &mut disk);
    let files: Vec<(&str, &str)> = disk.iter().map(|(p, t)| (p.as_str(), t.as_str())).collect();
    assert_eq!(
        files,
        [
            ("crates/demo/0.1.0/.cargo/config.toml", "[config]"),
            ("crates/demo/0.1.0/Cargo.toml", "manifest 1"),
            ("crates/demo/0.1.0/build.rs", "fn main() { }"),
            ("crates/demo/0.1.0/src/lib.rs", "pub fn f() {}"),
            ("crates/demo/0.1.0/src/main.rs", "fn main() { second() }"),
            ("crates/demo/0.2.0/Cargo.toml", "manifest 1"),
            ("crates/demo/0.2.0/src/lib.rs", "other"),
        ]
    );
}

#[test]
fn what_was_created() {
    let created = full().created(&space());
    assert_eq!(created.name(), "demo");
    assert_eq!(created.version(), "0.1.0");
    assert_eq!(created.directory().parts, ["crates", "demo", "0.1.0"]);
    assert_eq!(created.cargo_home().parts, ["cargo-home"]);
    let other = Crate::new("demo", "0.2.0").created(&space());
    assert_ne!(created.directory().parts, other.directory().parts);
    let dep = created.finish();
    assert_eq!((dep.name, dep.version), ("demo", "0.1.0"));
}

#[test]
fn the_values_to_serialize_are_at_hand() {
    let (creation, _) = full().create_in::<(), ()>(&space());
    assert_eq!(creation.manifest().package.name, "demo");
    assert_eq!(creation.config().unwrap().registries.len(), 1);
}

fn error_at(steps: usize) -> CreateCrateError<&'static str, u8> {
    let (mut creation, mut action) = full().create_in::<&'static str, u8>(&space());
    for _ in 0..steps {
        let event = answer(&action);
        (creation, action) = creation.next(event);
    }
    let event = match action {
        CreateAction::SerializeManifest | CreateAction::SerializeConfig => {
            CreateEvent::NotSerialized(7)
        }
        _ => CreateEvent::Failed("disk"),
    };
    match creation.next(event) {
        (creation, CreateAction::Finish(Err(error))) => {
            assert!(creation.is_finished());
            error
        }
        other => panic!("unexpected: {other:?}"),
    }
}

fn shown(error: &CreateCrateError<&'static str, u8>) -> String {
    let path = error.path().map_or_else(String::new, |path| path.parts.join("/"));
    error.message(&path)
}

#[test]
fn a_failure_ends_the_writing() {
    let dir = "crates/demo/0.1.0";
    let e = error_at(0);
    assert!(matches!(e, CreateCrateError::CrateCreate { source: "disk", .. }));
    assert_eq!(shown(&e), format!("Could not create the crate directory {dir}"));
    let e = error_at(1);
    assert!(matches!(e, CreateCrateError::CargoTomlSerialize { source: 7 }));
    assert_eq!(shown(&e), "Could not serialize Cargo.toml");
    let e = error_at(2);
    assert!(matches!(e, CreateCrateError::CargoTomlWrite { source: "disk", .. }));
    assert_eq!(shown(&e), format!("Could not write Cargo.toml to {dir}/Cargo.toml"));
    let e = error_at(3);
    assert!(matches!(e, CreateCrateError::DotCargoCreate { source: "disk", .. }));
    assert_eq!(shown(&e), format!("Could not create the .cargo directory {dir}/.cargo"));
    let e = error_at(4);
    assert!(matches!(e, CreateCrateError::DotCargoConfigSerialize { source: 7 }));
    assert_eq!(shown(&e), "Could not serialize .cargo/config.toml");
    let e = error_at(5);
    assert!(matches!(e, CreateCrateError::DotCargoConfigWrite { source: "disk", .. }));
    assert_eq!(
        shown(&e),
        format!("Could not write .cargo/config.toml to {dir}/.cargo/config.toml")
    );
    let e = error_at(6);
    assert!(matches!(e, CreateCrateError::SrcCreate { source: "disk", .. }));
    assert_eq!(shown(&e), format!("Could not create the src directory {dir}/src"));
    let e = error_at(7);
    assert!(matches!(e, CreateCrateError::SourceCodeWrite { source: "disk", .. }));
    assert_eq!(shown(&e), format!("Could not write the source file {dir}/src/lib.rs"));
    let e = error_at(8);
    assert_eq!(shown(&e), format!("Could not write the source file {dir}/src/main.rs"));
    let e = error_at(9);
    assert!(matches!(e, CreateCrateError::BuildScriptWrite { source: "disk", .. }));
    assert_eq!(shown(&e), format!("Could not write the build script {dir}/build.rs"));
}
