use registry_conformance::cargo_toml::{Dependencies, Dependency};
use registry_conformance::{Crate, CreatedRegistry, DependencyDefinition};

fn names(deps: &Dependencies) -> Vec<String> {
    (0..deps.len()).map(|i| deps.name_at(i).to_owned()).collect()
}

fn entry(dep: &Dependency) -> (&str, Option<&str>, bool, Option<Vec<String>>, Option<&str>) {
    (
        dep.version.as_str(),
        dep.registry.as_deref(),
        dep.optional,
        dep.features.clone(),
        dep.package.as_deref(),
    )
}

#[test]
fn a_new_crate_has_little() {
    let krate = Crate::new("left", "0.1.0");
    let manifest = krate.manifest();
    assert_eq!(manifest.package.name, "left");
    assert_eq!(manifest.package.version, "0.1.0");
    assert_eq!(manifest.package.edition, "2021");
    assert_eq!(manifest.package.links, None);
    assert_eq!(manifest.package.rust_version, None);
    assert_eq!(manifest.dependencies.len(), 0);
    assert_eq!(manifest.build_dependencies.len(), 0);
    assert_eq!(manifest.features.len(), 0);
    assert_eq!(manifest.target.len(), 0);
    assert_eq!(krate.sources().len(), 0);
    assert!(krate.config().is_none());
    assert_eq!(krate.build_rs(), None);
}

#[test]
fn builders_fill_in_the_crate() {
    let reg = CreatedRegistry::new("mine", "http://localhost/index");
    let krate = Crate::new("the-library", "1.0.0")
        .main_rs("fn main() {}")
        .lib_rs("pub use used::ID;")
        .add_registry(&reg)
        .add_dependency(("used", "1.0.0").in_registry(&reg).optional().with_feature("f"))
        .add_build_dependency(("tool", "2.0").renamed_as("builder"))
        .add_feature("my-feature", &["dep:used", "std"])
        .links("native-library")
        .build_script("fn main() { }")
        .rust_version("1.56");
    let manifest = krate.manifest();
    assert_eq!(manifest.package.links.as_deref(), Some("native-library"));
    assert_eq!(manifest.package.rust_version.as_deref(), Some("1.56"));
    assert_eq!(
        entry(manifest.dependencies.get("used").unwrap()),
        ("1.0.0", Some("mine"), true, Some(vec!["f".to_owned()]), None)
    );
    assert_eq!(
        entry(manifest.build_dependencies.get("builder").unwrap()),
        ("2.0", None, false, None, Some("tool"))
    );
    assert_eq!(manifest.features.get("my-feature").unwrap(), &["dep:used", "std"]);
    let config = krate.config().unwrap();
    assert_eq!(config.registries.len(), 1);
    let mine = config.registries.get("mine").unwrap();
    assert_eq!(mine.index, "http://localhost/index");
    assert_eq!(mine.credential_provider, ["cargo:token"]);
    assert_eq!(krate.sources().name_at(0), "lib.rs");
    assert_eq!(krate.sources().value_at(0), "pub use used::ID;");
    assert_eq!(krate.sources().name_at(1), "main.rs");
    assert_eq!(krate.sources().value_at(1), "fn main() {}");
    assert_eq!(krate.build_rs(), Some("fn main() { }"));
}

#[test]
fn a_later_dependency_replaces_an_earlier_one() {
    let krate = Crate::new("a", "1.0.0")
        .add_dependency(("x", "1.0"))
        .add_dependency(("w", "1.0"))
        .add_dependency(("x", "2.0").optional());
    let deps = &krate.manifest().dependencies;
    assert_eq!(names(deps), ["w", "x"]);
    assert_eq!(entry(deps.get("x").unwrap()), ("2.0", None, true, None, None));
}

#[test]
fn dependencies_of_a_target_add_up() {
    let krate = Crate::new("a", "1.0.0")
        .add_target_dependency("t1", ("x", "1.0"))
        .add_target_dependency("t2", ("z", "1.0"))
        .add_target_dependency("t1", ("y", "1.0"));
    let target = &krate.manifest().target;
    assert_eq!(names(&target.get("t1").unwrap().dependencies), ["x", "y"]);
    assert_eq!(names(&target.get("t2").unwrap().dependencies), ["z"]);
    assert!(target.get("t3").is_none());
}

#[test]
fn a_later_registry_replaces_an_earlier_one() {
    let krate = Crate::new("a", "1.0.0")
        .add_registry(CreatedRegistry::new("mine", "http://one"))
        .add_registry(CreatedRegistry::new("mine", "http://two"));
    let registries = &krate.config().unwrap().registries;
    assert_eq!(registries.len(), 1);
    assert_eq!(registries.get("mine").unwrap().index, "http://two");
}
