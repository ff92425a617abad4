use registry_conformance::{CreatedRegistry, Dependency2, DependencyDefinition, RegistryDefinition};

type Said<'a> = (&'a str, &'a str, Option<&'a str>, bool, Option<Vec<&'a str>>, Option<&'a str>);

fn said(dep: Dependency2<'_>) -> Said<'_> {
    (dep.name, dep.version, dep.registry, dep.optional, dep.features, dep.package)
}

#[test]
fn a_pair_says_name_and_version() {
    let dep = ("either", "1.0");
    assert_eq!(said(dep.finish()), ("either", "1.0", None, false, None, None));
    assert_eq!(said((&dep).finish()), ("either", "1.0", None, false, None, None));
    assert_eq!(dep.as_ref(), &dep);
}

#[test]
fn everything_that_is_said_counts() {
    let reg = CreatedRegistry::new("mine", "http://localhost");
    assert_eq!((reg.name(), reg.url()), ("mine", "http://localhost"));
    assert_eq!(((&reg).name(), (&reg).url()), ("mine", "http://localhost"));
    let dep = ("used", "1.0.0").in_registry(&reg).renamed_as("another").optional();
    assert_eq!(said(dep.finish()), ("another", "1.0.0", Some("mine"), true, None, Some("used")));
    let dep = ("used", "1.0.0").with_feature("a").in_registry(&reg).with_feature("b");
    assert_eq!(
        said(dep.finish()),
        ("used", "1.0.0", Some("mine"), false, Some(vec!["a", "b"]), None)
    );
}

#[test]
fn the_package_survives_a_second_renaming() {
    let dep = ("used", "1.0.0").renamed_as("first").renamed_as("second");
    assert_eq!(said(dep.finish()), ("second", "1.0.0", None, false, None, Some("used")));
}

#[test]
fn the_last_registry_counts() {
    let one = CreatedRegistry::new("one", "http://one");
    let two = CreatedRegistry::new("two", "http://two");
    let dep = ("used", "1.0.0").in_registry(&one).in_registry(&two).optional().optional();
    assert_eq!(said(dep.finish()), ("used", "1.0.0", Some("two"), true, None, None));
}

#[test]
fn the_order_of_sayings_does_not_matter() {
    let reg = CreatedRegistry::new("mine", "http://localhost");
    let a = ("used", "1.0.0").in_registry(&reg).renamed_as("x").optional().with_feature("f");
    let b = ("used", "1.0.0").with_feature("f").optional().renamed_as("x").in_registry(&reg);
    assert_eq!(said(a.finish()), said(b.finish()));
}
