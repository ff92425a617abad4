//! What holds of everything that is said of a crate and of its dependencies.
use vstd::prelude::*;

#[allow(unused_imports)]
use crate::cargo_toml;
#[allow(unused_imports)]
use crate::crates::CrateModel;
#[allow(unused_imports)]
use crate::creation::CreatedCrate;
#[allow(unused_imports)]
use crate::definition::{
    CreatedRegistry, Dependency2, DependencyDefinition, DependencyModel, InRegistry, Optional,
    RegistryDefinition, RenamedAs, WithFeature,
};
#[allow(unused_imports)]
use crate::dotcargo_config;
#[allow(unused_imports)]
use crate::scratch_path::ScratchPath;

verus! {

/// Naming a registry settles where a dependency is found, and nothing else.
pub proof fn a_registry_says_where<D: DependencyDefinition, R: RegistryDefinition>(dep: D, reg: R)
    ensures
        InRegistry(dep, reg).described().registry == Some(reg.registry_name()),
        InRegistry(dep, reg).described().name == dep.described().name,
        InRegistry(dep, reg).described().version == dep.described().version,
        InRegistry(dep, reg).described().optional == dep.described().optional,
        InRegistry(dep, reg).described().features == dep.described().features,
        InRegistry(dep, reg).described().package == dep.described().package,
{
}

/// A new name is used for the dependency from then on. What is depended on is
/// still the package that was meant without any new name.
pub proof fn a_new_name_is_used<D: DependencyDefinition>(dep: D, name: String)
    ensures
        RenamedAs(dep, name).described().name == name@,
        dep.described().package is None ==> RenamedAs(dep, name).described().package == Some(
            dep.described().name,
        ),
        dep.described().package is Some ==> RenamedAs(dep, name).described().package
            == dep.described().package,
        RenamedAs(dep, name).described().version == dep.described().version,
        RenamedAs(dep, name).described().registry == dep.described().registry,
        RenamedAs(dep, name).described().optional == dep.described().optional,
        RenamedAs(dep, name).described().features == dep.described().features,
{
}

/// A dependency that is made optional is otherwise what it was.
pub proof fn optional_says_no_more<D: DependencyDefinition>(dep: D)
    ensures
        Optional(dep).described().optional,
        Optional(dep).described().name == dep.described().name,
        Optional(dep).described().version == dep.described().version,
        Optional(dep).described().registry == dep.described().registry,
        Optional(dep).described().features == dep.described().features,
        Optional(dep).described().package == dep.described().package,
{
}

/// A feature comes behind those that were switched on before, and nothing else
/// changes.
pub proof fn a_feature_comes_last<D: DependencyDefinition>(dep: D, feature: String)
    ensures
        WithFeature(dep, feature).described().features is Some,
        WithFeature(dep, feature).described().features->0.len() > 0,
        WithFeature(dep, feature).described().features->0.last() == feature@,
        dep.described().features is None ==> WithFeature(dep, feature).described().features->0.len()
            == 1,
        dep.described().features matches Some(features) ==> WithFeature(
            dep,
            feature,
        ).described().features->0.drop_last() == features,
        WithFeature(dep, feature).described().name == dep.described().name,
        WithFeature(dep, feature).described().version == dep.described().version,
        WithFeature(dep, feature).described().registry == dep.described().registry,
        WithFeature(dep, feature).described().optional == dep.described().optional,
        WithFeature(dep, feature).described().package == dep.described().package,
{
    if dep.described().features is Some {
        let features = dep.described().features->0;
        assert(features.push(feature@).drop_last() =~= features);
    }
}

/// A name with a version says that and nothing more, and a reference to a
/// definition says what the definition says.
pub proof fn a_pair_says_name_and_version<'a, D: DependencyDefinition, R: RegistryDefinition>(
    pair: (&'a str, &'a str),
    dep: &'a D,
    reg: &'a R,
    named: CreatedRegistry,
)
    ensures
        pair.described().name == pair.0@,
        pair.described().version == pair.1@,
        pair.described().registry is None,
        !pair.described().optional,
        pair.described().features is None,
        pair.described().package is None,
        (&dep).described() == dep.described(),
        (&reg).registry_name() == reg.registry_name(),
        (&reg).registry_url() == reg.registry_url(),
        named.registry_name() == named.name@,
        named.registry_url() == named.url@,
{
}

/// Depending on a crate is depending on its name and its version.
pub proof fn a_crate_is_depended_on_by_name(krate: CreatedCrate)
    ensures
        krate.described().name == krate.deep_view().name,
        krate.described().version == krate.deep_view().version,
        krate.described().registry is None,
        !krate.described().optional,
        krate.described().features is None,
        krate.described().package is None,
{
}

/// A finished dependency shows every one of its fields.
pub proof fn dependencies_show_every_field<'a>(dep: Dependency2<'a>)
    ensures
        dep.deep_view().name == dep.name@,
        dep.deep_view().version == dep.version@,
        dep.deep_view().optional == dep.optional,
        dep.deep_view().registry is Some <==> dep.registry is Some,
        dep.registry matches Some(registry) ==> dep.deep_view().registry == Some(registry@),
        dep.deep_view().package is Some <==> dep.package is Some,
        dep.package matches Some(package) ==> dep.deep_view().package == Some(package@),
        dep.deep_view().features is Some <==> dep.features is Some,
        dep.features matches Some(features) ==> {
            &&& dep.deep_view().features->0.len() == features@.len()
            &&& forall|i: int|
                0 <= i < features@.len() ==> #[trigger] dep.deep_view().features->0[i]
                    == features@[i]@
        },
{
}

/// A new crate has its name, its version and the edition, and nothing else.
pub proof fn a_new_crate_is_bare(name: Seq<char>, version: Seq<char>, key: Seq<char>)
    ensures
        CrateModel::new(name, version).manifest.package.name == name,
        CrateModel::new(name, version).manifest.package.version == version,
        CrateModel::new(name, version).manifest.package.edition == "2021"@,
        CrateModel::new(name, version).manifest.package.links is None,
        CrateModel::new(name, version).manifest.package.rust_version is None,
        !CrateModel::new(name, version).manifest.dependencies.contains_key(key),
        !CrateModel::new(name, version).manifest.build_dependencies.contains_key(key),
        !CrateModel::new(name, version).manifest.features.contains_key(key),
        !CrateModel::new(name, version).manifest.target.contains_key(key),
        !CrateModel::new(name, version).src.contains_key(key),
        CrateModel::new(name, version).config is None,
        CrateModel::new(name, version).build_script is None,
{
}

/// Setting one source file leaves every other one as it was, and the rest of the
/// crate too. The two files can be set in either order.
pub proof fn source_files_are_set_one_by_one(
    krate: CrateModel,
    library: Seq<char>,
    program: Seq<char>,
    name: Seq<char>,
)
    ensures
        krate.lib_rs(library).src.contains_key("lib.rs"@),
        krate.lib_rs(library).src["lib.rs"@] == library,
        name != "lib.rs"@ ==> krate.lib_rs(library).src.contains_key(name)
            == krate.src.contains_key(name) && krate.lib_rs(library).src[name] == krate.src[name],
        krate.main_rs(program).src.contains_key("main.rs"@),
        krate.main_rs(program).src["main.rs"@] == program,
        name != "main.rs"@ ==> krate.main_rs(program).src.contains_key(name)
            == krate.src.contains_key(name) && krate.main_rs(program).src[name] == krate.src[name],
        krate.lib_rs(library).main_rs(program) == krate.main_rs(program).lib_rs(library),
        krate.lib_rs(library).manifest == krate.manifest,
        krate.lib_rs(library).config == krate.config,
        krate.lib_rs(library).build_script == krate.build_script,
        krate.main_rs(program).manifest == krate.manifest,
        krate.main_rs(program).config == krate.config,
        krate.main_rs(program).build_script == krate.build_script,
{
    reveal_strlit("lib.rs");
    reveal_strlit("main.rs");
    assert("lib.rs"@.len() != "main.rs"@.len());
    assert(krate.lib_rs(library).main_rs(program).src =~= krate.main_rs(program).lib_rs(
        library,
    ).src);
}

/// A crate that is told about a registry knows it by its name, where it is and
/// that Cargo hands out the token. It still knows the registries of other names,
/// and is otherwise what it was.
pub proof fn registries_are_told_one_by_one(
    krate: CrateModel,
    name: Seq<char>,
    url: Seq<char>,
    other: Seq<char>,
)
    ensures
        krate.add_registry(name, url).config is Some,
        krate.add_registry(name, url).config->0.contains_key(name),
        krate.add_registry(name, url).config->0[name].index == url,
        krate.add_registry(name, url).config->0[name].credential_provider == seq!["cargo:token"@],
        other != name ==> {
            let known = krate.config is Some && krate.config->0.contains_key(other);
            &&& krate.add_registry(name, url).config->0.contains_key(other) == known
            &&& known ==> krate.add_registry(name, url).config->0[other] == krate.config->0[other]
        },
        krate.add_registry(name, url).manifest == krate.manifest,
        krate.add_registry(name, url).src == krate.src,
        krate.add_registry(name, url).build_script == krate.build_script,
{
}

/// What a section says of a dependency is what was said of the dependency.
pub proof fn entries_say_what_was_said(dep: DependencyModel)
    ensures
        dep.entry().version == dep.version,
        dep.entry().registry == dep.registry,
        dep.entry().optional == dep.optional,
        dep.entry().features == dep.features,
        dep.entry().package == dep.package,
{
}

/// An added dependency stands in its section under its name with everything that
/// was said of it. The other dependencies of the section stay, and so does the
/// rest of the crate. Build dependencies and those of a target get the same entry
/// as ordinary ones.
pub proof fn a_dependency_stands_in_its_section(
    krate: CrateModel,
    dep: DependencyModel,
    other: Seq<char>,
)
    ensures
        ({
            let before = krate.manifest.dependencies;
            let after = krate.add_dependency(dep).manifest.dependencies;
            &&& after.contains_key(dep.name)
            &&& after[dep.name].version == dep.version
            &&& after[dep.name].registry == dep.registry
            &&& after[dep.name].optional == dep.optional
            &&& after[dep.name].features == dep.features
            &&& after[dep.name].package == dep.package
            &&& other != dep.name ==> after.contains_key(other) == before.contains_key(other)
                && after[other] == before[other]
        }),
        ({
            let before = krate.manifest.build_dependencies;
            let after = krate.add_build_dependency(dep).manifest.build_dependencies;
            &&& after.contains_key(dep.name)
            &&& after[dep.name].version == dep.version
            &&& after[dep.name].registry == dep.registry
            &&& after[dep.name].optional == dep.optional
            &&& after[dep.name].features == dep.features
            &&& after[dep.name].package == dep.package
            &&& other != dep.name ==> after.contains_key(other) == before.contains_key(other)
                && after[other] == before[other]
        }),
        krate.add_dependency(dep).manifest.package == krate.manifest.package,
        krate.add_dependency(dep).manifest.build_dependencies == krate.manifest.build_dependencies,
        krate.add_dependency(dep).manifest.features == krate.manifest.features,
        krate.add_dependency(dep).manifest.target == krate.manifest.target,
        krate.add_dependency(dep).src == krate.src,
        krate.add_dependency(dep).config == krate.config,
        krate.add_dependency(dep).build_script == krate.build_script,
        krate.add_build_dependency(dep).manifest.package == krate.manifest.package,
        krate.add_build_dependency(dep).manifest.dependencies == krate.manifest.dependencies,
        krate.add_build_dependency(dep).manifest.features == krate.manifest.features,
        krate.add_build_dependency(dep).manifest.target == krate.manifest.target,
        krate.add_build_dependency(dep).src == krate.src,
        krate.add_build_dependency(dep).config == krate.config,
        krate.add_build_dependency(dep).build_script == krate.build_script,
{
}

/// A dependency for one target stands in that target's section with everything
/// that was said of it, beside those that were there, and the rest of the crate
/// stays.
pub proof fn a_target_has_a_section_of_its_own(
    krate: CrateModel,
    target: Seq<char>,
    dep: DependencyModel,
    other: Seq<char>,
)
    ensures
        ({
            let known = krate.manifest.target.contains_key(target);
            let before = krate.manifest.target[target].dependencies;
            let sections = krate.add_target_dependency(target, dep).manifest.target;
            let after = sections[target].dependencies;
            &&& sections.contains_key(target)
            &&& after.contains_key(dep.name)
            &&& after[dep.name].version == dep.version
            &&& after[dep.name].registry == dep.registry
            &&& after[dep.name].optional == dep.optional
            &&& after[dep.name].features == dep.features
            &&& after[dep.name].package == dep.package
            &&& other != dep.name ==> after.contains_key(other) == (known && before.contains_key(
                other,
            ))
            &&& other != dep.name && known && before.contains_key(other) ==> after[other]
                == before[other]
            &&& other != target ==> sections.contains_key(other)
                == krate.manifest.target.contains_key(other) && sections[other]
                == krate.manifest.target[other]
        }),
        krate.add_target_dependency(target, dep).manifest.package == krate.manifest.package,
        krate.add_target_dependency(target, dep).manifest.dependencies
            == krate.manifest.dependencies,
        krate.add_target_dependency(target, dep).manifest.build_dependencies
            == krate.manifest.build_dependencies,
        krate.add_target_dependency(target, dep).manifest.features == krate.manifest.features,
        krate.add_target_dependency(target, dep).src == krate.src,
        krate.add_target_dependency(target, dep).config == krate.config,
        krate.add_target_dependency(target, dep).build_script == krate.build_script,
{
}

/// A feature stands under its name with its members in order. Other features and
/// the rest of the crate stay.
pub proof fn features_are_added_one_by_one(
    krate: CrateModel,
    name: Seq<char>,
    members: Seq<Seq<char>>,
    other: Seq<char>,
)
    ensures
        krate.add_feature(name, members).manifest.features.contains_key(name),
        krate.add_feature(name, members).manifest.features[name] == members,
        other != name ==> krate.add_feature(name, members).manifest.features.contains_key(other)
            == krate.manifest.features.contains_key(other) && krate.add_feature(
            name,
            members,
        ).manifest.features[other] == krate.manifest.features[other],
        krate.add_feature(name, members).manifest.package == krate.manifest.package,
        krate.add_feature(name, members).manifest.dependencies == krate.manifest.dependencies,
        krate.add_feature(name, members).manifest.build_dependencies
            == krate.manifest.build_dependencies,
        krate.add_feature(name, members).manifest.target == krate.manifest.target,
        krate.add_feature(name, members).src == krate.src,
        krate.add_feature(name, members).config == krate.config,
        krate.add_feature(name, members).build_script == krate.build_script,
{
}

/// The native library, the build script and the version of Rust are each set on
/// their own: the last one that is said counts, and everything else stays.
pub proof fn single_values_are_set_alone(krate: CrateModel, text: Seq<char>)
    ensures
        krate.links(text).manifest.package.links == Some(text),
        krate.links(text).manifest.package.name == krate.manifest.package.name,
        krate.links(text).manifest.package.version == krate.manifest.package.version,
        krate.links(text).manifest.package.edition == krate.manifest.package.edition,
        krate.links(text).manifest.package.rust_version == krate.manifest.package.rust_version,
        krate.links(text).manifest.dependencies == krate.manifest.dependencies,
        krate.links(text).manifest.build_dependencies == krate.manifest.build_dependencies,
        krate.links(text).manifest.features == krate.manifest.features,
        krate.links(text).manifest.target == krate.manifest.target,
        krate.links(text).src == krate.src,
        krate.links(text).config == krate.config,
        krate.links(text).build_script == krate.build_script,
        krate.build_script(text).build_script == Some(text),
        krate.build_script(text).manifest == krate.manifest,
        krate.build_script(text).src == krate.src,
        krate.build_script(text).config == krate.config,
        krate.rust_version(text).manifest.package.rust_version == Some(text),
        krate.rust_version(text).manifest.package.name == krate.manifest.package.name,
        krate.rust_version(text).manifest.package.version == krate.manifest.package.version,
        krate.rust_version(text).manifest.package.edition == krate.manifest.package.edition,
        krate.rust_version(text).manifest.package.links == krate.manifest.package.links,
        krate.rust_version(text).manifest.dependencies == krate.manifest.dependencies,
        krate.rust_version(text).manifest.build_dependencies == krate.manifest.build_dependencies,
        krate.rust_version(text).manifest.features == krate.manifest.features,
        krate.rust_version(text).manifest.target == krate.manifest.target,
        krate.rust_version(text).src == krate.src,
        krate.rust_version(text).config == krate.config,
        krate.rust_version(text).build_script == krate.build_script,
{
}

/// A manifest shows every one of its fields.
pub proof fn manifests_show_every_field(root: cargo_toml::Root)
    ensures
        root.deep_view().package.name == root.package.name@,
        root.deep_view().package.version == root.package.version@,
        root.deep_view().package.edition == root.package.edition@,
        root.deep_view().package.links is Some <==> root.package.links is Some,
        root.package.links matches Some(links) ==> root.deep_view().package.links == Some(links@),
        root.deep_view().package.rust_version is Some <==> root.package.rust_version is Some,
        root.package.rust_version matches Some(rust) ==> root.deep_view().package.rust_version
            == Some(rust@),
        root.deep_view().dependencies == root.dependencies.deep_view(),
        root.deep_view().build_dependencies == root.build_dependencies.deep_view(),
        root.deep_view().features == root.features.deep_view(),
        root.deep_view().target == root.target.deep_view(),
{
}

/// An entry of a dependency section shows every one of its fields.
pub proof fn entries_show_every_field(dep: cargo_toml::Dependency, target: cargo_toml::Target)
    ensures
        dep.deep_view().version == dep.version@,
        dep.deep_view().optional == dep.optional,
        dep.deep_view().registry is Some <==> dep.registry is Some,
        dep.registry matches Some(registry) ==> dep.deep_view().registry == Some(registry@),
        dep.deep_view().package is Some <==> dep.package is Some,
        dep.package matches Some(package) ==> dep.deep_view().package == Some(package@),
        dep.deep_view().features is Some <==> dep.features is Some,
        dep.features matches Some(features) ==> {
            &&& dep.deep_view().features->0.len() == features@.len()
            &&& forall|i: int|
                0 <= i < features@.len() ==> #[trigger] dep.deep_view().features->0[i]
                    == features@[i]@
        },
        target.deep_view().dependencies == target.dependencies.deep_view(),
{
}

/// A configuration shows every registry, and a registry both of its fields.
pub proof fn configurations_show_every_field(
    root: dotcargo_config::Root,
    registry: dotcargo_config::Registry,
)
    ensures
        root.deep_view() == root.registries.deep_view(),
        registry.deep_view().index == registry.index@,
        registry.deep_view().credential_provider.len() == registry.credential_provider@.len(),
        forall|i: int|
            0 <= i < registry.credential_provider@.len() ==> #[trigger]
                registry.deep_view().credential_provider[i] == registry.credential_provider@[i]@,
{
}

/// A path shows its parts in order.
pub proof fn paths_show_their_parts(path: ScratchPath)
    ensures
        path.deep_view().len() == path.parts@.len(),
        forall|i: int|
            0 <= i < path.parts@.len() ==> #[trigger] path.deep_view()[i] == path.parts@[i]@,
{
}

} // verus!
