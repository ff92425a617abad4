//! Crates that have not been written to disk: what they hold.
use vstd::prelude::*;

use crate::cargo_toml;
#[allow(unused_imports)]
use crate::cargo_toml::{EntryModel, ManifestModel, PackageModel, TargetModel};
#[allow(unused_imports)]
use crate::definition::DependencyModel;
use crate::definition::{Dependency2, DependencyDefinition, RegistryDefinition};
use crate::dotcargo_config;
#[allow(unused_imports)]
use crate::dotcargo_config::RegistryModel;
use crate::name_map::NameMap;

verus! {

/// A crate as plain text: its manifest, its source files by name, the
/// registries that it is told about and its build script.
#[verifier::ext_equal]
pub ghost struct CrateModel {
    pub manifest: ManifestModel,
    pub src: Map<Seq<char>, Seq<char>>,
    pub config: Option<Map<Seq<char>, RegistryModel>>,
    pub build_script: Option<Seq<char>>,
}

impl DependencyModel {
    /// What a dependency section says under the dependency's name.
    pub open spec fn entry(self) -> EntryModel {
        EntryModel {
            version: self.version,
            registry: self.registry,
            optional: self.optional,
            features: self.features,
            package: self.package,
        }
    }
}

impl CrateModel {
    /// A crate of which only the name and the version are given.
    pub open spec fn new(name: Seq<char>, version: Seq<char>) -> CrateModel {
        CrateModel {
            manifest: ManifestModel {
                package: PackageModel {
                    name,
                    version,
                    edition: "2021"@,
                    links: None,
                    rust_version: None,
                },
                dependencies: Map::empty(),
                build_dependencies: Map::empty(),
                features: Map::empty(),
                target: Map::empty(),
            },
            src: Map::empty(),
            config: None,
            build_script: None,
        }
    }

    /// The crate with these contents in `lib.rs`.
    pub open spec fn lib_rs(self, contents: Seq<char>) -> CrateModel {
        CrateModel { src: self.src.insert("lib.rs"@, contents), ..self }
    }

    /// The crate with these contents in `main.rs`.
    pub open spec fn main_rs(self, contents: Seq<char>) -> CrateModel {
        CrateModel { src: self.src.insert("main.rs"@, contents), ..self }
    }

    /// The crate, told about a registry that takes its tokens from Cargo.
    pub open spec fn add_registry(self, name: Seq<char>, url: Seq<char>) -> CrateModel {
        let known = match self.config {
            Some(registries) => registries,
            None => Map::empty(),
        };
        let registry = RegistryModel { index: url, credential_provider: seq!["cargo:token"@] };
        CrateModel { config: Some(known.insert(name, registry)), ..self }
    }

    /// The crate with a dependency.
    pub open spec fn add_dependency(self, dep: DependencyModel) -> CrateModel {
        CrateModel {
            manifest: ManifestModel {
                dependencies: self.manifest.dependencies.insert(dep.name, dep.entry()),
                ..self.manifest
            },
            ..self
        }
    }

    /// The crate with a dependency of its build script.
    pub open spec fn add_build_dependency(self, dep: DependencyModel) -> CrateModel {
        CrateModel {
            manifest: ManifestModel {
                build_dependencies: self.manifest.build_dependencies.insert(dep.name, dep.entry()),
                ..self.manifest
            },
            ..self
        }
    }

    /// The crate with a dependency for one target only.
    pub open spec fn add_target_dependency(
        self,
        target: Seq<char>,
        dep: DependencyModel,
    ) -> CrateModel {
        let known = if self.manifest.target.contains_key(target) {
            self.manifest.target[target]
        } else {
            TargetModel::empty()
        };
        let more = TargetModel { dependencies: known.dependencies.insert(dep.name, dep.entry()) };
        CrateModel {
            manifest: ManifestModel {
                target: self.manifest.target.insert(target, more),
                ..self.manifest
            },
            ..self
        }
    }

    /// The crate with a feature that switches on its members.
    pub open spec fn add_feature(self, name: Seq<char>, members: Seq<Seq<char>>) -> CrateModel {
        CrateModel {
            manifest: ManifestModel {
                features: self.manifest.features.insert(name, members),
                ..self.manifest
            },
            ..self
        }
    }

    /// The crate, linked to a native library.
    pub open spec fn links(self, links_key: Seq<char>) -> CrateModel {
        CrateModel {
            manifest: ManifestModel {
                package: PackageModel { links: Some(links_key), ..self.manifest.package },
                ..self.manifest
            },
            ..self
        }
    }

    /// The crate with a build script.
    pub open spec fn build_script(self, contents: Seq<char>) -> CrateModel {
        CrateModel { build_script: Some(contents), ..self }
    }

    /// The crate, which asks for a version of Rust.
    pub open spec fn rust_version(self, version: Seq<char>) -> CrateModel {
        CrateModel {
            manifest: ManifestModel {
                package: PackageModel { rust_version: Some(version), ..self.manifest.package },
                ..self.manifest
            },
            ..self
        }
    }
}

/// A crate that has not been written to disk.
#[derive(Debug)]
pub struct Crate {
    cargo_toml: cargo_toml::Root,
    src: NameMap<String>,
    dotcargo_config: Option<dotcargo_config::Root>,
    build_script: Option<String>,
}

impl DeepView for Crate {
    type V = CrateModel;

    closed spec fn deep_view(&self) -> CrateModel {
        CrateModel {
            manifest: self.cargo_toml.deep_view(),
            src: self.src.deep_view(),
            config: self.dotcargo_config.deep_view(),
            build_script: self.build_script.deep_view(),
        }
    }
}

fn optional_text(text: Option<&str>) -> (owned: Option<String>)
    ensures
        owned.deep_view() == text.deep_view(),
{
    match text {
        Some(text) => Some(text.to_owned()),
        None => None,
    }
}

fn owned_texts(texts: &[&str]) -> (owned: Vec<String>)
    ensures
        owned.deep_view() == texts@.map_values(|text: &str| text@),
{
    let mut owned: Vec<String> = Vec::new();
    let mut i: usize = 0;
    while i < texts.len()
        invariant
            i <= texts@.len(),
            owned@.len() == i,
            forall|j: int| 0 <= j < i ==> (#[trigger] owned@[j])@ == texts@[j]@,
        decreases texts@.len() - i,
    {
        owned.push(texts[i].to_owned());
        i += 1;
    }
    assert(owned.deep_view() =~= texts@.map_values(|text: &str| text@));
    owned
}

impl Crate {
    pub fn new(name: &str, version: &str) -> (krate: Crate)
        ensures
            krate.deep_view() == CrateModel::new(name@, version@),
    {
        let krate = Crate {
            cargo_toml: cargo_toml::Root {
                package: cargo_toml::Package {
                    name: name.to_owned(),
                    version: version.to_owned(),
                    edition: "2021".to_owned(),
                    links: None,
                    rust_version: None,
                },
                dependencies: NameMap::new(),
                build_dependencies: NameMap::new(),
                features: NameMap::new(),
                target: NameMap::new(),
            },
            src: NameMap::new(),
            dotcargo_config: None,
            build_script: None,
        };
        assert(krate.deep_view() =~~= CrateModel::new(name@, version@));
        krate
    }

    pub fn lib_rs(self, contents: &str) -> (krate: Self)
        ensures
            krate.deep_view() == self.deep_view().lib_rs(contents@),
    {
        let mut krate = self;
        krate.src.insert("lib.rs".to_owned(), contents.to_owned());
        assert(krate.deep_view() =~~= self.deep_view().lib_rs(contents@));
        krate
    }

    pub fn main_rs(self, contents: &str) -> (krate: Self)
        ensures
            krate.deep_view() == self.deep_view().main_rs(contents@),
    {
        let mut krate = self;
        krate.src.insert("main.rs".to_owned(), contents.to_owned());
        assert(krate.deep_view() =~~= self.deep_view().main_rs(contents@));
        krate
    }

    pub fn add_registry<R: RegistryDefinition>(self, registry: R) -> (krate: Self)
        ensures
            krate.deep_view() == self.deep_view().add_registry(
                registry.registry_name(),
                registry.registry_url(),
            ),
    {
        let mut krate = self;
        let mut dotcargo_config = match krate.dotcargo_config {
            Some(dotcargo_config) => dotcargo_config,
            None => dotcargo_config::Root::default(),
        };
        let mut credential_provider: Vec<String> = Vec::new();
        credential_provider.push("cargo:token".to_owned());
        assert(credential_provider.deep_view() =~= seq!["cargo:token"@]);
        dotcargo_config.registries.insert(
            registry.name().to_owned(),
            dotcargo_config::Registry { index: registry.url().to_owned(), credential_provider },
        );
        krate.dotcargo_config = Some(dotcargo_config);
        assert(krate.deep_view() =~~= self.deep_view().add_registry(
            registry.registry_name(),
            registry.registry_url(),
        ));
        krate
    }

    pub fn add_dependency<D: DependencyDefinition>(self, dependency: D) -> (krate: Self)
        ensures
            krate.deep_view() == self.deep_view().add_dependency(dependency.described()),
    {
        let mut krate = self;
        Self::add_dependency_common(&mut krate.cargo_toml.dependencies, dependency);
        assert(krate.deep_view() =~~= self.deep_view().add_dependency(dependency.described()));
        krate
    }

    pub fn add_build_dependency<D: DependencyDefinition>(self, dependency: D) -> (krate: Self)
        ensures
            krate.deep_view() == self.deep_view().add_build_dependency(dependency.described()),
    {
        let mut krate = self;
        Self::add_dependency_common(&mut krate.cargo_toml.build_dependencies, dependency);
        assert(krate.deep_view() =~~= self.deep_view().add_build_dependency(dependency.described()));
        krate
    }

    pub fn add_target_dependency<D: DependencyDefinition>(
        self,
        target: &str,
        dependency: D,
    ) -> (krate: Self)
        ensures
            krate.deep_view() == self.deep_view().add_target_dependency(
                target@,
                dependency.described(),
            ),
    {
        let mut krate = self;
        let mut section = match krate.cargo_toml.target.take(target) {
            Some(section) => section,
            None => cargo_toml::Target::default(),
        };
        Self::add_dependency_common(&mut section.dependencies, dependency);
        krate.cargo_toml.target.insert(target.to_owned(), section);
        assert(krate.deep_view() =~~= self.deep_view().add_target_dependency(
            target@,
            dependency.described(),
        ));
        krate
    }

    fn add_dependency_common<D: DependencyDefinition>(
        deps: &mut cargo_toml::Dependencies,
        dependency: D,
    )
        ensures
            final(deps).deep_view() == old(deps).deep_view().insert(
                dependency.described().name,
                dependency.described().entry(),
            ),
    {
        let Dependency2 { name, version, registry, optional, features, package } =
            dependency.finish();
        let ghost listed = features.deep_view();
        let features = match features {
            Some(features) => {
                let owned = owned_texts(features.as_slice());
                assert(owned.deep_view() =~= features.deep_view());
                Some(owned)
            },
            None => None,
        };
        assert(features.deep_view() =~= listed);
        deps.insert(
            name.to_owned(),
            cargo_toml::Dependency {
                version: version.to_owned(),
                registry: optional_text(registry),
                optional,
                features,
                package: optional_text(package),
            },
        );
        assert(deps.deep_view() =~~= old(deps).deep_view().insert(
            dependency.described().name,
            dependency.described().entry(),
        ));
    }

    pub fn add_feature(self, name: &str, members: &[&str]) -> (krate: Self)
        ensures
            krate.deep_view() == self.deep_view().add_feature(
                name@,
                members@.map_values(|member: &str| member@),
            ),
    {
        let mut krate = self;
        let owned = owned_texts(members);
        krate.cargo_toml.features.insert(name.to_owned(), owned);
        assert(members@.map_values(|text: &str| text@) =~= members@.map_values(
            |member: &str| member@,
        ));
        assert(krate.deep_view() =~~= self.deep_view().add_feature(
            name@,
            members@.map_values(|member: &str| member@),
        ));
        krate
    }

    pub fn links(self, links_key: &str) -> (krate: Self)
        ensures
            krate.deep_view() == self.deep_view().links(links_key@),
    {
        let mut krate = self;
        krate.cargo_toml.package.links = Some(links_key.to_owned());
        krate
    }

    pub fn build_script(self, contents: &str) -> (krate: Self)
        ensures
            krate.deep_view() == self.deep_view().build_script(contents@),
    {
        let mut krate = self;
        krate.build_script = Some(contents.to_owned());
        krate
    }

    pub fn rust_version(self, arg: &str) -> (krate: Self)
        ensures
            krate.deep_view() == self.deep_view().rust_version(arg@),
    {
        let mut krate = self;
        krate.cargo_toml.package.rust_version = Some(arg.to_owned());
        krate
    }

    /// What goes into `Cargo.toml`.
    pub fn manifest(&self) -> (manifest: &cargo_toml::Root)
        ensures
            manifest.deep_view() == self.deep_view().manifest,
    {
        &self.cargo_toml
    }

    /// What goes into `.cargo/config.toml`, if there is to be one.
    pub fn config(&self) -> (config: Option<&dotcargo_config::Root>)
        ensures
            config.deep_view() == self.deep_view().config,
    {
        match &self.dotcargo_config {
            Some(config) => Some(config),
            None => None,
        }
    }

    /// What goes into `src`, by file name.
    pub fn sources(&self) -> (sources: &NameMap<String>)
        ensures
            sources.deep_view() == self.deep_view().src,
    {
        &self.src
    }

    /// What goes into `build.rs`, if there is to be one.
    pub fn build_rs(&self) -> (contents: Option<&str>)
        ensures
            contents.deep_view() == self.deep_view().build_script,
    {
        match &self.build_script {
            Some(contents) => Some(contents.as_str()),
            None => None,
        }
    }
}

/// Of two dependencies under the same name, the later one counts.
pub proof fn later_dependency_counts(krate: CrateModel, a: DependencyModel, b: DependencyModel)
    requires
        a.name == b.name,
    ensures
        krate.add_dependency(a).add_dependency(b) == krate.add_dependency(b),
        krate.add_build_dependency(a).add_build_dependency(b) == krate.add_build_dependency(b),
{
    let deps = krate.manifest.dependencies;
    let build = krate.manifest.build_dependencies;
    assert(deps.insert(a.name, a.entry()).insert(b.name, b.entry()) =~= deps.insert(
        b.name,
        b.entry(),
    ));
    assert(build.insert(a.name, a.entry()).insert(b.name, b.entry()) =~= build.insert(
        b.name,
        b.entry(),
    ));
}

/// The order of dependencies under different names does not matter.
pub proof fn dependencies_commute(krate: CrateModel, a: DependencyModel, b: DependencyModel)
    requires
        a.name != b.name,
    ensures
        krate.add_dependency(a).add_dependency(b) == krate.add_dependency(b).add_dependency(a),
        krate.add_build_dependency(a).add_build_dependency(b) == krate.add_build_dependency(
            b,
        ).add_build_dependency(a),
{
    let deps = krate.manifest.dependencies;
    let build = krate.manifest.build_dependencies;
    assert(deps.insert(a.name, a.entry()).insert(b.name, b.entry()) =~= deps.insert(
        b.name,
        b.entry(),
    ).insert(a.name, a.entry()));
    assert(build.insert(a.name, a.entry()).insert(b.name, b.entry()) =~= build.insert(
        b.name,
        b.entry(),
    ).insert(a.name, a.entry()));
}

/// The dependencies for one target add up, and those for other targets stay as
/// they are.
pub proof fn target_dependencies_add_up(
    krate: CrateModel,
    target: Seq<char>,
    other: Seq<char>,
    a: DependencyModel,
    b: DependencyModel,
)
    requires
        target != other,
    ensures
        krate.add_target_dependency(target, a).add_target_dependency(
            target,
            b,
        ).manifest.target[target].dependencies == krate.add_target_dependency(
            target,
            a,
        ).manifest.target[target].dependencies.insert(b.name, b.entry()),
        krate.add_target_dependency(target, a).manifest.target.contains_key(other)
            == krate.manifest.target.contains_key(other),
        krate.manifest.target.contains_key(other) ==> krate.add_target_dependency(
            target,
            a,
        ).manifest.target[other] == krate.manifest.target[other],
{
}

/// Of two registries under the same name, the later one counts.
pub proof fn later_registry_counts(
    krate: CrateModel,
    name: Seq<char>,
    url: Seq<char>,
    other: Seq<char>,
)
    ensures
        krate.add_registry(name, url).add_registry(name, other) == krate.add_registry(name, other),
{
    let known = match krate.config {
        Some(registries) => registries,
        None => Map::empty(),
    };
    let first = RegistryModel { index: url, credential_provider: seq!["cargo:token"@] };
    let second = RegistryModel { index: other, credential_provider: seq!["cargo:token"@] };
    assert(known.insert(name, first).insert(name, second) =~= known.insert(name, second));
}

} // verus!
