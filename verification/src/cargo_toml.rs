//! The contents of a `Cargo.toml`.
use vstd::prelude::*;

use crate::name_map::NameMap;

verus! {

/// The dependencies of a section, by the name under which each is used.
pub type Dependencies = NameMap<Dependency>;

/// A manifest.
#[derive(Debug)]
pub struct Root {
    pub package: Package,
    pub dependencies: Dependencies,
    pub build_dependencies: Dependencies,
    pub features: NameMap<Vec<String>>,
    pub target: NameMap<Target>,
}

/// The `[package]` section.
#[derive(Debug)]
pub struct Package {
    pub name: String,
    pub version: String,
    pub edition: String,
    pub links: Option<String>,
    pub rust_version: Option<String>,
}

/// One entry of a dependency section.
#[derive(Debug)]
pub struct Dependency {
    pub version: String,
    pub registry: Option<String>,
    pub optional: bool,
    pub features: Option<Vec<String>>,
    pub package: Option<String>,
}

/// What holds for one target only.
#[derive(Debug)]
pub struct Target {
    pub dependencies: Dependencies,
}

impl Default for Target {
    fn default() -> (target: Self)
        ensures
            target.deep_view() == TargetModel::empty(),
    {
        let target = Target { dependencies: NameMap::new() };
        assert(target.deep_view() =~= TargetModel::empty());
        target
    }
}

/// A manifest as plain text.
#[verifier::ext_equal]
pub ghost struct ManifestModel {
    pub package: PackageModel,
    pub dependencies: Map<Seq<char>, EntryModel>,
    pub build_dependencies: Map<Seq<char>, EntryModel>,
    pub features: Map<Seq<char>, Seq<Seq<char>>>,
    pub target: Map<Seq<char>, TargetModel>,
}

/// The `[package]` section as plain text.
#[verifier::ext_equal]
pub ghost struct PackageModel {
    pub name: Seq<char>,
    pub version: Seq<char>,
    pub edition: Seq<char>,
    pub links: Option<Seq<char>>,
    pub rust_version: Option<Seq<char>>,
}

/// One entry of a dependency section as plain text.
#[verifier::ext_equal]
pub ghost struct EntryModel {
    pub version: Seq<char>,
    pub registry: Option<Seq<char>>,
    pub optional: bool,
    pub features: Option<Seq<Seq<char>>>,
    pub package: Option<Seq<char>>,
}

/// What holds for one target only, as plain text.
#[verifier::ext_equal]
pub ghost struct TargetModel {
    pub dependencies: Map<Seq<char>, EntryModel>,
}

impl TargetModel {
    /// A target without dependencies.
    pub open spec fn empty() -> TargetModel {
        TargetModel { dependencies: Map::empty() }
    }
}

impl DeepView for Root {
    type V = ManifestModel;

    open spec fn deep_view(&self) -> ManifestModel {
        ManifestModel {
            package: self.package.deep_view(),
            dependencies: self.dependencies.deep_view(),
            build_dependencies: self.build_dependencies.deep_view(),
            features: self.features.deep_view(),
            target: self.target.deep_view(),
        }
    }
}

impl DeepView for Package {
    type V = PackageModel;

    open spec fn deep_view(&self) -> PackageModel {
        PackageModel {
            name: self.name@,
            version: self.version@,
            edition: self.edition@,
            links: self.links.deep_view(),
            rust_version: self.rust_version.deep_view(),
        }
    }
}

impl DeepView for Dependency {
    type V = EntryModel;

    open spec fn deep_view(&self) -> EntryModel {
        EntryModel {
            version: self.version@,
            registry: self.registry.deep_view(),
            optional: self.optional,
            features: self.features.deep_view(),
            package: self.package.deep_view(),
        }
    }
}

impl DeepView for Target {
    type V = TargetModel;

    open spec fn deep_view(&self) -> TargetModel {
        TargetModel { dependencies: self.dependencies.deep_view() }
    }
}

} // verus!
