//! How a dependency or a registry is described before it goes into a manifest.
use vstd::prelude::*;

verus! {

/// A registry that a crate can be told about.
pub trait RegistryDefinition {
    /// The name under which Cargo knows the registry.
    spec fn registry_name(&self) -> Seq<char>;

    /// Where the registry's index is.
    spec fn registry_url(&self) -> Seq<char>;

    fn name(&self) -> (name: &str)
        ensures
            name@ == self.registry_name(),
    ;

    fn url(&self) -> (url: &str)
        ensures
            url@ == self.registry_url(),
    ;
}

impl<R: RegistryDefinition> RegistryDefinition for &R {
    open spec fn registry_name(&self) -> Seq<char> {
        (**self).registry_name()
    }

    open spec fn registry_url(&self) -> Seq<char> {
        (**self).registry_url()
    }

    fn name(&self) -> (name: &str) {
        (**self).name()
    }

    fn url(&self) -> (url: &str) {
        (**self).url()
    }
}

/// What a dependency says, as plain text.
#[verifier::ext_equal]
pub ghost struct DependencyModel {
    pub name: Seq<char>,
    pub version: Seq<char>,
    pub registry: Option<Seq<char>>,
    pub optional: bool,
    pub features: Option<Seq<Seq<char>>>,
    pub package: Option<Seq<char>>,
}

impl DependencyModel {
    /// A dependency of which only the name and the version are given.
    pub open spec fn base(name: Seq<char>, version: Seq<char>) -> DependencyModel {
        DependencyModel {
            name,
            version,
            registry: None,
            optional: false,
            features: None,
            package: None,
        }
    }

    /// The dependency, found in the registry of this name.
    pub open spec fn in_registry(self, registry: Seq<char>) -> DependencyModel {
        DependencyModel { registry: Some(registry), ..self }
    }

    /// The dependency under another name. The package keeps the name that it
    /// had before it was first renamed.
    pub open spec fn renamed_as(self, name: Seq<char>) -> DependencyModel {
        DependencyModel {
            name,
            package: match self.package {
                Some(package) => Some(package),
                None => Some(self.name),
            },
            ..self
        }
    }

    /// The dependency, made optional.
    pub open spec fn optional(self) -> DependencyModel {
        DependencyModel { optional: true, ..self }
    }

    /// The dependency with one more feature switched on.
    pub open spec fn with_feature(self, feature: Seq<char>) -> DependencyModel {
        DependencyModel {
            features: match self.features {
                Some(features) => Some(features.push(feature)),
                None => Some(seq![feature]),
            },
            ..self
        }
    }
}

/// A dependency with everything that has been said of it.
pub struct Dependency2<'a> {
    pub name: &'a str,
    pub version: &'a str,
    pub registry: Option<&'a str>,
    pub optional: bool,
    pub features: Option<Vec<&'a str>>,
    pub package: Option<&'a str>,
}

impl<'a> DeepView for Dependency2<'a> {
    type V = DependencyModel;

    open spec fn deep_view(&self) -> DependencyModel {
        DependencyModel {
            name: self.name@,
            version: self.version@,
            registry: self.registry.deep_view(),
            optional: self.optional,
            features: self.features.deep_view(),
            package: self.package.deep_view(),
        }
    }
}

impl<'a> Dependency2<'a> {
    /// A dependency of which only the name and the version are given.
    pub fn base(name: &'a str, version: &'a str) -> (dep: Self)
        ensures
            dep.deep_view() == DependencyModel::base(name@, version@),
    {
        Dependency2 { name, version, registry: None, optional: false, features: None, package: None }
    }
}

/// Something that can be depended on, possibly with more said of it.
pub trait DependencyDefinition: Sized {
    /// What the definition says of the dependency.
    spec fn described(&self) -> DependencyModel;

    fn finish(&self) -> (dep: Dependency2<'_>)
        ensures
            dep.deep_view() == self.described(),
    ;

    fn as_ref(&self) -> (same: &Self)
        ensures
            same == self,
    {
        self
    }

    fn in_registry<R>(self, reg: R) -> (dep: InRegistry<Self, R>)
        ensures
            dep == InRegistry(self, reg),
    {
        InRegistry(self, reg)
    }

    fn renamed_as(self, name: &str) -> (dep: RenamedAs<Self>)
        ensures
            dep.0 == self,
            dep.1@ == name@,
    {
        RenamedAs(self, name.to_owned())
    }

    fn optional(self) -> (dep: Optional<Self>)
        ensures
            dep == Optional(self),
    {
        Optional(self)
    }

    fn with_feature(self, name: &str) -> (dep: WithFeature<Self>)
        ensures
            dep.0 == self,
            dep.1@ == name@,
    {
        WithFeature(self, name.to_owned())
    }
}

impl<D: DependencyDefinition> DependencyDefinition for &D {
    open spec fn described(&self) -> DependencyModel {
        (**self).described()
    }

    fn finish(&self) -> (dep: Dependency2<'_>) {
        (**self).finish()
    }
}

impl DependencyDefinition for (&str, &str) {
    open spec fn described(&self) -> DependencyModel {
        DependencyModel::base(self.0@, self.1@)
    }

    fn finish(&self) -> (dep: Dependency2<'_>) {
        Dependency2::base(self.0, self.1)
    }
}

/// A dependency that is found in a registry.
pub struct InRegistry<D, R>(pub D, pub R);

impl<D: DependencyDefinition, R: RegistryDefinition> DependencyDefinition for InRegistry<D, R> {
    open spec fn described(&self) -> DependencyModel {
        self.0.described().in_registry(self.1.registry_name())
    }

    fn finish(&self) -> (dep: Dependency2<'_>) {
        let mut dep = self.0.finish();
        dep.registry = Some(self.1.name());
        dep
    }
}

/// A dependency under another name.
pub struct RenamedAs<D>(pub D, pub String);

impl<D: DependencyDefinition> DependencyDefinition for RenamedAs<D> {
    open spec fn described(&self) -> DependencyModel {
        self.0.described().renamed_as(self.1@)
    }

    fn finish(&self) -> (dep: Dependency2<'_>) {
        let mut dep = self.0.finish();
        let package = dep.name;
        dep.name = self.1.as_str();
        if dep.package.is_none() {
            dep.package = Some(package);
        }
        dep
    }
}

/// A dependency that is optional.
pub struct Optional<D>(pub D);

impl<D: DependencyDefinition> DependencyDefinition for Optional<D> {
    open spec fn described(&self) -> DependencyModel {
        self.0.described().optional()
    }

    fn finish(&self) -> (dep: Dependency2<'_>) {
        let mut dep = self.0.finish();
        dep.optional = true;
        dep
    }
}

/// A dependency with a feature switched on.
pub struct WithFeature<D>(pub D, pub String);

impl<D: DependencyDefinition> DependencyDefinition for WithFeature<D> {
    open spec fn described(&self) -> DependencyModel {
        self.0.described().with_feature(self.1@)
    }

    fn finish(&self) -> (dep: Dependency2<'_>) {
        let mut dep = self.0.finish();
        let mut features = match dep.features {
            Some(features) => features,
            None => Vec::new(),
        };
        let ghost before = features.deep_view();
        features.push(self.1.as_str());
        assert(features.deep_view() =~= before.push(self.1@));
        dep.features = Some(features);
        dep
    }
}

/// A registry given by its name and its URL.
#[derive(Debug)]
pub struct CreatedRegistry {
    pub name: String,
    pub url: String,
}

impl CreatedRegistry {
    pub fn new(name: &str, url: &str) -> (registry: Self)
        ensures
            registry.registry_name() == name@,
            registry.registry_url() == url@,
    {
        CreatedRegistry { name: name.to_owned(), url: url.to_owned() }
    }
}

impl RegistryDefinition for CreatedRegistry {
    open spec fn registry_name(&self) -> Seq<char> {
        self.name@
    }

    open spec fn registry_url(&self) -> Seq<char> {
        self.url@
    }

    fn name(&self) -> (name: &str) {
        self.name.as_str()
    }

    fn url(&self) -> (url: &str) {
        self.url.as_str()
    }
}

/// However often a dependency is renamed, the package stays the one that was
/// meant before, and the last name counts.
pub proof fn renaming_keeps_the_package(dep: DependencyModel, first: Seq<char>, second: Seq<char>)
    ensures
        dep.renamed_as(first).renamed_as(second) == dep.renamed_as(second),
        dep.package is None ==> dep.renamed_as(first).package == Some(dep.name),
{
}

/// Of several registries, the one said last counts.
pub proof fn last_registry_counts(dep: DependencyModel, first: Seq<char>, second: Seq<char>)
    ensures
        dep.in_registry(first).in_registry(second) == dep.in_registry(second),
{
}

/// Saying twice that a dependency is optional says no more than saying it once.
pub proof fn optional_twice_is_once(dep: DependencyModel)
    ensures
        dep.optional().optional() == dep.optional(),
{
}

/// Features add up, in the order in which they are switched on, and every
/// other thing that is said of a dependency leaves them alone.
pub proof fn features_add_up(dep: DependencyModel, first: Seq<char>, second: Seq<char>)
    ensures
        dep.features is None ==> dep.with_feature(first).with_feature(second).features == Some(
            seq![first, second],
        ),
        dep.features matches Some(features) ==> dep.with_feature(first).with_feature(
            second,
        ).features == Some(features.push(first).push(second)),
        dep.in_registry(first).features == dep.features,
        dep.renamed_as(first).features == dep.features,
        dep.optional().features == dep.features,
{
    if dep.features is None {
        assert(seq![first].push(second) =~= seq![first, second]);
    }
}

/// The order in which different things are said of a dependency does not
/// matter.
pub proof fn sayings_commute(
    dep: DependencyModel,
    registry: Seq<char>,
    name: Seq<char>,
    feature: Seq<char>,
)
    ensures
        dep.in_registry(registry).renamed_as(name) == dep.renamed_as(name).in_registry(registry),
        dep.in_registry(registry).optional() == dep.optional().in_registry(registry),
        dep.in_registry(registry).with_feature(feature) == dep.with_feature(feature).in_registry(
            registry,
        ),
        dep.renamed_as(name).optional() == dep.optional().renamed_as(name),
        dep.renamed_as(name).with_feature(feature) == dep.with_feature(feature).renamed_as(name),
        dep.optional().with_feature(feature) == dep.with_feature(feature).optional(),
{
}

} // verus!
