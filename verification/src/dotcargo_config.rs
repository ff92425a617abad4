//! The contents of a `.cargo/config.toml`.
use vstd::prelude::*;

use crate::name_map::NameMap;

verus! {

/// A configuration.
#[derive(Debug)]
pub struct Root {
    pub registries: NameMap<Registry>,
}

/// Where a registry is, and who hands out the credentials for it.
#[derive(Debug)]
pub struct Registry {
    pub index: String,
    pub credential_provider: Vec<String>,
}

impl Default for Root {
    fn default() -> (config: Self)
        ensures
            config.deep_view() == Map::<Seq<char>, RegistryModel>::empty(),
    {
        let config = Root { registries: NameMap::new() };
        assert(config.deep_view() =~= Map::<Seq<char>, RegistryModel>::empty());
        config
    }
}

/// A registry's configuration as plain text.
#[verifier::ext_equal]
pub ghost struct RegistryModel {
    pub index: Seq<char>,
    pub credential_provider: Seq<Seq<char>>,
}

impl DeepView for Root {
    type V = Map<Seq<char>, RegistryModel>;

    /// The registries by name.
    open spec fn deep_view(&self) -> Map<Seq<char>, RegistryModel> {
        self.registries.deep_view()
    }
}

impl DeepView for Registry {
    type V = RegistryModel;

    open spec fn deep_view(&self) -> RegistryModel {
        RegistryModel {
            index: self.index@,
            credential_provider: self.credential_provider.deep_view(),
        }
    }
}

} // verus!
