//! The steps that a conformance test is made of.
use vstd::prelude::*;

#[allow(unused_imports)]
use crate::cargo_command::CommandModel;
use crate::cargo_command::CargoCommand;
#[allow(unused_imports)]
use crate::cargo_toml::{EntryModel, ManifestModel};
use crate::command::Expectation;
#[allow(unused_imports)]
use crate::crates::CrateModel;
use crate::crates::Crate;
use crate::creation::CreatedCrate;
#[allow(unused_imports)]
use crate::creation::CreatedModel;
#[allow(unused_imports)]
use crate::dotcargo_config::RegistryModel;

verus! {

/// One step of a conformance test.
#[derive(Debug)]
pub enum Step {
    /// Write the crate to disk.
    Create(Crate),
    /// Ask the registry for its URL.
    AskUrl,
    /// Publish the crate to the registry.
    Publish(CreatedCrate),
    /// Run the command and see whether it ends as expected.
    Execute(CargoCommand, Expectation),
    /// Count the packages that Cargo has downloaded and compare the count.
    CheckDownloads(usize),
}

/// One step of a conformance test, as plain text.
#[verifier::ext_equal]
pub ghost enum StepModel {
    Create(CrateModel),
    AskUrl,
    Publish(CreatedModel),
    Execute(CommandModel, Expectation),
    CheckDownloads(usize),
}

impl DeepView for Step {
    type V = StepModel;

    open spec fn deep_view(&self) -> StepModel {
        match self {
            Step::Create(krate) => StepModel::Create(krate.deep_view()),
            Step::AskUrl => StepModel::AskUrl,
            Step::Publish(krate) => StepModel::Publish(krate.deep_view()),
            Step::Execute(command, expectation) => StepModel::Execute(
                command.deep_view(),
                *expectation,
            ),
            Step::CheckDownloads(count) => StepModel::CheckDownloads(*count),
        }
    }
}

/// A library that depends on nothing.
pub open spec fn library(name: Seq<char>, version: Seq<char>, text: Seq<char>) -> CrateModel {
    CrateModel { src: map!["lib.rs"@ => text], ..CrateModel::new(name, version) }
}

/// A crate that is told that the registry `mine` is at the URL.
pub open spec fn told(krate: CrateModel, url: Seq<char>) -> CrateModel {
    let mine = RegistryModel { index: url, credential_provider: seq!["cargo:token"@] };
    CrateModel { config: Some(map!["mine"@ => mine]), ..krate }
}

/// A crate with these dependencies and no others.
pub open spec fn depending(
    krate: CrateModel,
    dependencies: Map<Seq<char>, EntryModel>,
) -> CrateModel {
    CrateModel { manifest: ManifestModel { dependencies, ..krate.manifest }, ..krate }
}

/// The program that uses the libraries of a test.
pub open spec fn binary(
    url: Seq<char>,
    dependencies: Map<Seq<char>, EntryModel>,
    text: Seq<char>,
) -> CrateModel {
    let krate = CrateModel {
        src: map!["main.rs"@ => text],
        ..CrateModel::new("the-binary"@, "0.1.0"@)
    };
    depending(told(krate, url), dependencies)
}

/// A dependency that is found in the registry `mine`.
pub open spec fn from_mine(version: Seq<char>) -> EntryModel {
    EntryModel {
        version,
        registry: Some("mine"@),
        optional: false,
        features: None,
        package: None,
    }
}

/// A dependency that is found on crates.io.
pub open spec fn from_crates_io(version: Seq<char>) -> EntryModel {
    EntryModel { registry: None, ..from_mine(version) }
}

/// An optional dependency that is found in the registry `mine`.
pub open spec fn optional_from_mine(version: Seq<char>) -> EntryModel {
    EntryModel { optional: true, ..from_mine(version) }
}

/// A dependency with a feature that is found in the registry `mine`.
pub open spec fn featured_from_mine(version: Seq<char>, feature: Seq<char>) -> EntryModel {
    EntryModel { features: Some(seq![feature]), ..from_mine(version) }
}

/// Running the crate, which is to succeed.
pub open spec fn runs(krate: CrateModel) -> StepModel {
    StepModel::Execute(krate.created().run_call().finished(), Expectation::Success)
}

} // verus!
