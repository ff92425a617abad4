//! How a crate is written to disk, step by step.
use vstd::prelude::*;

use crate::cargo_toml;
#[allow(unused_imports)]
use crate::crates::CrateModel;
use crate::crates::Crate;
#[allow(unused_imports)]
use crate::definition::DependencyModel;
use crate::definition::{Dependency2, DependencyDefinition};
use crate::dotcargo_config;
#[allow(unused_imports)]
use crate::name_map::{sorted_entries, sorted_entries_of_finite, sorted_entries_of_mapped};
use crate::scratch_path::ScratchPath;
use crate::scratch_space::ScratchSpace;
#[allow(unused_imports)]
use crate::scratch_space::{cargo_home_parts, crates_parts};
#[allow(unused_imports)]
use crate::text::name_before_is_irreflexive;

verus! {

/// Where the crate of this name and version is written.
pub open spec fn crate_directory(name: Seq<char>, version: Seq<char>) -> Seq<Seq<char>> {
    crates_parts().push(name).push(version)
}

/// A crate on disk, as plain text.
#[verifier::ext_equal]
pub ghost struct CreatedModel {
    pub cargo_home: Seq<Seq<char>>,
    pub directory: Seq<Seq<char>>,
    pub name: Seq<char>,
    pub version: Seq<char>,
}

/// One step of writing a crate, as plain text.
#[verifier::ext_equal]
pub ghost enum FileStepModel {
    MakeCrateDirectory(Seq<Seq<char>>),
    SerializeManifest,
    WriteManifest(Seq<Seq<char>>),
    MakeDotCargoDirectory(Seq<Seq<char>>),
    SerializeConfig,
    WriteConfig(Seq<Seq<char>>),
    MakeSourceDirectory(Seq<Seq<char>>),
    WriteSource(Seq<Seq<char>>, Seq<char>),
    WriteBuildScript(Seq<Seq<char>>, Seq<char>),
}

impl FileStepModel {
    /// The directory that the step makes, if it makes one.
    pub open spec fn made(self) -> Option<Seq<Seq<char>>> {
        match self {
            FileStepModel::MakeCrateDirectory(path) => Some(path),
            FileStepModel::MakeDotCargoDirectory(path) => Some(path),
            FileStepModel::MakeSourceDirectory(path) => Some(path),
            _ => None,
        }
    }

    /// The file that the step writes, if it writes one.
    pub open spec fn written(self) -> Option<Seq<Seq<char>>> {
        match self {
            FileStepModel::WriteManifest(path) => Some(path),
            FileStepModel::WriteConfig(path) => Some(path),
            FileStepModel::WriteSource(path, _) => Some(path),
            FileStepModel::WriteBuildScript(path, _) => Some(path),
            _ => None,
        }
    }

    /// Whether the step turns a value into text.
    pub open spec fn serializes(self) -> bool {
        self is SerializeManifest || self is SerializeConfig
    }

    /// Whether the step writes the text that the step before it gave.
    pub open spec fn writes_serialized(self) -> bool {
        self is WriteManifest || self is WriteConfig
    }
}

impl CrateModel {
    /// What is on disk once the crate is written.
    pub open spec fn created(self) -> CreatedModel {
        CreatedModel {
            cargo_home: cargo_home_parts(),
            directory: crate_directory(self.manifest.package.name, self.manifest.package.version),
            name: self.manifest.package.name,
            version: self.manifest.package.version,
        }
    }

    /// The steps that write the manifest.
    pub open spec fn manifest_steps(self) -> Seq<FileStepModel> {
        let directory = self.created().directory;
        seq![
            FileStepModel::MakeCrateDirectory(directory),
            FileStepModel::SerializeManifest,
            FileStepModel::WriteManifest(directory.push("Cargo.toml"@)),
        ]
    }

    /// The steps that write the configuration, if there is one.
    pub open spec fn config_steps(self) -> Seq<FileStepModel> {
        let directory = self.created().directory.push(".cargo"@);
        if self.config is Some {
            seq![
                FileStepModel::MakeDotCargoDirectory(directory),
                FileStepModel::SerializeConfig,
                FileStepModel::WriteConfig(directory.push("config.toml"@)),
            ]
        } else {
            seq![]
        }
    }

    /// The writes of the source files, in ascending order of their names.
    pub open spec fn source_writes(self) -> Seq<FileStepModel> {
        let directory = self.created().directory.push("src"@);
        sorted_entries(self.src).map_values(
            |file: (Seq<char>, Seq<char>)|
                FileStepModel::WriteSource(directory.push(file.0), file.1),
        )
    }

    /// The steps that write the source files, if there are any.
    pub open spec fn source_steps(self) -> Seq<FileStepModel> {
        if self.src == Map::<Seq<char>, Seq<char>>::empty() {
            seq![]
        } else {
            seq![
                FileStepModel::MakeSourceDirectory(self.created().directory.push("src"@)),
            ] + self.source_writes()
        }
    }

    /// The step that writes the build script, if there is one.
    pub open spec fn build_script_steps(self) -> Seq<FileStepModel> {
        match self.build_script {
            Some(contents) => seq![
                FileStepModel::WriteBuildScript(
                    self.created().directory.push("build.rs"@),
                    contents,
                ),
            ],
            None => seq![],
        }
    }

    /// The steps that write the crate, in order.
    pub open spec fn steps(self) -> Seq<FileStepModel> {
        self.manifest_steps() + self.config_steps() + self.source_steps()
            + self.build_script_steps()
    }
}

/// A crate that has been written to disk.
#[derive(Debug)]
pub struct CreatedCrate {
    cargo_home: ScratchPath,
    directory: ScratchPath,
    name: String,
    version: String,
}

impl DeepView for CreatedCrate {
    type V = CreatedModel;

    closed spec fn deep_view(&self) -> CreatedModel {
        CreatedModel {
            cargo_home: self.cargo_home.deep_view(),
            directory: self.directory.deep_view(),
            name: self.name@,
            version: self.version@,
        }
    }
}

impl CreatedCrate {
    pub fn name(&self) -> (name: &str)
        ensures
            name@ == self.deep_view().name,
    {
        self.name.as_str()
    }

    pub fn version(&self) -> (version: &str)
        ensures
            version@ == self.deep_view().version,
    {
        self.version.as_str()
    }

    /// Where the crate is.
    pub fn directory(&self) -> (path: &ScratchPath)
        ensures
            path.deep_view() == self.deep_view().directory,
    {
        &self.directory
    }

    /// Where Cargo is to keep its own files when it works on the crate.
    pub fn cargo_home(&self) -> (path: &ScratchPath)
        ensures
            path.deep_view() == self.deep_view().cargo_home,
    {
        &self.cargo_home
    }
}

impl Clone for CreatedCrate {
    fn clone(&self) -> (copy: Self)
        ensures
            copy.deep_view() == self.deep_view(),
    {
        CreatedCrate {
            cargo_home: self.cargo_home.clone(),
            directory: self.directory.clone(),
            name: self.name.clone(),
            version: self.version.clone(),
        }
    }
}

impl DependencyDefinition for CreatedCrate {
    open spec fn described(&self) -> DependencyModel {
        DependencyModel::base(self.deep_view().name, self.deep_view().version)
    }

    fn finish(&self) -> (dep: Dependency2<'_>) {
        Dependency2::base(self.name.as_str(), self.version.as_str())
    }
}

/// Why a crate could not be written.
#[derive(Debug)]
#[allow(inconsistent_fields)]
pub enum CreateCrateError<I, T> {
    CrateCreate { source: I, path: ScratchPath },
    CargoTomlSerialize { source: T },
    CargoTomlWrite { source: I, path: ScratchPath },
    DotCargoCreate { source: I, path: ScratchPath },
    DotCargoConfigSerialize { source: T },
    DotCargoConfigWrite { source: I, path: ScratchPath },
    SrcCreate { source: I, path: ScratchPath },
    SourceCodeWrite { source: I, path: ScratchPath },
    BuildScriptWrite { source: I, path: ScratchPath },
}

/// One step of writing a crate.
#[derive(Debug)]
enum FileStep {
    MakeCrateDirectory(ScratchPath),
    SerializeManifest,
    WriteManifest(ScratchPath),
    MakeDotCargoDirectory(ScratchPath),
    SerializeConfig,
    WriteConfig(ScratchPath),
    MakeSourceDirectory(ScratchPath),
    WriteSource(ScratchPath, String),
    WriteBuildScript(ScratchPath, String),
}

impl DeepView for FileStep {
    type V = FileStepModel;

    closed spec fn deep_view(&self) -> FileStepModel {
        match self {
            FileStep::MakeCrateDirectory(path) => FileStepModel::MakeCrateDirectory(
                path.deep_view(),
            ),
            FileStep::SerializeManifest => FileStepModel::SerializeManifest,
            FileStep::WriteManifest(path) => FileStepModel::WriteManifest(path.deep_view()),
            FileStep::MakeDotCargoDirectory(path) => FileStepModel::MakeDotCargoDirectory(
                path.deep_view(),
            ),
            FileStep::SerializeConfig => FileStepModel::SerializeConfig,
            FileStep::WriteConfig(path) => FileStepModel::WriteConfig(path.deep_view()),
            FileStep::MakeSourceDirectory(path) => FileStepModel::MakeSourceDirectory(
                path.deep_view(),
            ),
            FileStep::WriteSource(path, contents) => FileStepModel::WriteSource(
                path.deep_view(),
                contents@,
            ),
            FileStep::WriteBuildScript(path, contents) => FileStepModel::WriteBuildScript(
                path.deep_view(),
                contents@,
            ),
        }
    }
}

/// What came of the last action.
#[derive(Debug)]
pub enum CreateEvent<I, T> {
    /// The directory is there, or the file is written.
    Done,
    /// The value was turned into this text.
    Serialized(String),
    /// The directory could not be made, or the file not be written.
    Failed(I),
    /// The value could not be turned into text.
    NotSerialized(T),
}

/// What is to be done next to write a crate.
#[derive(Debug)]
pub enum CreateAction<I, T> {
    /// Make the directory, and those above it.
    MakeDirectory(ScratchPath),
    /// Turn the manifest into TOML.
    SerializeManifest,
    /// Turn the configuration into TOML.
    SerializeConfig,
    /// Write a file.
    Write(ScratchPath, String),
    Finish(Result<CreatedCrate, CreateCrateError<I, T>>),
}

impl<I, T> CreateEvent<I, T> {
    /// Whether the event can come of the step.
    pub open spec fn answers(self, step: FileStepModel) -> bool {
        if step.serializes() {
            self is Serialized || self is NotSerialized
        } else {
            self is Done || self is Failed
        }
    }

    /// Whether the step went well.
    pub open spec fn is_success(self) -> bool {
        self is Done || self is Serialized
    }

    /// The text that a value was turned into, nothing if the step was another.
    pub open spec fn text(self) -> Seq<char> {
        match self {
            CreateEvent::Serialized(text) => text@,
            _ => seq![],
        }
    }
}

impl<I, T> CreateAction<I, T> {
    /// Whether the action is what the step asks for, `serialized` being the
    /// text that was given before.
    pub open spec fn performs(self, step: FileStepModel, serialized: Seq<char>) -> bool {
        match step {
            FileStepModel::MakeCrateDirectory(at)
            | FileStepModel::MakeDotCargoDirectory(at)
            | FileStepModel::MakeSourceDirectory(at) => self matches CreateAction::MakeDirectory(path)
                && path.deep_view() == at,
            FileStepModel::SerializeManifest => self is SerializeManifest,
            FileStepModel::SerializeConfig => self is SerializeConfig,
            FileStepModel::WriteManifest(at) | FileStepModel::WriteConfig(at) => self matches CreateAction::Write(
                path,
                text,
            ) && path.deep_view() == at && text@ == serialized,
            FileStepModel::WriteSource(at, contents)
            | FileStepModel::WriteBuildScript(at, contents) => self matches CreateAction::Write(
                path,
                text,
            ) && path.deep_view() == at && text@ == contents,
        }
    }
}

impl<I, T> CreateCrateError<I, T> {
    /// Whether the error says that the step failed as the event says.
    pub open spec fn reports(self, step: FileStepModel, event: CreateEvent<I, T>) -> bool {
        match self {
            CreateCrateError::CrateCreate { source, path } => step
                == FileStepModel::MakeCrateDirectory(path.deep_view()) && event
                == CreateEvent::<I, T>::Failed(source),
            CreateCrateError::CargoTomlSerialize { source } => step is SerializeManifest && event
                == CreateEvent::<I, T>::NotSerialized(source),
            CreateCrateError::CargoTomlWrite { source, path } => step
                == FileStepModel::WriteManifest(path.deep_view()) && event == CreateEvent::<
                I,
                T,
            >::Failed(source),
            CreateCrateError::DotCargoCreate { source, path } => step
                == FileStepModel::MakeDotCargoDirectory(path.deep_view()) && event
                == CreateEvent::<I, T>::Failed(source),
            CreateCrateError::DotCargoConfigSerialize { source } => step is SerializeConfig && event
                == CreateEvent::<I, T>::NotSerialized(source),
            CreateCrateError::DotCargoConfigWrite { source, path } => step
                == FileStepModel::WriteConfig(path.deep_view()) && event == CreateEvent::<
                I,
                T,
            >::Failed(source),
            CreateCrateError::SrcCreate { source, path } => step
                == FileStepModel::MakeSourceDirectory(path.deep_view()) && event
                == CreateEvent::<I, T>::Failed(source),
            CreateCrateError::SourceCodeWrite { source, path } => step is WriteSource
                && step->WriteSource_0 == path.deep_view() && event == CreateEvent::<I, T>::Failed(
                source,
            ),
            CreateCrateError::BuildScriptWrite { source, path } => step is WriteBuildScript
                && step->WriteBuildScript_0 == path.deep_view() && event == CreateEvent::<
                I,
                T,
            >::Failed(source),
        }
    }
}

impl Crate {
    /// What will be on disk once the crate is written.
    pub fn created(&self, scratch: &ScratchSpace) -> (created: CreatedCrate)
        ensures
            created.deep_view() == self.deep_view().created(),
            created.deep_view().name == self.deep_view().manifest.package.name,
            created.deep_view().version == self.deep_view().manifest.package.version,
            created.deep_view().cargo_home == seq!["cargo-home"@],
            created.deep_view().directory == seq![
                "crates"@,
                self.deep_view().manifest.package.name,
                self.deep_view().manifest.package.version,
            ],
    {
        let package = &self.manifest().package;
        let mut crate_path = scratch.crates().join(package.name.as_str());
        crate_path.push(package.version.as_str());
        CreatedCrate {
            cargo_home: scratch.cargo_home().clone(),
            directory: crate_path,
            name: package.name.clone(),
            version: package.version.clone(),
        }
    }

    fn file_steps(&self, crate_path: &ScratchPath) -> (steps: Vec<FileStep>)
        requires
            crate_path.deep_view() == self.deep_view().created().directory,
        ensures
            steps.deep_view() == self.deep_view().steps(),
    {
        let ghost model = self.deep_view();
        let mut steps: Vec<FileStep> = Vec::new();
        steps.push(FileStep::MakeCrateDirectory(crate_path.clone()));
        steps.push(FileStep::SerializeManifest);
        steps.push(FileStep::WriteManifest(crate_path.join("Cargo.toml")));
        assert(steps.deep_view() =~= model.manifest_steps());

        if self.config().is_some() {
            let dotcargo_path = crate_path.join(".cargo");
            let dotcargo_config_path = dotcargo_path.join("config.toml");
            steps.push(FileStep::MakeDotCargoDirectory(dotcargo_path));
            steps.push(FileStep::SerializeConfig);
            steps.push(FileStep::WriteConfig(dotcargo_config_path));
        }
        assert(steps.deep_view() =~= model.manifest_steps() + model.config_steps());

        let sources = self.sources();
        let count: usize = sources.len();
        let ghost shown = |contents: String| contents.deep_view();
        proof {
            sorted_entries_of_finite(sources@);
            sorted_entries_of_mapped(sorted_entries(sources@), sources@, shown);
            assert(sources@.map_values(shown) =~= model.src);
            assert(sources@.dom() =~= model.src.dom());
            if count == 0 {
                assert(model.src =~= Map::<Seq<char>, Seq<char>>::empty());
            } else {
                assert(model.src != Map::<Seq<char>, Seq<char>>::empty());
            }
        }
        if count > 0 {
            let src_path = crate_path.join("src");
            let ghost before = steps.deep_view();
            steps.push(FileStep::MakeSourceDirectory(src_path.clone()));
            let ghost started = before.push(
                FileStepModel::MakeSourceDirectory(model.created().directory.push("src"@)),
            );
            assert(steps.deep_view() =~= started);
            let mut i: usize = 0;
            while i < count
                invariant
                    i <= count,
                    count == sorted_entries(sources@).len(),
                    src_path.deep_view() == model.created().directory.push("src"@),
                    sorted_entries(model.src) == sorted_entries(sources@).map_values(
                        |entry: (Seq<char>, String)| (entry.0, shown(entry.1)),
                    ),
                    shown == |contents: String| contents.deep_view(),
                    steps.deep_view() =~= started + model.source_writes().take(i as int),
                decreases count - i,
            {
                let name = sources.name_at(i);
                let contents = sources.value_at(i);
                proof {
                    let file = sorted_entries(model.src)[i as int];
                    assert(file.0 == name@ && file.1 == contents@);
                    assert(model.source_writes()[i as int] == FileStepModel::WriteSource(
                        src_path.deep_view().push(name@),
                        contents@,
                    ));
                }
                let ghost so_far = steps.deep_view();
                steps.push(FileStep::WriteSource(src_path.join(name), contents.clone()));
                assert(steps.deep_view() =~= so_far.push(model.source_writes()[i as int]));
                assert(model.source_writes().take(i + 1) =~= model.source_writes().take(
                    i as int,
                ).push(model.source_writes()[i as int]));
                i += 1;
            }
            assert(model.source_writes().take(count as int) =~= model.source_writes());
            assert(steps.deep_view() =~= before + model.source_steps());
        }
        assert(steps.deep_view() =~= model.manifest_steps() + model.config_steps()
            + model.source_steps());

        if let Some(build_script) = self.build_rs() {
            steps.push(
                FileStep::WriteBuildScript(crate_path.join("build.rs"), build_script.to_owned()),
            );
        }
        assert(steps.deep_view() =~= model.steps());
        steps
    }

    /// Starts to write the crate.
    pub fn create_in<I, T>(self, scratch: &ScratchSpace) -> (begun: (
        CrateCreation,
        CreateAction<I, T>,
    ))
        ensures
            begun.0.model() == self.deep_view(),
            begun.0.position() == 0,
            begun.1.performs(self.deep_view().steps()[0], seq![]),
            begun.1 matches CreateAction::MakeDirectory(path) && path.deep_view() == seq![
                "crates"@,
                self.deep_view().manifest.package.name,
                self.deep_view().manifest.package.version,
            ],
    {
        let created = self.created(scratch);
        let steps = self.file_steps(&created.directory);
        let first = CreateAction::MakeDirectory(created.directory.clone());
        let creation = CrateCreation { krate: self, created, steps, position: 0 };
        (creation, first)
    }
}

/// A crate while it is being written.
#[derive(Debug)]
pub struct CrateCreation {
    krate: Crate,
    created: CreatedCrate,
    steps: Vec<FileStep>,
    position: usize,
}

impl CrateCreation {
    #[verifier::type_invariant]
    spec fn on_plan(self) -> bool {
        &&& self.created.deep_view() == self.krate.deep_view().created()
        &&& self.steps.deep_view() == self.krate.deep_view().steps()
        &&& self.position <= self.steps@.len()
    }

    /// The crate that is being written.
    pub closed spec fn model(self) -> CrateModel {
        self.krate.deep_view()
    }

    /// How many steps are done.
    pub closed spec fn position(self) -> nat {
        self.position as nat
    }

    /// The step that was handed out last.
    pub open spec fn current(self) -> FileStepModel {
        self.model().steps()[self.position() as int]
    }

    /// Whether `next` is this crate after the event.
    pub open spec fn leads_to<I, T>(self, event: CreateEvent<I, T>, next: CrateCreation) -> bool {
        &&& next.model() == self.model()
        &&& next.position() == if event.is_success() {
            self.position() + 1
        } else {
            self.model().steps().len()
        }
    }

    /// What goes into `Cargo.toml`.
    pub fn manifest(&self) -> (manifest: &cargo_toml::Root)
        ensures
            manifest.deep_view() == self.model().manifest,
    {
        self.krate.manifest()
    }

    /// What goes into `.cargo/config.toml`, if there is to be one.
    pub fn config(&self) -> (config: Option<&dotcargo_config::Root>)
        ensures
            config.deep_view() == self.model().config,
    {
        self.krate.config()
    }

    /// Whether nothing is left to do.
    pub fn is_finished(&self) -> (finished: bool)
        ensures
            finished == (self.position() >= self.model().steps().len()),
    {
        proof {
            use_type_invariant(self);
            assert(self.steps.deep_view().len() == self.steps@.len());
        }
        self.position >= self.steps.len()
    }

    /// Goes on after an event.
    pub fn next<I, T>(self, event: CreateEvent<I, T>) -> (next: (CrateCreation, CreateAction<I, T>))
        requires
            self.position() < self.model().steps().len(),
            event.answers(self.current()),
        ensures
            self.leads_to(event, next.0),
            next.0.model() == self.model(),
            event is Done || event is Serialized ==> next.0.position() == self.position() + 1,
            event is Failed || event is NotSerialized ==> next.1 is Finish
                && next.1->Finish_0 is Err,
            event.is_success() ==> {
                &&& next.0.position() < self.model().steps().len() ==> next.1.performs(
                    next.0.current(),
                    event.text(),
                )
                &&& next.0.position() == self.model().steps().len() ==> (
                next.1 matches CreateAction::Finish(Ok(created)) && created.deep_view()
                    == self.model().created())
            },
            !event.is_success() ==> (next.1 matches CreateAction::Finish(Err(error))
                && error.reports(self.current(), event)),
    {
        proof {
            use_type_invariant(&self);
            assert(self.steps.deep_view().len() == self.steps@.len());
            assert(self.steps.deep_view()[self.position as int]
                == self.steps@[self.position as int].deep_view());
        }
        let ghost model = self.model();
        let mut creation = self;
        let end: usize = creation.steps.len();
        let failure: CreateCrateError<I, T> = match event {
            CreateEvent::Failed(source) => creation.failure(source),
            CreateEvent::NotSerialized(source) => creation.serialize_failure(source),
            CreateEvent::Done => {
                creation.position = creation.position + 1;
                let action = creation.action("");
                return (creation, action);
            },
            CreateEvent::Serialized(text) => {
                creation.position = creation.position + 1;
                let action = creation.action(text.as_str());
                return (creation, action);
            },
        };
        creation.position = end;
        (creation, CreateAction::Finish(Err(failure)))
    }

    /// What the step at the position asks for.
    fn action<I, T>(&self, serialized: &str) -> (action: CreateAction<I, T>)
        ensures
            self.position() < self.model().steps().len() ==> action.performs(
                self.current(),
                serialized@,
            ),
            self.position() == self.model().steps().len() ==> (action matches CreateAction::Finish(
                Ok(created),
            ) && created.deep_view() == self.model().created()),
    {
        proof {
            use_type_invariant(self);
            assert(self.steps.deep_view().len() == self.steps@.len());
        }
        if self.position >= self.steps.len() {
            return CreateAction::Finish(Ok(self.created.clone()));
        }
        assert(self.steps.deep_view()[self.position as int]
            == self.steps@[self.position as int].deep_view());
        match &self.steps[self.position] {
            FileStep::MakeCrateDirectory(path) => CreateAction::MakeDirectory(path.clone()),
            FileStep::SerializeManifest => CreateAction::SerializeManifest,
            FileStep::WriteManifest(path) => CreateAction::Write(
                path.clone(),
                serialized.to_owned(),
            ),
            FileStep::MakeDotCargoDirectory(path) => CreateAction::MakeDirectory(path.clone()),
            FileStep::SerializeConfig => CreateAction::SerializeConfig,
            FileStep::WriteConfig(path) => CreateAction::Write(path.clone(), serialized.to_owned()),
            FileStep::MakeSourceDirectory(path) => CreateAction::MakeDirectory(path.clone()),
            FileStep::WriteSource(path, contents) => CreateAction::Write(
                path.clone(),
                contents.clone(),
            ),
            FileStep::WriteBuildScript(path, contents) => CreateAction::Write(
                path.clone(),
                contents.clone(),
            ),
        }
    }

    /// The error for a directory or a file.
    fn failure<I, T>(&self, source: I) -> (error: CreateCrateError<I, T>)
        requires
            self.position() < self.model().steps().len(),
            !self.current().serializes(),
        ensures
            error.reports(
                self.current(),
                CreateEvent::<I, T>::Failed(source),
            ),
    {
        proof {
            use_type_invariant(self);
            assert(self.steps.deep_view().len() == self.steps@.len());
            assert(self.steps.deep_view()[self.position as int]
                == self.steps@[self.position as int].deep_view());
        }
        match &self.steps[self.position] {
            FileStep::WriteManifest(path) => CreateCrateError::CargoTomlWrite {
                source,
                path: path.clone(),
            },
            FileStep::MakeDotCargoDirectory(path) => CreateCrateError::DotCargoCreate {
                source,
                path: path.clone(),
            },
            FileStep::WriteConfig(path) => CreateCrateError::DotCargoConfigWrite {
                source,
                path: path.clone(),
            },
            FileStep::MakeSourceDirectory(path) => CreateCrateError::SrcCreate {
                source,
                path: path.clone(),
            },
            FileStep::WriteSource(path, _) => CreateCrateError::SourceCodeWrite {
                source,
                path: path.clone(),
            },
            FileStep::WriteBuildScript(path, _) => CreateCrateError::BuildScriptWrite {
                source,
                path: path.clone(),
            },
            _ => CreateCrateError::CrateCreate { source, path: self.created.directory.clone() },
        }
    }

    /// The error for a value that has no text.
    fn serialize_failure<I, T>(&self, source: T) -> (error: CreateCrateError<I, T>)
        requires
            self.position() < self.model().steps().len(),
            self.current().serializes(),
        ensures
            error.reports(
                self.current(),
                CreateEvent::<I, T>::NotSerialized(source),
            ),
    {
        proof {
            use_type_invariant(self);
            assert(self.steps.deep_view().len() == self.steps@.len());
            assert(self.steps.deep_view()[self.position as int]
                == self.steps@[self.position as int].deep_view());
        }
        match &self.steps[self.position] {
            FileStep::SerializeManifest => CreateCrateError::CargoTomlSerialize { source },
            _ => CreateCrateError::DotCargoConfigSerialize { source },
        }
    }
}

/// Whether a crate was written from the first step on in these stages, as these
/// events came.
pub open spec fn is_being_written<I, T>(
    stages: Seq<CrateCreation>,
    events: Seq<CreateEvent<I, T>>,
) -> bool {
    &&& stages.len() == events.len() + 1
    &&& stages[0].position() == 0
    &&& forall|i: int|
        0 <= i < events.len() ==> {
            &&& stages[i].position() < stages[i].model().steps().len()
            &&& (#[trigger] events[i]).answers(stages[i].current())
            &&& stages[i].leads_to(events[i], stages[i + 1])
        }
}

proof fn lemma_in_turn<I, T>(stages: Seq<CrateCreation>, events: Seq<CreateEvent<I, T>>, i: int)
    requires
        is_being_written(stages, events),
        0 <= i <= events.len(),
    ensures
        stages[i].model() == stages[0].model(),
        i < events.len() ==> stages[i].position() == i,
        forall|j: int|
            0 <= j < i && (j < i - 1 || i < events.len()) ==> (#[trigger] events[j]).is_success(),
    decreases i,
{
    if i > 0 {
        lemma_in_turn(stages, events, i - 1);
        assert(stages[i - 1].leads_to(events[i - 1], stages[i]));
        if i < events.len() {
            assert(events[i].answers(stages[i].current()));
        }
    }
}

/// A crate is written step by step, each in its turn. Every step but the last
/// one went well, and the writing has ended if and only if the last one did not,
/// or no step is left.
pub proof fn files_are_written_in_order<I, T>(
    stages: Seq<CrateCreation>,
    events: Seq<CreateEvent<I, T>>,
)
    requires
        is_being_written(stages, events),
    ensures
        ({
            let steps = stages[0].model().steps();
            &&& stages.last().model() == stages[0].model()
            &&& events.len() <= steps.len()
            &&& forall|i: int|
                0 <= i < events.len() ==> (#[trigger] stages[i]).current() == steps[i]
            &&& forall|i: int| 0 <= i < events.len() - 1 ==> (#[trigger] events[i]).is_success()
            &&& stages.last().position() == steps.len() <==> {
                ||| events.len() == steps.len()
                ||| events.len() > 0 && !events.last().is_success()
            }
        }),
{
    let count = events.len() as int;
    let steps = stages[0].model().steps();
    lemma_in_turn(stages, events, count);
    assert forall|i: int| 0 <= i < count implies (#[trigger] stages[i]).current() == steps[i]
        && stages[i].position() == i && i < steps.len() by {
        lemma_in_turn(stages, events, i);
        assert(events[i].answers(stages[i].current()));
    }
    if count > 0 {
        assert(stages[count - 1].position() == count - 1);
        assert(stages[count - 1].leads_to(events[count - 1], stages[count]));
    }
}

/// The paths of crates that differ in name or version have different parts. Where
/// a name or a version holds a separator or is `..`, different parts can still
/// lead to the same directory.
pub proof fn crate_paths_differ(
    name: Seq<char>,
    version: Seq<char>,
    other_name: Seq<char>,
    other_version: Seq<char>,
)
    requires
        name != other_name || version != other_version,
    ensures
        crate_directory(name, version) != crate_directory(other_name, other_version),
{
    let a = crate_directory(name, version);
    let b = crate_directory(other_name, other_version);
    assert(a[1] == name && a[2] == version);
    assert(b[1] == other_name && b[2] == other_version);
}

/// Every file goes into a directory that an earlier step has made.
pub proof fn files_go_into_made_directories(krate: CrateModel)
    ensures
        forall|i: int|
            #![trigger krate.steps()[i]]
            0 <= i < krate.steps().len() && krate.steps()[i].written() is Some ==> exists|j: int|
                0 <= j < i && (#[trigger] krate.steps()[j]).made() == Some(
                    krate.steps()[i].written()->0.drop_last(),
                ),
{
    let steps = krate.steps();
    let directory = krate.created().directory;
    let configured = krate.config_steps().len();
    let sourced = krate.source_steps().len();
    assert forall|i: int|
        #![trigger steps[i]]
        0 <= i < steps.len() && steps[i].written() is Some implies exists|j: int|
        0 <= j < i && (#[trigger] steps[j]).made() == Some(steps[i].written()->0.drop_last()) by {
        let path = steps[i].written()->0;
        if i < 3 || i >= 3 + configured + sourced {
            assert(steps[0].made() == Some(directory));
            assert(path.drop_last() =~= directory);
        } else if i < 3 + configured {
            assert(steps[3].made() == Some(directory.push(".cargo"@)));
            assert(path.drop_last() =~= directory.push(".cargo"@));
        } else {
            let first = 3 + configured as int;
            assert(steps[i] == krate.source_steps()[i - first]);
            assert(steps[first].made() == Some(directory.push("src"@)));
            assert(path.drop_last() =~= directory.push("src"@));
        }
    }
}

/// What is written from serialized text is what the step just before it has
/// serialized.
pub proof fn serialized_text_is_written_next(krate: CrateModel)
    ensures
        forall|i: int|
            #![trigger krate.steps()[i]]
            0 <= i < krate.steps().len() && krate.steps()[i].writes_serialized() ==> {
                &&& i > 0
                &&& krate.steps()[i] is WriteManifest <==> krate.steps()[i - 1] is SerializeManifest
                &&& krate.steps()[i] is WriteConfig <==> krate.steps()[i - 1] is SerializeConfig
            },
{
    let steps = krate.steps();
    let configured = krate.config_steps().len();
    assert forall|i: int|
        #![trigger steps[i]]
        0 <= i < steps.len() && steps[i].writes_serialized() implies {
        &&& i > 0
        &&& steps[i] is WriteManifest <==> steps[i - 1] is SerializeManifest
        &&& steps[i] is WriteConfig <==> steps[i - 1] is SerializeConfig
    } by {
        if i >= 3 + configured {
            let first = 3 + configured as int;
            if i < first + krate.source_steps().len() {
                assert(steps[i] == krate.source_steps()[i - first]);
            }
        }
    }
}

/// No file is written twice.
pub proof fn no_file_is_written_twice(krate: CrateModel)
    requires
        krate.src.dom().finite(),
    ensures
        forall|i: int, j: int|
            #![trigger krate.steps()[i], krate.steps()[j]]
            0 <= i < j < krate.steps().len() && krate.steps()[i].written() is Some
                && krate.steps()[j].written() is Some ==> krate.steps()[i].written()
                != krate.steps()[j].written(),
{
    let steps = krate.steps();
    let configured = krate.config_steps().len();
    let first = 3 + configured as int;
    sorted_entries_of_finite(krate.src);
    let end = first + krate.source_steps().len();
    reveal_strlit("Cargo.toml");
    reveal_strlit("build.rs");
    reveal_strlit(".cargo");
    reveal_strlit("src");
    assert("Cargo.toml"@.len() != "build.rs"@.len());
    assert(".cargo"@.len() != "src"@.len());
    assert forall|i: int, j: int|
        #![trigger steps[i], steps[j]]
        0 <= i < j < steps.len() && steps[i].written() is Some && steps[j].written() is Some implies
        steps[i].written() != steps[j].written() by {
        let a = steps[i].written()->0;
        let b = steps[j].written()->0;
        if first <= i < end {
            assert(steps[i] == krate.source_steps()[i - first]);
            assert(a[3] == "src"@ && a.len() == 5);
        }
        if first <= j < end {
            assert(steps[j] == krate.source_steps()[j - first]);
            assert(b[3] == "src"@ && b.len() == 5);
        }
        if first <= i < end && first <= j < end {
            let x = sorted_entries(krate.src)[i - first - 1];
            let y = sorted_entries(krate.src)[j - first - 1];
            name_before_is_irreflexive(x.0);
            assert(a[4] == x.0 && b[4] == y.0);
        } else if i < 3 {
            assert(a[3] == "Cargo.toml"@ && a.len() == 4);
            if j >= end {
                assert(b[3] == "build.rs"@);
            } else if j < first {
                assert(b.len() == 5);
            }
        } else if i < first {
            assert(a[3] == ".cargo"@ && a.len() == 5);
            if j >= end {
                assert(b.len() == 4);
            }
        } else if j >= end {
            assert(b.len() == 4);
        }
    }
}

impl<I, T> CreateCrateError<I, T> {
    /// The path that the error is about, if it is about one.
    pub open spec fn place(self) -> Option<Seq<Seq<char>>> {
        match self {
            CreateCrateError::CrateCreate { path, .. } => Some(path.deep_view()),
            CreateCrateError::CargoTomlWrite { path, .. } => Some(path.deep_view()),
            CreateCrateError::DotCargoCreate { path, .. } => Some(path.deep_view()),
            CreateCrateError::DotCargoConfigWrite { path, .. } => Some(path.deep_view()),
            CreateCrateError::SrcCreate { path, .. } => Some(path.deep_view()),
            CreateCrateError::SourceCodeWrite { path, .. } => Some(path.deep_view()),
            CreateCrateError::BuildScriptWrite { path, .. } => Some(path.deep_view()),
            _ => None,
        }
    }

    /// The path that the error is about, if it is about one.
    pub fn path(&self) -> (path: Option<&ScratchPath>)
        ensures
            path.deep_view() == self.place(),
    {
        match self {
            CreateCrateError::CrateCreate { path, .. } => Some(path),
            CreateCrateError::CargoTomlWrite { path, .. } => Some(path),
            CreateCrateError::DotCargoCreate { path, .. } => Some(path),
            CreateCrateError::DotCargoConfigWrite { path, .. } => Some(path),
            CreateCrateError::SrcCreate { path, .. } => Some(path),
            CreateCrateError::SourceCodeWrite { path, .. } => Some(path),
            CreateCrateError::BuildScriptWrite { path, .. } => Some(path),
            _ => None,
        }
    }

    /// What the error says of itself, its path being shown as `shown`.
    pub open spec fn wording(self, shown: Seq<char>) -> Seq<char> {
        match self {
            CreateCrateError::CrateCreate { .. } => "Could not create the crate directory "@ + shown,
            CreateCrateError::CargoTomlSerialize { .. } => "Could not serialize Cargo.toml"@,
            CreateCrateError::CargoTomlWrite { .. } => "Could not write Cargo.toml to "@ + shown,
            CreateCrateError::DotCargoCreate { .. } => "Could not create the .cargo directory "@ + shown,
            CreateCrateError::DotCargoConfigSerialize { .. } => "Could not serialize .cargo/config.toml"@,
            CreateCrateError::DotCargoConfigWrite { .. } => "Could not write .cargo/config.toml to "@ + shown,
            CreateCrateError::SrcCreate { .. } => "Could not create the src directory "@ + shown,
            CreateCrateError::SourceCodeWrite { .. } => "Could not write the source file "@ + shown,
            CreateCrateError::BuildScriptWrite { .. } => "Could not write the build script "@ + shown,
        }
    }

    /// What the error says of itself, its path being shown as `shown`.
    pub fn message(&self, shown: &str) -> (text: String)
        ensures
            text@ == self.wording(shown@),
    {
        match self {
            CreateCrateError::CrateCreate { .. } => "Could not create the crate directory ".to_owned().concat(shown),
            CreateCrateError::CargoTomlSerialize { .. } => "Could not serialize Cargo.toml".to_owned(),
            CreateCrateError::CargoTomlWrite { .. } => "Could not write Cargo.toml to ".to_owned().concat(shown),
            CreateCrateError::DotCargoCreate { .. } => "Could not create the .cargo directory ".to_owned().concat(shown),
            CreateCrateError::DotCargoConfigSerialize { .. } => "Could not serialize .cargo/config.toml".to_owned(),
            CreateCrateError::DotCargoConfigWrite { .. } => "Could not write .cargo/config.toml to ".to_owned().concat(shown),
            CreateCrateError::SrcCreate { .. } => "Could not create the src directory ".to_owned().concat(shown),
            CreateCrateError::SourceCodeWrite { .. } => "Could not write the source file ".to_owned().concat(shown),
            CreateCrateError::BuildScriptWrite { .. } => "Could not write the build script ".to_owned().concat(shown),
        }
    }
}

} // verus!
