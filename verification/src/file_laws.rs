//! What holds of the steps that write a crate, and of what they leave on disk.
use vstd::prelude::*;

#[allow(unused_imports)]
use crate::crates::CrateModel;
#[allow(unused_imports)]
use crate::creation::{CreateAction, CreateCrateError, CreateEvent, FileStepModel};
#[allow(unused_imports)]
use crate::disk::{writing_leaves_the_files, Disk};
#[allow(unused_imports)]
use crate::name_map::{sorted_entries, sorted_entries_list_the_map};
#[allow(unused_imports)]
use crate::text::name_before;

verus! {

/// Once a crate is written, its manifest, its configuration, every source file
/// and its build script stand in its directory below `crates`, each with its
/// whole text, and no other file has changed.
pub proof fn every_part_is_in_its_file<I, T>(
    krate: CrateModel,
    events: Seq<CreateEvent<I, T>>,
    disk: Disk,
    name: Seq<char>,
    path: Seq<Seq<char>>,
)
    requires
        krate.src.dom().finite(),
        krate.is_written(events),
    ensures
        ({
            let id = krate.manifest.package.name;
            let version = krate.manifest.package.version;
            let manifest = seq!["crates"@, id, version, "Cargo.toml"@];
            let config = seq!["crates"@, id, version, ".cargo"@, "config.toml"@];
            let source = seq!["crates"@, id, version, "src"@, name];
            let build = seq!["crates"@, id, version, "build.rs"@];
            let after = krate.written_to(disk, events);
            &&& after.contains_key(manifest)
            &&& events[1] is Serialized
            &&& after[manifest] == events[1]->Serialized_0@
            &&& krate.config is Some ==> {
                &&& after.contains_key(config)
                &&& events[4] is Serialized
                &&& after[config] == events[4]->Serialized_0@
            }
            &&& krate.config is None ==> after.contains_key(config) == disk.contains_key(config)
                && after[config] == disk[config]
            &&& krate.src.contains_key(name) ==> after.contains_key(source) && after[source]
                == krate.src[name]
            &&& !krate.src.contains_key(name) ==> after.contains_key(source)
                == disk.contains_key(source) && after[source] == disk[source]
            &&& krate.build_script matches Some(text) ==> after.contains_key(build)
                && after[build] == text
            &&& krate.build_script is None ==> after.contains_key(build) == disk.contains_key(build)
                && after[build] == disk[build]
            &&& path != manifest && path != config && path != build && !(path.len() == 5
                && path.take(4) == seq!["crates"@, id, version, "src"@]) ==> after.contains_key(path)
                == disk.contains_key(path) && after[path] == disk[path]
        }),
{
    let id = krate.manifest.package.name;
    let version = krate.manifest.package.version;
    let directory = krate.created().directory;
    assert(directory =~= seq!["crates"@, id, version]);
    let manifest = seq!["crates"@, id, version, "Cargo.toml"@];
    let config = seq!["crates"@, id, version, ".cargo"@, "config.toml"@];
    let source = seq!["crates"@, id, version, "src"@, name];
    let build = seq!["crates"@, id, version, "build.rs"@];
    assert(directory.push("Cargo.toml"@) =~= manifest);
    assert(directory.push(".cargo"@).push("config.toml"@) =~= config);
    assert(directory.push("src"@).push(name) =~= source);
    assert(directory.push("build.rs"@) =~= build);
    reveal_strlit("Cargo.toml");
    reveal_strlit("build.rs");
    reveal_strlit(".cargo");
    reveal_strlit("src");
    assert("Cargo.toml"@.len() != "build.rs"@.len());
    assert(".cargo"@.len() != "src"@.len());
    assert(source.last() == name);
    assert(config[3] == ".cargo"@ && source[3] == "src"@);
    assert(manifest[3] == "Cargo.toml"@ && build[3] == "build.rs"@);
    if path.len() == 5 {
        let there = directory.push("src"@).push(path.last());
        assert(there.take(4) =~= seq!["crates"@, id, version, "src"@]);
    }
    assert(config != directory.push("src"@).push(config.last())) by {
        assert(directory.push("src"@).push(config.last())[3] == "src"@);
    }
    assert(build.len() == 4);
    assert(krate.steps()[1] is SerializeManifest);
    assert(events[1].answers(krate.steps()[1]) && events[1].is_success());
    if krate.config is Some {
        assert(krate.steps()[4] is SerializeConfig);
        assert(events[4].answers(krate.steps()[4]) && events[4].is_success());
    }
    writing_leaves_the_files(krate, events, disk, manifest);
    writing_leaves_the_files(krate, events, disk, config);
    writing_leaves_the_files(krate, events, disk, source);
    writing_leaves_the_files(krate, events, disk, build);
    writing_leaves_the_files(krate, events, disk, path);
}

/// A crate's directory, those for its configuration and for its sources are made
/// below `crates`, the latter two only if they are needed.
pub proof fn directories_are_made_where_needed(krate: CrateModel, path: Seq<Seq<char>>)
    requires
        krate.src.dom().finite(),
    ensures
        ({
            let id = krate.manifest.package.name;
            let version = krate.manifest.package.version;
            (exists|i: int|
                0 <= i < krate.steps().len() && (#[trigger] krate.steps()[i]).made() == Some(path))
                <==> {
                ||| path == seq!["crates"@, id, version]
                ||| krate.config is Some && path == seq!["crates"@, id, version, ".cargo"@]
                ||| (exists|name: Seq<char>| #[trigger] krate.src.contains_key(name)) && path
                    == seq!["crates"@, id, version, "src"@]
            }
        }),
        krate.steps()[0].made() is Some,
{
    let id = krate.manifest.package.name;
    let version = krate.manifest.package.version;
    let directory = krate.created().directory;
    let steps = krate.steps();
    let configured = krate.config_steps().len();
    let first = 3 + configured as int;
    assert(directory =~= seq!["crates"@, id, version]);
    assert(directory.push(".cargo"@) =~= seq!["crates"@, id, version, ".cargo"@]);
    assert(directory.push("src"@) =~= seq!["crates"@, id, version, "src"@]);
    let some = exists|name: Seq<char>| #[trigger] krate.src.contains_key(name);
    if krate.src == Map::<Seq<char>, Seq<char>>::empty() {
        assert(!some);
    } else if !some {
        assert(krate.src =~= Map::<Seq<char>, Seq<char>>::empty());
    }
    assert(steps[0].made() == Some(directory));
    if krate.config is Some {
        assert(steps[3].made() == Some(directory.push(".cargo"@)));
    }
    if some {
        assert(steps[first].made() == Some(directory.push("src"@)));
    }
    assert forall|i: int| 0 <= i < steps.len() && (#[trigger] steps[i]).made() == Some(path) implies {
        ||| path == directory
        ||| krate.config is Some && path == directory.push(".cargo"@)
        ||| some && path == directory.push("src"@)
    } by {
        if first <= i < first + krate.source_steps().len() {
            assert(steps[i] == krate.source_steps()[i - first]);
        }
    }
}

/// The place of a step among the kinds of steps: the manifest comes first, then
/// the configuration, the sources and the build script.
pub open spec fn turn(step: FileStepModel) -> int {
    match step {
        FileStepModel::MakeCrateDirectory(_) => 0,
        FileStepModel::SerializeManifest => 1,
        FileStepModel::WriteManifest(_) => 2,
        FileStepModel::MakeDotCargoDirectory(_) => 3,
        FileStepModel::SerializeConfig => 4,
        FileStepModel::WriteConfig(_) => 5,
        FileStepModel::MakeSourceDirectory(_) => 6,
        FileStepModel::WriteSource(_, _) => 7,
        FileStepModel::WriteBuildScript(_, _) => 8,
    }
}

/// The steps come in the order of their kinds, and no kind but the writing of a
/// source file comes twice. Source files come in ascending order of name.
pub proof fn steps_come_in_turn(krate: CrateModel, i: int, j: int)
    requires
        krate.src.dom().finite(),
        0 <= i < j < krate.steps().len(),
    ensures
        turn(krate.steps()[i]) < turn(krate.steps()[j]) || {
            &&& krate.steps()[i] is WriteSource
            &&& krate.steps()[j] is WriteSource
            &&& name_before(
                krate.steps()[i]->WriteSource_0.last(),
                krate.steps()[j]->WriteSource_0.last(),
            )
        },
{
    let steps = krate.steps();
    let first = 3 + krate.config_steps().len() as int;
    let end = first + krate.source_steps().len() as int;
    sorted_entries_list_the_map(krate.src);
    if first <= i < end {
        assert(steps[i] == krate.source_steps()[i - first]);
    }
    if first <= j < end {
        assert(steps[j] == krate.source_steps()[j - first]);
    }
    if first < i < end && j < end {
        let x = sorted_entries(krate.src)[i - first - 1];
        let y = sorted_entries(krate.src)[j - first - 1];
        assert(steps[i]->WriteSource_0.last() == x.0);
        assert(steps[j]->WriteSource_0.last() == y.0);
    }
}

/// What a step makes and what it writes, and with what text.
pub proof fn steps_make_or_write(path: Seq<Seq<char>>, text: Seq<char>, serialized: Seq<char>)
    ensures
        FileStepModel::MakeCrateDirectory(path).made() == Some(path),
        FileStepModel::MakeDotCargoDirectory(path).made() == Some(path),
        FileStepModel::MakeSourceDirectory(path).made() == Some(path),
        FileStepModel::WriteManifest(path).written() == Some(path),
        FileStepModel::WriteConfig(path).written() == Some(path),
        FileStepModel::WriteSource(path, text).written() == Some(path),
        FileStepModel::WriteBuildScript(path, text).written() == Some(path),
        FileStepModel::WriteManifest(path).contents(serialized) == serialized,
        FileStepModel::WriteConfig(path).contents(serialized) == serialized,
        FileStepModel::WriteSource(path, text).contents(serialized) == text,
        FileStepModel::WriteBuildScript(path, text).contents(serialized) == text,
        FileStepModel::SerializeManifest.serializes(),
        FileStepModel::SerializeConfig.serializes(),
        forall|step: FileStepModel|
            {
                &&& #[trigger] step.serializes() ==> step.made() is None && step.written() is None
                &&& step.made() is Some ==> step.written() is None
                &&& step.made() is Some || step.written() is Some || step.serializes()
            },
{
}

/// The action for a step makes the very directory, writes the very text to the
/// very file, or turns the very value into text.
pub proof fn actions_are_what_steps_say<I, T>(
    action: CreateAction<I, T>,
    step: FileStepModel,
    serialized: Seq<char>,
)
    requires
        action.performs(step, serialized),
    ensures
        step.made() is Some <==> action is MakeDirectory,
        action matches CreateAction::MakeDirectory(path) ==> step.made() == Some(path.deep_view()),
        step.written() is Some <==> action is Write,
        action matches CreateAction::Write(path, text) ==> step.written() == Some(path.deep_view())
            && text@ == step.contents(serialized),
        step is SerializeManifest <==> action is SerializeManifest,
        step is SerializeConfig <==> action is SerializeConfig,
        action !is Finish,
{
}

/// A directory or a file is done or fails, and a value is turned into text or
/// cannot be; any of these may come of the step that asked for it.
pub proof fn outcomes_fit_their_steps<I, T>(step: FileStepModel, text: String, source: I, cause: T)
    ensures
        step.serializes() ==> {
            &&& CreateEvent::<I, T>::Serialized(text).answers(step)
            &&& CreateEvent::<I, T>::NotSerialized(cause).answers(step)
            &&& !CreateEvent::<I, T>::Done.answers(step)
            &&& !CreateEvent::<I, T>::Failed(source).answers(step)
        },
        !step.serializes() ==> {
            &&& CreateEvent::<I, T>::Done.answers(step)
            &&& CreateEvent::<I, T>::Failed(source).answers(step)
            &&& !CreateEvent::<I, T>::Serialized(text).answers(step)
            &&& !CreateEvent::<I, T>::NotSerialized(cause).answers(step)
        },
        CreateEvent::<I, T>::Done.is_success(),
        CreateEvent::<I, T>::Serialized(text).is_success(),
        CreateEvent::<I, T>::Serialized(text).text() == text@,
        !CreateEvent::<I, T>::Failed(source).is_success(),
        !CreateEvent::<I, T>::NotSerialized(cause).is_success(),
{
}

/// An error tells which step has failed, on which path, and why.
pub proof fn errors_tell_what_failed<I, T>(
    error: CreateCrateError<I, T>,
    step: FileStepModel,
    event: CreateEvent<I, T>,
)
    requires
        error.reports(step, event),
    ensures
        error is CrateCreate <==> step is MakeCrateDirectory,
        error is CargoTomlSerialize <==> step is SerializeManifest,
        error is CargoTomlWrite <==> step is WriteManifest,
        error is DotCargoCreate <==> step is MakeDotCargoDirectory,
        error is DotCargoConfigSerialize <==> step is SerializeConfig,
        error is DotCargoConfigWrite <==> step is WriteConfig,
        error is SrcCreate <==> step is MakeSourceDirectory,
        error is SourceCodeWrite <==> step is WriteSource,
        error is BuildScriptWrite <==> step is WriteBuildScript,
        step.made() is Some ==> error.place() == step.made(),
        step.written() is Some ==> error.place() == step.written(),
        step.serializes() ==> error.place() is None,
        match error {
            CreateCrateError::CargoTomlSerialize { source } => event
                == CreateEvent::<I, T>::NotSerialized(source),
            CreateCrateError::DotCargoConfigSerialize { source } => event
                == CreateEvent::<I, T>::NotSerialized(source),
            CreateCrateError::CrateCreate { source, .. } => event == CreateEvent::<I, T>::Failed(
                source,
            ),
            CreateCrateError::CargoTomlWrite { source, .. } => event == CreateEvent::<
                I,
                T,
            >::Failed(source),
            CreateCrateError::DotCargoCreate { source, .. } => event == CreateEvent::<
                I,
                T,
            >::Failed(source),
            CreateCrateError::DotCargoConfigWrite { source, .. } => event == CreateEvent::<
                I,
                T,
            >::Failed(source),
            CreateCrateError::SrcCreate { source, .. } => event == CreateEvent::<I, T>::Failed(
                source,
            ),
            CreateCrateError::SourceCodeWrite { source, .. } => event == CreateEvent::<
                I,
                T,
            >::Failed(source),
            CreateCrateError::BuildScriptWrite { source, .. } => event == CreateEvent::<
                I,
                T,
            >::Failed(source),
        },
{
}

/// An error with a path is worded with that path, whatever it is, at its end, and
/// an error without one in the same way always.
pub proof fn errors_end_with_their_path<I, T>(error: CreateCrateError<I, T>, shown: Seq<char>)
    ensures
        error.place() is Some ==> error.wording(shown) == error.wording(seq![]) + shown,
        error.place() is None ==> error.wording(shown) == error.wording(seq![]),
{
    assert(error.wording(seq![]) + shown =~= error.wording(shown) || error.place() is None);
}

} // verus!
