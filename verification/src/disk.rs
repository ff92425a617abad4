//! What is on disk once crates have been written.
use vstd::prelude::*;

#[allow(unused_imports)]
use crate::crates::CrateModel;
#[allow(unused_imports)]
use crate::creation::{
    files_are_written_in_order, is_being_written, no_file_is_written_twice, CrateCreation,
    CreateAction, CreateEvent, FileStepModel,
};
#[allow(unused_imports)]
use crate::name_map::{has_name, position_of, sorted_entries, sorted_entries_of_finite};

verus! {

/// The files of a scratch space: their texts by the parts of their paths.
pub type Disk = Map<Seq<Seq<char>>, Seq<char>>;

impl FileStepModel {
    /// The text of the file that the step writes, `serialized` being the text
    /// that was given before.
    pub open spec fn contents(self, serialized: Seq<char>) -> Seq<char> {
        match self {
            FileStepModel::WriteSource(_, contents) => contents,
            FileStepModel::WriteBuildScript(_, contents) => contents,
            _ => serialized,
        }
    }

    /// The files after the step was done.
    pub open spec fn done_on(self, disk: Disk, serialized: Seq<char>) -> Disk {
        match self.written() {
            Some(path) => disk.insert(path, self.contents(serialized)),
            None => disk,
        }
    }
}

impl<I, T> CreateAction<I, T> {
    /// The files after the action was done.
    pub open spec fn done_on(self, disk: Disk) -> Disk {
        match self {
            CreateAction::Write(path, text) => disk.insert(path.deep_view(), text@),
            _ => disk,
        }
    }
}

/// An action that is what a step asks for leaves the files that the step leaves.
pub proof fn actions_do_their_steps<I, T>(
    action: CreateAction<I, T>,
    step: FileStepModel,
    disk: Disk,
    serialized: Seq<char>,
)
    requires
        action.performs(step, serialized),
    ensures
        action.done_on(disk) == step.done_on(disk, serialized),
{
}

/// The text that the event before the one at the position gave.
pub open spec fn given_before<I, T>(events: Seq<CreateEvent<I, T>>, i: int) -> Seq<char> {
    if i > 0 {
        events[i - 1].text()
    } else {
        seq![]
    }
}

/// The files after as many of the steps were done as there are events.
pub open spec fn after_steps<I, T>(
    disk: Disk,
    steps: Seq<FileStepModel>,
    events: Seq<CreateEvent<I, T>>,
) -> Disk
    decreases events.len(),
{
    if events.len() == 0 {
        disk
    } else {
        let last = events.len() - 1;
        steps[last].done_on(
            after_steps(disk, steps, events.drop_last()),
            given_before(events, last),
        )
    }
}

impl CrateModel {
    /// Whether the events are those of all steps that write the crate, and every
    /// step went well.
    pub open spec fn is_written<I, T>(self, events: Seq<CreateEvent<I, T>>) -> bool {
        &&& events.len() == self.steps().len()
        &&& forall|i: int|
            0 <= i < events.len() ==> (#[trigger] events[i]).is_success() && events[i].answers(
                self.steps()[i],
            )
    }

    /// The files after the crate was written.
    pub open spec fn written_to<I, T>(self, disk: Disk, events: Seq<CreateEvent<I, T>>) -> Disk {
        after_steps(disk, self.steps(), events)
    }

    /// The text of the crate's file at the path, if it has one there. The texts
    /// of the manifest and of the configuration are those that the serializer
    /// gave.
    pub open spec fn file<I, T>(
        self,
        events: Seq<CreateEvent<I, T>>,
        path: Seq<Seq<char>>,
    ) -> Option<Seq<char>> {
        let directory = self.created().directory;
        if path == directory.push("Cargo.toml"@) {
            Some(events[1].text())
        } else if self.config is Some && path == directory.push(".cargo"@).push("config.toml"@) {
            Some(events[4].text())
        } else if self.src.contains_key(path.last()) && path == directory.push("src"@).push(
            path.last(),
        ) {
            Some(self.src[path.last()])
        } else if path == directory.push("build.rs"@) {
            self.build_script
        } else {
            None
        }
    }
}

/// A crate is written once the last of its steps went well.
pub proof fn a_crate_is_written_at_the_end<I, T>(
    stages: Seq<CrateCreation>,
    events: Seq<CreateEvent<I, T>>,
)
    requires
        is_being_written(stages, events),
        events.len() == stages[0].model().steps().len(),
        events.last().is_success(),
    ensures
        stages[0].model().is_written(events),
{
    files_are_written_in_order(stages, events);
    let steps = stages[0].model().steps();
    assert forall|i: int| 0 <= i < events.len() implies (#[trigger] events[i]).is_success()
        && events[i].answers(steps[i]) by {
        assert(stages[i].current() == steps[i]);
    }
}

/// After as many steps as there are events, a path that one of them has written
/// holds what that step wrote, and any other path what it held before.
proof fn lemma_after_steps<I, T>(
    disk: Disk,
    steps: Seq<FileStepModel>,
    events: Seq<CreateEvent<I, T>>,
    path: Seq<Seq<char>>,
)
    requires
        events.len() <= steps.len(),
        forall|i: int, j: int|
            #![trigger steps[i], steps[j]]
            0 <= i < j < steps.len() && steps[i].written() is Some && steps[j].written() is Some
                ==> steps[i].written() != steps[j].written(),
    ensures
        forall|i: int|
            0 <= i < events.len() && (#[trigger] steps[i]).written() == Some(path) ==> {
                &&& after_steps(disk, steps, events).contains_key(path)
                &&& after_steps(disk, steps, events)[path] == steps[i].contents(
                    given_before(events, i),
                )
            },
        (forall|i: int| 0 <= i < events.len() ==> (#[trigger] steps[i]).written() != Some(path))
            ==> {
            &&& after_steps(disk, steps, events).contains_key(path) == disk.contains_key(path)
            &&& after_steps(disk, steps, events)[path] == disk[path]
        },
    decreases events.len(),
{
    if events.len() > 0 {
        let before = events.drop_last();
        let last = events.len() - 1;
        lemma_after_steps(disk, steps, before, path);
        assert forall|i: int| 0 <= i < last implies #[trigger] given_before(events, i)
            == given_before(before, i) by {}
        assert forall|i: int|
            0 <= i < events.len() && (#[trigger] steps[i]).written() == Some(path) implies {
            &&& after_steps(disk, steps, events).contains_key(path)
            &&& after_steps(disk, steps, events)[path] == steps[i].contents(
                given_before(events, i),
            )
        } by {
            if i < last {
                assert(steps[last].written() != Some(path));
            }
        }
    }
}

/// Writing a crate leaves its files on disk, and any other file as it was.
pub proof fn writing_leaves_the_files<I, T>(
    krate: CrateModel,
    events: Seq<CreateEvent<I, T>>,
    disk: Disk,
    path: Seq<Seq<char>>,
)
    requires
        krate.src.dom().finite(),
        krate.is_written(events),
    ensures
        match krate.file(events, path) {
            Some(text) => krate.written_to(disk, events).contains_key(path) && krate.written_to(
                disk,
                events,
            )[path] == text,
            None => krate.written_to(disk, events).contains_key(path) == disk.contains_key(path)
                && krate.written_to(disk, events)[path] == disk[path],
        },
{
    let steps = krate.steps();
    let directory = krate.created().directory;
    let configured = krate.config_steps().len();
    let first = 3 + configured as int;
    let end = first + krate.source_steps().len();
    let files = sorted_entries(krate.src);
    no_file_is_written_twice(krate);
    sorted_entries_of_finite(krate.src);
    lemma_after_steps(disk, steps, events, path);
    reveal_strlit("Cargo.toml");
    reveal_strlit("build.rs");
    reveal_strlit(".cargo");
    reveal_strlit("src");
    assert("Cargo.toml"@.len() != "build.rs"@.len());
    assert(".cargo"@.len() != "src"@.len());
    if path == directory.push("Cargo.toml"@) {
        assert(steps[2].written() == Some(path));
    } else if krate.config is Some && path == directory.push(".cargo"@).push("config.toml"@) {
        assert(steps[5].written() == Some(path));
    } else if krate.src.contains_key(path.last()) && path == directory.push("src"@).push(
        path.last(),
    ) {
        assert(path.len() == 5 && path[3] == "src"@);
        assert(has_name(files, path.last()));
        let k = position_of(files, path.last());
        assert(files[k].0 == path.last() && files[k].1 == krate.src[path.last()]);
        assert(krate.source_writes()[k] == FileStepModel::WriteSource(path, files[k].1));
        assert(steps[first + 1 + k] == krate.source_writes()[k]);
        assert(steps[first + 1 + k].written() == Some(path));
    } else if krate.build_script is Some && path == directory.push("build.rs"@) {
        assert(path.len() == 4 && path[3] == "build.rs"@);
        assert(steps[end].written() == Some(path));
    } else {
        assert forall|i: int| 0 <= i < events.len() implies (#[trigger] steps[i]).written() != Some(
            path,
        ) by {
            if first <= i < end {
                assert(steps[i] == krate.source_steps()[i - first]);
                if i > first {
                    let k = i - first - 1;
                    assert(steps[i] == krate.source_writes()[k]);
                    let name = files[k].0;
                    assert(has_name(files, name));
                    assert(krate.src.contains_key(name));
                    if steps[i].written() == Some(path) {
                        assert(path == directory.push("src"@).push(name));
                        assert(path.last() == name);
                    }
                }
            }
        }
    }
}

/// A crate can be written where one of the same name and version was written
/// before. Every file of the second one then holds its text, a file that only
/// the first one has keeps its own, and any other file stays as it was.
pub proof fn a_second_write_overwrites<I, T>(
    first: CrateModel,
    first_events: Seq<CreateEvent<I, T>>,
    second: CrateModel,
    second_events: Seq<CreateEvent<I, T>>,
    disk: Disk,
    path: Seq<Seq<char>>,
)
    requires
        first.manifest.package.name == second.manifest.package.name,
        first.manifest.package.version == second.manifest.package.version,
        first.src.dom().finite(),
        second.src.dom().finite(),
        first.is_written(first_events),
        second.is_written(second_events),
    ensures
        first.created() == second.created(),
        ({
            let left = second.written_to(first.written_to(disk, first_events), second_events);
            match (second.file(second_events, path), first.file(first_events, path)) {
                (Some(text), _) => left.contains_key(path) && left[path] == text,
                (None, Some(text)) => left.contains_key(path) && left[path] == text,
                (None, None) => left.contains_key(path) == disk.contains_key(path) && left[path]
                    == disk[path],
            }
        }),
{
    writing_leaves_the_files(first, first_events, disk, path);
    writing_leaves_the_files(
        second,
        second_events,
        first.written_to(disk, first_events),
        path,
    );
}

/// Writing a crate leaves everything in the directory of a crate of another name
/// or version as it was.
pub proof fn other_crates_stay<I, T>(
    krate: CrateModel,
    events: Seq<CreateEvent<I, T>>,
    other: CrateModel,
    disk: Disk,
    path: Seq<Seq<char>>,
)
    requires
        krate.manifest.package.name != other.manifest.package.name
            || krate.manifest.package.version != other.manifest.package.version,
        krate.src.dom().finite(),
        krate.is_written(events),
        other.created().directory.is_prefix_of(path),
    ensures
        krate.written_to(disk, events).contains_key(path) == disk.contains_key(path),
        krate.written_to(disk, events)[path] == disk[path],
{
    writing_leaves_the_files(krate, events, disk, path);
    let directory = other.created().directory;
    assert(path[1] == directory[1] && path[2] == directory[2]);
    assert(directory[1] == other.manifest.package.name);
    assert(directory[2] == other.manifest.package.version);
    if krate.file(events, path) is Some {
        assert(path[1] == krate.manifest.package.name);
        assert(path[2] == krate.manifest.package.version);
    }
}

} // verus!
