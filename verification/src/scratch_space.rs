//! The directory tree that a conformance test works in.
use vstd::pervasive::unreached;
use vstd::prelude::*;

use crate::scratch_path::ScratchPath;

verus! {

/// What is said when Cargo has downloaded from more than one registry.
pub const TOO_MANY_REGISTRIES: &'static str = "Too many registries here";

/// Where Cargo keeps its own files.
pub open spec fn cargo_home_parts() -> Seq<Seq<char>> {
    seq!["cargo-home"@]
}

/// Where the crates of a test are written.
pub open spec fn crates_parts() -> Seq<Seq<char>> {
    seq!["crates"@]
}

/// Where the registry under test keeps its files.
pub open spec fn registry_parts() -> Seq<Seq<char>> {
    seq!["registry"@]
}

/// Where Cargo keeps the packages that it has downloaded, one directory for
/// each registry.
pub open spec fn cache_parts() -> Seq<Seq<char>> {
    cargo_home_parts().push("registry"@).push("cache"@)
}

/// The layout of a scratch space.
#[derive(Debug)]
pub struct ScratchSpace {
    cargo_home_path: ScratchPath,
    crates_path: ScratchPath,
    registry_path: ScratchPath,
}

impl ScratchSpace {
    #[verifier::type_invariant]
    spec fn laid_out(self) -> bool {
        &&& self.cargo_home_path.deep_view() == cargo_home_parts()
        &&& self.crates_path.deep_view() == crates_parts()
        &&& self.registry_path.deep_view() == registry_parts()
    }

    /// The layout that every scratch space has.
    fn layout() -> (space: ScratchSpace)
        ensures
            space.cargo_home_path.deep_view() == cargo_home_parts(),
            space.crates_path.deep_view() == crates_parts(),
            space.registry_path.deep_view() == registry_parts(),
    {
        let root = ScratchPath::root();
        let cargo_home_path = root.join("cargo-home");
        let crates_path = root.join("crates");
        let registry_path = root.join("registry");
        proof {
            assert(cargo_home_path.deep_view() =~= cargo_home_parts());
            assert(crates_path.deep_view() =~= crates_parts());
            assert(registry_path.deep_view() =~= registry_parts());
        }
        ScratchSpace { cargo_home_path, crates_path, registry_path }
    }

    /// Starts to set up a scratch space.
    pub fn new<E>() -> (begun: (ScratchStage, ScratchAction<E>))
        ensures
            begun.0 == ScratchStage::Root,
            begun.1 == ScratchAction::<E>::MakeRoot,
    {
        (ScratchStage::Root, ScratchAction::MakeRoot)
    }

    /// The directory that holds everything else.
    pub fn root(&self) -> (path: ScratchPath)
        ensures
            path.deep_view() == Seq::<Seq<char>>::empty(),
    {
        ScratchPath::root()
    }

    pub fn cargo_home(&self) -> (path: &ScratchPath)
        ensures
            path.deep_view() == cargo_home_parts(),
    {
        proof {
            use_type_invariant(self);
        }
        &self.cargo_home_path
    }

    pub fn crates(&self) -> (path: &ScratchPath)
        ensures
            path.deep_view() == crates_parts(),
    {
        proof {
            use_type_invariant(self);
        }
        &self.crates_path
    }

    pub fn registry(&self) -> (path: &ScratchPath)
        ensures
            path.deep_view() == registry_parts(),
    {
        proof {
            use_type_invariant(self);
        }
        &self.registry_path
    }

    /// Starts to count the packages that Cargo has downloaded.
    pub fn downloaded_crates<E, N>(&self) -> (begun: (CacheScan<N>, CacheAction<E, N>))
        ensures
            begun.0 == CacheScan::<N>::OpeningCache,
            begun.1 matches CacheAction::OpenCache(path) && path.deep_view() == cache_parts(),
    {
        (CacheScan::OpeningCache, CacheAction::OpenCache(self.cache()))
    }

    fn cache(&self) -> (path: ScratchPath)
        ensures
            path.deep_view() == cache_parts(),
    {
        let mut cache_path = self.cargo_home().join("registry");
        cache_path.push("cache");
        cache_path
    }
}

impl Clone for ScratchSpace {
    fn clone(&self) -> Self {
        Self::layout()
    }
}

/// Why a scratch space could not be set up.
#[derive(Debug)]
pub enum ScratchSpaceError<E> {
    Root { source: E },
    CargoHomeCreate { source: E, path: ScratchPath },
    CratesCreate { source: E, path: ScratchPath },
    RegistryCreate { source: E, path: ScratchPath },
}

/// Which directory of a scratch space is being made.
#[derive(Debug, Clone, Copy, PartialEq, Eq, Structural)]
pub enum ScratchStage {
    Root,
    CargoHome,
    Crates,
    Registry,
    Finished,
}

/// What is to be done next to set up a scratch space.
#[derive(Debug)]
pub enum ScratchAction<E> {
    MakeRoot,
    MakeDirectory(ScratchPath),
    Finish(Result<ScratchSpace, ScratchSpaceError<E>>),
}

impl ScratchStage {
    /// The stage after this one.
    pub open spec fn following(self) -> ScratchStage {
        match self {
            ScratchStage::Root => ScratchStage::CargoHome,
            ScratchStage::CargoHome => ScratchStage::Crates,
            ScratchStage::Crates => ScratchStage::Registry,
            ScratchStage::Registry => ScratchStage::Finished,
            ScratchStage::Finished => ScratchStage::Finished,
        }
    }

    /// The directory that is made at this stage.
    pub open spec fn directory(self) -> Seq<Seq<char>> {
        match self {
            ScratchStage::CargoHome => cargo_home_parts(),
            ScratchStage::Crates => crates_parts(),
            ScratchStage::Registry => registry_parts(),
            _ => seq![],
        }
    }

    /// Whether `error` says that this stage failed for the reason `source`.
    pub open spec fn failed_with<E>(self, error: ScratchSpaceError<E>, source: E) -> bool {
        match error {
            ScratchSpaceError::Root { source: s } => self is Root && s == source,
            ScratchSpaceError::CargoHomeCreate { source: s, path } => self is CargoHome && s
                == source && path.deep_view() == self.directory(),
            ScratchSpaceError::CratesCreate { source: s, path } => self is Crates && s == source
                && path.deep_view() == self.directory(),
            ScratchSpaceError::RegistryCreate { source: s, path } => self is Registry && s
                == source && path.deep_view() == self.directory(),
        }
    }

    /// Goes on after the directory of this stage was made, or could not be.
    pub fn next<E>(self, outcome: Result<(), E>) -> (next: (ScratchStage, ScratchAction<E>))
        requires
            self !is Finished,
        ensures
            outcome is Ok ==> next.0 == self.following(),
            outcome is Ok && self !is Registry ==> (next.1 matches ScratchAction::MakeDirectory(path)
                && path.deep_view() == self.following().directory()),
            outcome is Ok && self is Registry ==> next.1 is Finish && next.1->Finish_0 is Ok,
            outcome matches Err(source) ==> next.0 is Finished && (next.1 matches ScratchAction::Finish(
                Err(error),
            ) && self.failed_with(error, source)),
    {
        let space = ScratchSpace::layout();
        match outcome {
            Ok(()) => match self {
                ScratchStage::Root => (
                    ScratchStage::CargoHome,
                    ScratchAction::MakeDirectory(space.cargo_home().clone()),
                ),
                ScratchStage::CargoHome => (
                    ScratchStage::Crates,
                    ScratchAction::MakeDirectory(space.crates().clone()),
                ),
                ScratchStage::Crates => (
                    ScratchStage::Registry,
                    ScratchAction::MakeDirectory(space.registry().clone()),
                ),
                _ => (ScratchStage::Finished, ScratchAction::Finish(Ok(space))),
            },
            Err(source) => {
                let error = match self {
                    ScratchStage::Root => ScratchSpaceError::Root { source },
                    ScratchStage::CargoHome => ScratchSpaceError::CargoHomeCreate {
                        source,
                        path: space.cargo_home().clone(),
                    },
                    ScratchStage::Crates => ScratchSpaceError::CratesCreate {
                        source,
                        path: space.crates().clone(),
                    },
                    _ => ScratchSpaceError::RegistryCreate {
                        source,
                        path: space.registry().clone(),
                    },
                };
                (ScratchStage::Finished, ScratchAction::Finish(Err(error)))
            },
        }
    }
}

/// Why the downloaded packages could not be counted. The directory of a
/// registry is `path` joined with `registry`.
#[derive(Debug)]
pub enum DownloadedCratesError<E, N> {
    OpenCache { source: E, path: ScratchPath },
    EnumerateCache { source: E, path: ScratchPath },
    OpenRegistry { source: E, path: ScratchPath, registry: N },
    EnumerateRegistry { source: E, path: ScratchPath, registry: N },
}

/// How far the count of the downloaded packages has come.
#[derive(Debug)]
pub enum CacheScan<N> {
    OpeningCache,
    ListingCache { found: Option<N> },
    OpeningRegistry { registry: N },
    ListingRegistry { registry: N, count: usize },
    Finished,
}

/// What came of the last action.
#[derive(Debug)]
pub enum CacheEvent<E, N> {
    /// The directory is open.
    Opened,
    /// The directory has one more entry, of this name.
    Entry(N),
    /// The directory has no more entries.
    Exhausted,
    /// The action failed, `not_found` if because there is no such directory.
    Failed { source: E, not_found: bool },
}

/// What is to be done next to count the downloaded packages.
#[derive(Debug)]
pub enum CacheAction<E, N> {
    /// Open the directory of all registries.
    OpenCache(ScratchPath),
    /// Open the directory of the registry that was found.
    OpenRegistry,
    /// Read one more entry of the directory that was opened last.
    NextEntry,
    /// Panic with the text, since there is more than one registry.
    TooManyRegistries(&'static str),
    Finish(Result<usize, DownloadedCratesError<E, N>>),
}

impl<N> CacheScan<N> {
    /// Whether the event can come of what was asked for last.
    pub open spec fn expects<E>(self, event: CacheEvent<E, N>) -> bool {
        match self {
            CacheScan::OpeningCache | CacheScan::OpeningRegistry { .. } => event is Opened
                || event is Failed,
            CacheScan::ListingCache { .. } => event !is Opened,
            CacheScan::ListingRegistry { count, .. } => event !is Opened && (event is Entry ==> count
                < usize::MAX),
            CacheScan::Finished => false,
        }
    }

    /// How far the count has come after the event.
    pub open spec fn after<E>(self, event: CacheEvent<E, N>) -> CacheScan<N> {
        match (self, event) {
            (CacheScan::OpeningCache, CacheEvent::Opened) => CacheScan::ListingCache {
                found: None,
            },
            (
                CacheScan::ListingCache { found: None },
                CacheEvent::Entry(name),
            ) => CacheScan::ListingCache { found: Some(name) },
            (
                CacheScan::ListingCache { found: Some(registry) },
                CacheEvent::Exhausted,
            ) => CacheScan::OpeningRegistry { registry },
            (
                CacheScan::OpeningRegistry { registry },
                CacheEvent::Opened,
            ) => CacheScan::ListingRegistry { registry, count: 0 },
            (
                CacheScan::ListingRegistry { registry, count },
                CacheEvent::Entry(_),
            ) => CacheScan::ListingRegistry { registry, count: (count + 1) as usize },
            _ => CacheScan::Finished,
        }
    }

    /// The count, where the event ends it well. A directory that does not
    /// exist holds no packages.
    pub open spec fn total<E>(self, event: CacheEvent<E, N>) -> Option<usize> {
        match (self, event) {
            (
                CacheScan::OpeningCache | CacheScan::OpeningRegistry { .. },
                CacheEvent::Failed { not_found, .. },
            ) => if not_found {
                Some(0)
            } else {
                None
            },
            (CacheScan::ListingCache { found: None }, CacheEvent::Exhausted) => Some(0),
            (CacheScan::ListingRegistry { count, .. }, CacheEvent::Exhausted) => Some(count),
            _ => None,
        }
    }

    /// Whether `error` says that what was asked for last failed for the reason
    /// `source`.
    pub open spec fn failed_with<E>(self, error: DownloadedCratesError<E, N>, source: E) -> bool {
        match error {
            DownloadedCratesError::OpenCache { source: s, path } => self is OpeningCache && s
                == source && path.deep_view() == cache_parts(),
            DownloadedCratesError::EnumerateCache { source: s, path } => self is ListingCache && s
                == source && path.deep_view() == cache_parts(),
            DownloadedCratesError::OpenRegistry { source: s, path, registry } => self
                == (CacheScan::OpeningRegistry { registry }) && s == source && path.deep_view()
                == cache_parts(),
            DownloadedCratesError::EnumerateRegistry { source: s, path, registry } => self
                is ListingRegistry && self->ListingRegistry_registry == registry && s == source
                && path.deep_view() == cache_parts(),
        }
    }

    /// Goes on after an event.
    pub fn next<E>(self, event: CacheEvent<E, N>) -> (next: (CacheScan<N>, CacheAction<E, N>))
        requires
            self.expects(event),
        ensures
            next.0 == self.after(event),
            next.1 is NextEntry <==> next.0 is ListingCache || next.0 is ListingRegistry,
            next.1 is OpenRegistry <==> next.0 is OpeningRegistry,
            next.1 is TooManyRegistries <==> self is ListingCache
                && self->ListingCache_found is Some && event is Entry,
            next.1 matches CacheAction::TooManyRegistries(text) ==> text@ == TOO_MANY_REGISTRIES@,
            self.total(event) is Some <==> next.1 is Finish && next.1->Finish_0 is Ok,
            self.total(event) matches Some(count) ==> next.1 == CacheAction::<E, N>::Finish(
                Ok(count),
            ),
            self.total(event) is None ==> (event matches CacheEvent::Failed { source, .. } ==> (
            next.1 matches CacheAction::Finish(Err(error)) && self.failed_with(error, source))),
    {
        let path = ScratchSpace::layout().cache();
        match self {
            CacheScan::OpeningCache => match event {
                CacheEvent::Failed { source, not_found } => if not_found {
                    (CacheScan::Finished, CacheAction::Finish(Ok(0)))
                } else {
                    let error = DownloadedCratesError::OpenCache { source, path };
                    (CacheScan::Finished, CacheAction::Finish(Err(error)))
                },
                _ => (CacheScan::ListingCache { found: None }, CacheAction::NextEntry),
            },
            CacheScan::ListingCache { found } => match event {
                CacheEvent::Failed { source, .. } => {
                    let error = DownloadedCratesError::EnumerateCache { source, path };
                    (CacheScan::Finished, CacheAction::Finish(Err(error)))
                },
                CacheEvent::Entry(name) => match found {
                    Some(_) => (
                        CacheScan::Finished,
                        CacheAction::TooManyRegistries(TOO_MANY_REGISTRIES),
                    ),
                    None => (
                        CacheScan::ListingCache { found: Some(name) },
                        CacheAction::NextEntry,
                    ),
                },
                _ => match found {
                    Some(registry) => (
                        CacheScan::OpeningRegistry { registry },
                        CacheAction::OpenRegistry,
                    ),
                    None => (CacheScan::Finished, CacheAction::Finish(Ok(0))),
                },
            },
            CacheScan::OpeningRegistry { registry } => match event {
                CacheEvent::Failed { source, not_found } => if not_found {
                    (CacheScan::Finished, CacheAction::Finish(Ok(0)))
                } else {
                    let error = DownloadedCratesError::OpenRegistry { source, path, registry };
                    (CacheScan::Finished, CacheAction::Finish(Err(error)))
                },
                _ => (CacheScan::ListingRegistry { registry, count: 0 }, CacheAction::NextEntry),
            },
            CacheScan::ListingRegistry { registry, count } => match event {
                CacheEvent::Failed { source, .. } => {
                    let error = DownloadedCratesError::EnumerateRegistry { source, path, registry };
                    (CacheScan::Finished, CacheAction::Finish(Err(error)))
                },
                CacheEvent::Entry(_) => (
                    CacheScan::ListingRegistry { registry, count: count + 1 },
                    CacheAction::NextEntry,
                ),
                _ => (CacheScan::Finished, CacheAction::Finish(Ok(count))),
            },
            CacheScan::Finished => unreached(),
        }
    }
}

/// How far the count has come after a series of events.
pub open spec fn after_all<E, N>(scan: CacheScan<N>, events: Seq<CacheEvent<E, N>>) -> CacheScan<N>
    decreases events.len(),
{
    if events.len() == 0 {
        scan
    } else {
        after_all(scan, events.drop_last()).after(events.last())
    }
}

/// Whether every event of a series can come when it comes.
pub open spec fn expects_all<E, N>(scan: CacheScan<N>, events: Seq<CacheEvent<E, N>>) -> bool
    decreases events.len(),
{
    events.len() > 0 ==> {
        &&& expects_all(scan, events.drop_last())
        &&& after_all(scan, events.drop_last()).expects(events.last())
    }
}

/// What is met when the only registry has packages of these names.
pub open spec fn one_registry_events<E, N>(registry: N, names: Seq<N>) -> Seq<CacheEvent<E, N>> {
    seq![
        CacheEvent::<E, N>::Opened,
        CacheEvent::<E, N>::Entry(registry),
        CacheEvent::<E, N>::Exhausted,
        CacheEvent::<E, N>::Opened,
    ] + names.map_values(|name: N| CacheEvent::<E, N>::Entry(name))
}

/// Where there is one registry, the count is the number of its packages,
/// whatever their names.
pub proof fn every_package_counts<E, N>(registry: N, names: Seq<N>)
    requires
        names.len() <= usize::MAX,
    ensures
        ({
            let events = one_registry_events::<E, N>(registry, names);
            let scan = after_all(CacheScan::<N>::OpeningCache, events);
            &&& expects_all(CacheScan::<N>::OpeningCache, events)
            &&& scan == (CacheScan::ListingRegistry { registry, count: names.len() as usize })
            &&& scan.total(CacheEvent::<E, N>::Exhausted) == Some(names.len() as usize)
        }),
    decreases names.len(),
{
    let events = one_registry_events::<E, N>(registry, names);
    if names.len() > 0 {
        every_package_counts::<E, N>(registry, names.drop_last());
        assert(events.drop_last() =~= one_registry_events::<E, N>(registry, names.drop_last()));
    } else {
        reveal_with_fuel(after_all, 5);
        reveal_with_fuel(expects_all, 5);
    }
}

impl<E> ScratchSpaceError<E> {
    /// The path that the error is about, if it is about one.
    pub open spec fn place(self) -> Option<Seq<Seq<char>>> {
        match self {
            ScratchSpaceError::CargoHomeCreate { path, .. } => Some(path.deep_view()),
            ScratchSpaceError::CratesCreate { path, .. } => Some(path.deep_view()),
            ScratchSpaceError::RegistryCreate { path, .. } => Some(path.deep_view()),
            _ => None,
        }
    }

    /// The path that the error is about, if it is about one.
    pub fn path(&self) -> (path: Option<&ScratchPath>)
        ensures
            path.deep_view() == self.place(),
    {
        match self {
            ScratchSpaceError::CargoHomeCreate { path, .. } => Some(path),
            ScratchSpaceError::CratesCreate { path, .. } => Some(path),
            ScratchSpaceError::RegistryCreate { path, .. } => Some(path),
            _ => None,
        }
    }

    /// What the error says of itself, its path being shown as `shown`.
    pub open spec fn wording(self, shown: Seq<char>) -> Seq<char> {
        match self {
            ScratchSpaceError::Root { .. } => "Could not create the scratch space root"@,
            ScratchSpaceError::CargoHomeCreate { .. } => "Could not create the Cargo home directory at "@ + shown,
            ScratchSpaceError::CratesCreate { .. } => "Could not create the crates directory at "@ + shown,
            ScratchSpaceError::RegistryCreate { .. } => "Could not create the registry directory at "@ + shown,
        }
    }

    /// What the error says of itself, its path being shown as `shown`.
    pub fn message(&self, shown: &str) -> (text: String)
        ensures
            text@ == self.wording(shown@),
    {
        match self {
            ScratchSpaceError::Root { .. } => "Could not create the scratch space root".to_owned(),
            ScratchSpaceError::CargoHomeCreate { .. } => "Could not create the Cargo home directory at ".to_owned().concat(shown),
            ScratchSpaceError::CratesCreate { .. } => "Could not create the crates directory at ".to_owned().concat(shown),
            ScratchSpaceError::RegistryCreate { .. } => "Could not create the registry directory at ".to_owned().concat(shown),
        }
    }
}

impl<E, N> DownloadedCratesError<E, N> {
    /// The path that the error is about, or the one that the registry's entry is
    /// to be joined to, where the error is about a registry.
    pub open spec fn place(self) -> Option<Seq<Seq<char>>> {
        match self {
            DownloadedCratesError::OpenCache { path, .. } => Some(path.deep_view()),
            DownloadedCratesError::EnumerateCache { path, .. } => Some(path.deep_view()),
            DownloadedCratesError::OpenRegistry { path, .. } => Some(path.deep_view()),
            DownloadedCratesError::EnumerateRegistry { path, .. } => Some(path.deep_view()),
        }
    }

    /// The path that the error is about, or the one that the registry's entry is
    /// to be joined to, where the error is about a registry.
    pub fn path(&self) -> (path: Option<&ScratchPath>)
        ensures
            path.deep_view() == self.place(),
    {
        match self {
            DownloadedCratesError::OpenCache { path, .. } => Some(path),
            DownloadedCratesError::EnumerateCache { path, .. } => Some(path),
            DownloadedCratesError::OpenRegistry { path, .. } => Some(path),
            DownloadedCratesError::EnumerateRegistry { path, .. } => Some(path),
        }
    }

    /// The entry of the registry that the error is about, if it is about one.
    pub open spec fn entry(self) -> Option<N> {
        match self {
            DownloadedCratesError::OpenRegistry { registry, .. } => Some(registry),
            DownloadedCratesError::EnumerateRegistry { registry, .. } => Some(registry),
            _ => None,
        }
    }

    /// The entry of the registry that the error is about, if it is about one.
    pub fn registry(&self) -> (registry: Option<&N>)
        ensures
            registry is Some <==> self.entry() is Some,
            registry matches Some(registry) ==> self.entry() == Some(*registry),
    {
        match self {
            DownloadedCratesError::OpenRegistry { registry, .. } => Some(registry),
            DownloadedCratesError::EnumerateRegistry { registry, .. } => Some(registry),
            _ => None,
        }
    }

    /// What the error says of itself, its path being shown as `shown`.
    pub open spec fn wording(self, shown: Seq<char>) -> Seq<char> {
        match self {
            DownloadedCratesError::OpenCache { .. } => "Could not open the cache directory "@ + shown,
            DownloadedCratesError::EnumerateCache { .. } => "Could not enumerate the cache directory "@ + shown,
            DownloadedCratesError::OpenRegistry { .. } => "Could not open the registry directory "@ + shown,
            DownloadedCratesError::EnumerateRegistry { .. } => "Could not enumerate the registry directory "@ + shown,
        }
    }

    /// What the error says of itself, its path being shown as `shown`.
    pub fn message(&self, shown: &str) -> (text: String)
        ensures
            text@ == self.wording(shown@),
    {
        match self {
            DownloadedCratesError::OpenCache { .. } => "Could not open the cache directory ".to_owned().concat(shown),
            DownloadedCratesError::EnumerateCache { .. } => "Could not enumerate the cache directory ".to_owned().concat(shown),
            DownloadedCratesError::OpenRegistry { .. } => "Could not open the registry directory ".to_owned().concat(shown),
            DownloadedCratesError::EnumerateRegistry { .. } => "Could not enumerate the registry directory ".to_owned().concat(shown),
        }
    }
}

} // verus!
