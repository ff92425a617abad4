use registry_conformance::{
    CacheAction, CacheEvent, CacheScan, DownloadedCratesError, ScratchAction, ScratchSpace,
    ScratchSpaceError, ScratchStage,
};

type Event = CacheEvent<&'static str, &'static str>;
type Action = CacheAction<&'static str, &'static str>;

fn space() -> ScratchSpace {
    let (mut stage, _) = ScratchSpace::new::<()>();
    loop {
        let (next, action) = stage.next::<()>(Ok(()));
        if let ScratchAction::Finish(result) = action {
            return result.unwrap();
        }
        stage = next;
    }
}

fn scan(events: Vec<Event>) -> (CacheScan<&'static str>, Action) {
    let (mut scan, mut action) = space().downloaded_crates();
    for event in events {
        (scan, action) = scan.next(event);
    }
    (scan, action)
}

fn failed(not_found: bool) -> Event {
    CacheEvent::Failed { source: "broken", not_found }
}

#[test]
fn the_layout_of_a_scratch_space() {
    let space = space();
    assert!(space.root().parts.is_empty());
    assert_eq!(space.cargo_home().parts, ["cargo-home"]);
    assert_eq!(space.crates().parts, ["crates"]);
    assert_eq!(space.registry().parts, ["registry"]);
    assert_eq!(space.clone().crates().parts, ["crates"]);
}

#[test]
fn directories_are_made_in_order() {
    let (stage, action) = ScratchSpace::new::<()>();
    assert!(matches!(action, ScratchAction::MakeRoot));
    let (stage, action) = stage.next::<()>(Ok(()));
    assert!(matches!(action, ScratchAction::MakeDirectory(path) if path.parts == ["cargo-home"]));
    let (stage, action) = stage.next::<()>(Ok(()));
    assert!(matches!(action, ScratchAction::MakeDirectory(path) if path.parts == ["crates"]));
    let (stage, action) = stage.next::<()>(Ok(()));
    assert!(matches!(action, ScratchAction::MakeDirectory(path) if path.parts == ["registry"]));
    let (stage, action) = stage.next::<()>(Ok(()));
    assert!(matches!(action, ScratchAction::Finish(Ok(_))));
    assert_eq!(stage, ScratchStage::Finished);
}

fn setup_error(successes: usize) -> ScratchSpaceError<&'static str> {
    let (mut stage, _) = ScratchSpace::new::<&'static str>();
    for _ in 0..successes {
        stage = stage.next::<&'static str>(Ok(())).0;
    }
    match stage.next(Err("broken")) {
        (ScratchStage::Finished, ScratchAction::Finish(Err(error))) => error,
        other => panic!("unexpected: {other:?}"),
    }
}

#[test]
fn a_failure_ends_the_setup() {
    let error = setup_error(0);
    assert!(matches!(error, ScratchSpaceError::Root { source: "broken" }));
    assert!(error.path().is_none());
    assert_eq!(error.message(""), "Could not create the scratch space root");
    let error = setup_error(1);
    assert!(matches!(error, ScratchSpaceError::CargoHomeCreate { source: "broken", .. }));
    assert_eq!(error.path().unwrap().parts, ["cargo-home"]);
    assert_eq!(error.message("/x"), "Could not create the Cargo home directory at /x");
    let error = setup_error(2);
    assert!(matches!(error, ScratchSpaceError::CratesCreate { source: "broken", .. }));
    assert_eq!(error.path().unwrap().parts, ["crates"]);
    assert_eq!(error.message("/x"), "Could not create the crates directory at /x");
    let error = setup_error(3);
    assert!(matches!(error, ScratchSpaceError::RegistryCreate { source: "broken", .. }));
    assert_eq!(error.path().unwrap().parts, ["registry"]);
    assert_eq!(error.message("/x"), "Could not create the registry directory at /x");
}

#[test]
fn the_cache_is_below_the_cargo_home() {
    match scan(vec![]).1 {
        CacheAction::OpenCache(path) => {
            assert_eq!(path.parts, ["cargo-home", "registry", "cache"]);
        }
        other => panic!("unexpected: {other:?}"),
    }
}

#[test]
fn without_a_cache_nothing_was_downloaded() {
    assert!(matches!(scan(vec![failed(true)]).1, CacheAction::Finish(Ok(0))));
    assert!(matches!(
        scan(vec![CacheEvent::Opened, CacheEvent::Exhausted]).1,
        CacheAction::Finish(Ok(0))
    ));
}

#[test]
fn the_entries_of_the_only_registry_are_counted() {
    let mut events = vec![
        CacheEvent::Opened,
        CacheEvent::Entry("mine-0123"),
        CacheEvent::Exhausted,
        CacheEvent::Opened,
    ];
    assert!(matches!(scan(vec![CacheEvent::Opened]).1, CacheAction::NextEntry));
    for name in ["a-1.crate", "b-1.crate", "c-1.crate"] {
        events.push(CacheEvent::Entry(name));
    }
    events.push(CacheEvent::Exhausted);
    let (scan, action) = scan(events);
    assert!(matches!(scan, CacheScan::Finished));
    assert!(matches!(action, CacheAction::Finish(Ok(3))));
}

#[test]
fn the_registry_that_was_found_is_opened() {
    let found = vec![CacheEvent::Opened, CacheEvent::Entry("mine"), CacheEvent::Exhausted];
    let (state, action) = scan(found);
    assert!(matches!(state, CacheScan::OpeningRegistry { registry: "mine" }));
    assert!(matches!(action, CacheAction::OpenRegistry));
}

#[test]
fn two_registries_are_too_many() {
    let events = vec![CacheEvent::Opened, CacheEvent::Entry("a"), CacheEvent::Entry("b")];
    assert!(matches!(
        scan(events).1,
        CacheAction::TooManyRegistries("Too many registries here")
    ));
}

fn scan_error(mut events: Vec<Event>, not_found: bool) -> DownloadedCratesError<&'static str, &'static str> {
    events.push(failed(not_found));
    match scan(events).1 {
        CacheAction::Finish(Err(error)) => error,
        other => panic!("unexpected: {other:?}"),
    }
}

#[test]
fn a_failure_ends_the_count() {
    let error = scan_error(vec![], false);
    assert!(matches!(error, DownloadedCratesError::OpenCache { source: "broken", .. }));
    assert_eq!(error.message("/x"), "Could not open the cache directory /x");
    assert_eq!(error.path().unwrap().parts, ["cargo-home", "registry", "cache"]);
    assert_eq!(error.registry(), None);
    let error = scan_error(vec![CacheEvent::Opened], true);
    assert_eq!(error.path().unwrap().parts, ["cargo-home", "registry", "cache"]);
    assert_eq!(error.registry(), None);
    assert!(matches!(error, DownloadedCratesError::EnumerateCache { source: "broken", .. }));
    assert_eq!(error.message("/x"), "Could not enumerate the cache directory /x");
    let found = || vec![CacheEvent::Opened, CacheEvent::Entry("mine"), CacheEvent::Exhausted];
    let error = scan_error(found(), false);
    assert!(matches!(
        error,
        DownloadedCratesError::OpenRegistry { source: "broken", registry: "mine", .. }
    ));
    assert_eq!(error.message("/x"), "Could not open the registry directory /x");
    assert_eq!(error.path().unwrap().parts, ["cargo-home", "registry", "cache"]);
    assert_eq!(error.registry(), Some(&"mine"));
    let mut listing = found();
    listing.push(CacheEvent::Opened);
    let error = scan_error(listing, true);
    assert!(matches!(
        error,
        DownloadedCratesError::EnumerateRegistry { source: "broken", registry: "mine", .. }
    ));
    assert_eq!(error.message("/x"), "Could not enumerate the registry directory /x");
    assert_eq!(error.path().unwrap().parts, ["cargo-home", "registry", "cache"]);
    assert_eq!(error.registry(), Some(&"mine"));
}

#[test]
fn a_registry_that_is_gone_holds_nothing() {
    let events =
        vec![CacheEvent::Opened, CacheEvent::Entry("mine"), CacheEvent::Exhausted, failed(true)];
    assert!(matches!(scan(events).1, CacheAction::Finish(Ok(0))));
}
