use dynamic_reload::{
    DynamicReload, Error, Lib, Platform, PlatformName, ReclaimPolicy, Reply, Request, Search,
    UpdateState, WatchEvent,
};
use std::sync::Arc;
use std::time::Duration;

/// A stand-in for the file system, the loader, the clock and the host.
struct World {
    files: Vec<String>,
    broken: Vec<String>,
    exe: Option<String>,
    staging: Option<String>,
    absolute: Vec<(String, String)>,
    watcher: bool,
    now: u128,
    empty_sizes: usize,
    locked_copies: usize,
    copies: Vec<(String, String)>,
    probes: Vec<String>,
    sleeps: Vec<u64>,
    watched: Vec<String>,
    opened: Vec<String>,
    before: Vec<Arc<Lib>>,
    after: Vec<Arc<Lib>>,
    failed: Vec<Error>,
}

impl World {
    fn new() -> World {
        World {
            files: Vec::new(),
            broken: Vec::new(),
            exe: Some("/proj/target/debug/host".to_string()),
            staging: None,
            absolute: Vec::new(),
            watcher: true,
            now: 1_700_000_000_000,
            empty_sizes: 0,
            locked_copies: 0,
            copies: Vec::new(),
            probes: Vec::new(),
            sleeps: Vec::new(),
            watched: Vec::new(),
            opened: Vec::new(),
            before: Vec::new(),
            after: Vec::new(),
            failed: Vec::new(),
        }
    }

    fn with_file(mut self, path: &str) -> World {
        self.files.push(path.to_string());
        self
    }

    fn with_staging(mut self, dir: &str) -> World {
        self.staging = Some(dir.to_string());
        self
    }

    fn source_of(&self, path: &str) -> String {
        match self.copies.iter().rev().find(|(_, to)| to == path) {
            Some((from, _)) => from.clone(),
            None => path.to_string(),
        }
    }

    fn answer(&mut self, request: Request) -> Result<Reply, Request> {
        Ok(match request {
            Request::MakeStagingDir { root, prefix } => {
                assert_eq!(prefix, "shadow_libs");
                Reply::StagingDir(self.staging.as_ref().map(|d| format!("{}/{}", root, d)))
            }
            Request::Resolve { path } => Reply::Resolved(
                self.absolute.iter().find(|(given, _)| *given == path).map(|(_, a)| a.clone()),
            ),
            Request::StartWatcher { .. } => Reply::Watcher(self.watcher),
            Request::Probe { path } => {
                self.probes.push(path.clone());
                Reply::Probed(self.files.contains(&path))
            }
            Request::ExePath => Reply::Exe(self.exe.clone()),
            Request::Time => {
                self.now += 1;
                Reply::Time(self.now)
            }
            Request::Size { path } => {
                if self.empty_sizes > 0 {
                    self.empty_sizes -= 1;
                    Reply::Size(Some(0))
                } else if self.files.contains(&path) {
                    Reply::Size(Some(4096))
                } else {
                    Reply::Size(None)
                }
            }
            Request::Copy { from, to } => {
                if self.locked_copies > 0 {
                    self.locked_copies -= 1;
                    Reply::Copied(false)
                } else {
                    self.copies.push((from, to));
                    Reply::Copied(true)
                }
            }
            Request::Sleep { millis } => {
                self.sleeps.push(millis);
                Reply::Slept
            }
            Request::Open { path } => {
                self.opened.push(path.clone());
                if self.broken.contains(&self.source_of(&path)) {
                    Reply::Opened(Err(format!("{}: invalid ELF header", path)))
                } else {
                    Reply::Opened(Ok(libloading::os::unix::Library::this().into()))
                }
            }
            Request::Watch { dir } => {
                self.watched.push(dir);
                Reply::Watching
            }
            Request::Notify { state, lib } => {
                match state {
                    UpdateState::Before => self.before.push(lib.unwrap()),
                    UpdateState::After => self.after.push(lib.unwrap()),
                    UpdateState::ReloadFailed(error) => {
                        assert!(lib.is_none());
                        self.failed.push(error)
                    }
                }
                Reply::Notified
            }
            done => return Err(done),
        })
    }

    fn drive(&mut self, engine: &mut DynamicReload, first: Request) -> Request {
        let mut request = first;
        loop {
            match self.answer(request) {
                Ok(reply) => {
                    assert!(engine.accepts(&reply));
                    request = engine.resume(reply);
                }
                Err(done) => {
                    assert!(engine.is_idle());
                    return done;
                }
            }
        }
    }

    fn construct(
        &mut self,
        search_paths: Option<Vec<&str>>,
        shadow_dir: Option<&str>,
        search: Search,
    ) -> DynamicReload {
        let (mut engine, first) = DynamicReload::new(
            search_paths,
            shadow_dir,
            search,
            Duration::from_secs(2),
            Platform::Unix,
            ReclaimPolicy::Release,
        );
        assert!(matches!(self.drive(&mut engine, first), Request::Ready));
        engine
    }

    fn add_library(
        &mut self,
        engine: &mut DynamicReload,
        name: &str,
        name_format: PlatformName,
    ) -> Result<Arc<Lib>, Error> {
        let first = engine.add_library(name, name_format);
        match self.drive(engine, first) {
            Request::Registered(result) => result,
            other => panic!("registration ended with {:?}", other),
        }
    }

    fn update(&mut self, engine: &mut DynamicReload, events: Vec<WatchEvent>) {
        let first = engine.update(events);
        assert!(matches!(self.drive(engine, first), Request::Updated));
    }
}

#[test]
fn test_search_paths_none() {
    let engine = World::new().construct(None, None, Search::Default);
    assert_eq!(engine.search_paths().len(), 0);
}

#[test]
fn test_search_paths_some() {
    let engine = World::new().construct(Some(vec!["test", "test"]), None, Search::Default);
    assert_eq!(engine.search_paths().len(), 2);
}

#[test]
fn search_paths_are_kept_absolute_or_as_given() {
    let mut world = World::new();
    world.absolute.push(("../..".to_string(), "/home".to_string()));
    let engine = world.construct(Some(vec!["../..", "../test"]), None, Search::Default);
    assert_eq!(engine.search_paths(), &vec!["/home".to_string(), "../test".to_string()]);
}

#[test]
fn test_get_watcher() {
    let engine = World::new().construct(None, None, Search::Default);
    assert!(engine.is_watching());
}

#[test]
fn watcher_that_does_not_start_is_not_fatal() {
    let mut world = World::new().with_file("libtest_shared.so").with_staging("shadow_libs.1");
    world.watcher = false;
    let mut engine = world.construct(None, Some("target/debug"), Search::Default);
    assert!(!engine.is_watching());
    assert!(world.add_library(&mut engine, "test_shared", PlatformName::Yes).is_ok());
    assert!(world.watched.is_empty());
}

#[test]
fn test_get_temp_dir_fail() {
    let engine = World::new().construct(None, Some("_no_such_dir"), Search::Default);
    assert!(engine.shadow_dir().is_none());
}

#[test]
fn test_get_temp_dir_none() {
    let engine = World::new().with_staging("shadow_libs.1").construct(None, None, Search::Default);
    assert!(engine.shadow_dir().is_none());
}

#[test]
fn test_get_temp_dir_ok() {
    let engine =
        World::new().with_staging("shadow_libs.1").construct(None, Some(""), Search::Default);
    assert!(engine.shadow_dir().is_some());
}

#[test]
fn test_search_backwards_from_file_ok() {
    let mut world = World::new().with_file("/proj/Cargo.toml");
    let mut engine = world.construct(None, None, Search::Backwards);
    assert!(world.add_library(&mut engine, "Cargo.toml", PlatformName::No).is_ok());
    assert_eq!(
        world.probes,
        vec![
            "Cargo.toml",
            "/proj/target/debug/Cargo.toml",
            "/proj/target/Cargo.toml",
            "/proj/Cargo.toml"
        ]
    );
    assert_eq!(world.opened, vec!["/proj/Cargo.toml"]);
}

#[test]
fn test_search_backwards_from_file_fail() {
    let mut world = World::new();
    let mut engine = world.construct(None, None, Search::Backwards);
    assert!(world.add_library(&mut engine, "_no_such_file", PlatformName::No).is_err());
    assert_eq!(
        world.probes,
        vec![
            "_no_such_file",
            "/proj/target/debug/_no_such_file",
            "/proj/target/_no_such_file",
            "/proj/_no_such_file",
            "/_no_such_file"
        ]
    );
}

#[test]
fn default_search_stops_at_the_directory_of_the_executable() {
    let mut world = World::new().with_file("/proj/Cargo.toml");
    let mut engine = world.construct(None, None, Search::Default);
    match world.add_library(&mut engine, "Cargo.toml", PlatformName::No) {
        Err(Error::Find(name)) => assert_eq!(name, "Cargo.toml"),
        other => panic!("{:?}", other),
    }
    assert_eq!(world.probes, vec!["Cargo.toml", "/proj/target/debug/Cargo.toml"]);
}

#[test]
fn unknown_executable_ends_the_search() {
    let mut world = World::new();
    world.exe = None;
    let mut engine = world.construct(Some(vec!["a"]), None, Search::Backwards);
    assert!(world.add_library(&mut engine, "x", PlatformName::No).is_err());
    assert_eq!(world.probes, vec!["x", "a/x"]);
}

#[test]
fn test_add_library_fail() {
    let mut world = World::new();
    let mut engine = world.construct(None, None, Search::Default);
    assert!(world.add_library(&mut engine, "wont_find_this_lib", PlatformName::No).is_err());
}

#[test]
fn absent_name_is_not_found_and_registry_unchanged() {
    let mut world = World::new().with_file("libpresent.so");
    let mut engine = world.construct(Some(vec!["a", "b"]), None, Search::Backwards);
    world.add_library(&mut engine, "present", PlatformName::Yes).unwrap();
    match world.add_library(&mut engine, "wont_find_this_lib", PlatformName::Yes) {
        Err(Error::Find(name)) => assert_eq!(name, "wont_find_this_lib"),
        other => panic!("{:?}", other),
    }
    assert_eq!(engine.libs().len(), 1);
    assert_eq!(engine.libs()[0].loaded_path, "libpresent.so");
}

#[test]
fn test_add_shared_lib_ok() {
    let mut world = World::new().with_file("libtest_shared.so");
    let mut engine = world.construct(None, None, Search::Default);
    assert!(world.add_library(&mut engine, "test_shared", PlatformName::Yes).is_ok());
}

#[test]
fn library_loaded_in_place_watches_nothing() {
    let mut world = World::new().with_file("libtest_shared.so");
    let mut engine = world.construct(None, None, Search::Default);
    let lib = world.add_library(&mut engine, "test_shared", PlatformName::Yes).unwrap();
    assert_eq!(lib.loaded_path, "libtest_shared.so");
    assert_eq!(lib.original_path, None);
    assert!(world.watched.is_empty());
    assert!(world.copies.is_empty());
    assert!(Arc::ptr_eq(&lib, &engine.libs()[0]));
}

#[test]
fn test_add_shared_lib_search_paths() {
    let mut world = World::new().with_file("../test/libtest_shared.so");
    let mut engine = world.construct(Some(vec!["../..", "../test"]), None, Search::Default);
    assert!(world.add_library(&mut engine, "test_shared", PlatformName::Yes).is_ok());
}

#[test]
fn file_in_a_search_path_only_is_found_there() {
    let mut world = World::new().with_file("../test/libtest_shared.so");
    let mut engine = world.construct(Some(vec!["../..", "../test"]), None, Search::Default);
    let lib = world.add_library(&mut engine, "test_shared", PlatformName::Yes).unwrap();
    assert_eq!(
        world.probes,
        vec!["libtest_shared.so", "../../libtest_shared.so", "../test/libtest_shared.so"]
    );
    assert_eq!(lib.loaded_path, "../test/libtest_shared.so");
}

#[test]
fn first_match_wins() {
    let mut world =
        World::new().with_file("b/x").with_file("c/x").with_file("/proj/target/debug/x");
    let mut engine = world.construct(Some(vec!["a", "b", "c"]), None, Search::Backwards);
    let lib = world.add_library(&mut engine, "x", PlatformName::No).unwrap();
    assert_eq!(lib.loaded_path, "b/x");
    assert_eq!(world.probes, vec!["x", "a/x", "b/x"]);
}

#[test]
fn test_add_shared_lib_fail_load() {
    let mut world = World::new().with_file("Cargo.toml");
    world.broken.push("Cargo.toml".to_string());
    let mut engine = world.construct(None, None, Search::Default);
    assert!(world.add_library(&mut engine, "Cargo.toml", PlatformName::No).is_err());
}

#[test]
fn load_error_carries_the_loader_account() {
    let mut world = World::new().with_file("Cargo.toml");
    world.broken.push("Cargo.toml".to_string());
    let mut engine = world.construct(None, None, Search::Default);
    match world.add_library(&mut engine, "Cargo.toml", PlatformName::No) {
        Err(Error::Load(why)) => assert_eq!(why, "Cargo.toml: invalid ELF header"),
        other => panic!("{:?}", other),
    }
    assert!(engine.libs().is_empty());
}

#[test]
fn test_add_shared_shadow_dir_ok() {
    let engine = World::new().with_staging("shadow_libs.1").construct(
        None,
        Some("target/debug"),
        Search::Default,
    );
    assert!(engine.shadow_dir().is_some());
}

#[test]
fn test_add_shared_string_arg_ok() {
    let shadow_dir_string = "target/debug".to_owned();
    let engine = World::new().with_staging("shadow_libs.1").construct(
        None,
        Some(&shadow_dir_string),
        Search::Default,
    );
    assert!(engine.shadow_dir().is_some());
}

#[test]
fn test_add_shared_lib_search_paths_strings() {
    let path1 = "../..".to_owned();
    let path2 = "../test".to_owned();
    let mut world = World::new().with_file("../test/libtest_shared.so");
    let mut engine = world.construct(Some(vec![&path1, &path2]), None, Search::Default);
    assert!(world.add_library(&mut engine, "test_shared", PlatformName::Yes).is_ok());
}

#[test]
fn staged_library_watches_its_source() {
    let mut world = World::new().with_file("libtest_shared.so").with_staging("shadow_libs.1");
    let mut engine = world.construct(None, Some("target/debug"), Search::Default);
    assert_eq!(engine.shadow_dir(), &Some("target/debug/shadow_libs.1".to_string()));
    let lib = world.add_library(&mut engine, "test_shared", PlatformName::Yes).unwrap();
    assert_eq!(lib.original_path, Some("libtest_shared.so".to_string()));
    assert_eq!(
        lib.loaded_path,
        "target/debug/shadow_libs.1/1700000000001_libtest_shared.so"
    );
    assert_eq!(world.copies, vec![("libtest_shared.so".to_string(), lib.loaded_path.clone())]);
    assert_eq!(world.opened, vec![lib.loaded_path.clone()]);
    assert_eq!(world.watched, vec![""]);
    assert!(world.sleeps.is_empty());
}

#[test]
fn watch_is_on_the_directory_of_the_source() {
    let mut world = World::new().with_file("plugins/libp.so").with_staging("s");
    let mut engine = world.construct(Some(vec!["plugins"]), Some("tmp"), Search::Default);
    world.add_library(&mut engine, "p", PlatformName::Yes).unwrap();
    assert_eq!(world.watched, vec!["plugins"]);
}

#[test]
fn test_add_shared_update() {
    let mut world = World::new()
        .with_file("libtest_shared.so")
        .with_file("/work/libtest_shared.so")
        .with_staging("shadow_libs.1");
    let mut engine = world.construct(None, Some("target/debug"), Search::Default);
    let first = world.add_library(&mut engine, "test_shared", PlatformName::Yes).unwrap();

    for i in 0..10 {
        let events = if i == 3 {
            vec![WatchEvent::Write("/work/libtest_shared.so".to_string())]
        } else {
            Vec::new()
        };
        world.update(&mut engine, events);
    }

    assert_eq!(world.before.len(), 1);
    assert_eq!(world.after.len(), 1);
    assert!(world.failed.is_empty());
    assert!(Arc::ptr_eq(&world.before[0], &first));
    let live = &engine.libs()[0];
    assert_eq!(engine.libs().len(), 1);
    assert!(Arc::ptr_eq(live, &world.after[0]));
    assert_ne!(live.loaded_path, first.loaded_path);
    assert_eq!(live.loaded_path, "target/debug/shadow_libs.1/1700000000002_libtest_shared.so");
    assert_eq!(live.original_path, Some("/work/libtest_shared.so".to_string()));
}

#[test]
fn test_add_shared_update_fail_after() {
    let mut world = World::new().with_file("target/debug/libtest_file_2.so").with_staging("s");
    let mut engine =
        world.construct(Some(vec!["target/debug"]), Some("target/debug"), Search::Default);
    assert!(engine.shadow_dir().is_some());
    assert!(world.add_library(&mut engine, "libtest_file_2.so", PlatformName::No).is_ok());

    for i in 0..10 {
        let events = if i == 3 {
            world.broken.push("target/debug/libtest_file_2.so".to_string());
            vec![WatchEvent::NoticeWrite("target/debug/libtest_file_2.so".to_string())]
        } else {
            Vec::new()
        };
        world.update(&mut engine, events);
    }

    assert_eq!(world.before.len(), 1);
    assert_eq!(world.after.len(), 0);
    assert_eq!(world.failed.len(), 1);
    assert!(matches!(world.failed[0], Error::Load(_)));
    assert!(engine.libs().is_empty());
}

#[test]
fn failed_reload_is_mended_by_the_next_change_only_if_still_registered() {
    let mut world = World::new().with_file("libp.so").with_staging("s");
    let mut engine = world.construct(None, Some("tmp"), Search::Default);
    world.add_library(&mut engine, "p", PlatformName::Yes).unwrap();
    world.broken.push("libp.so".to_string());
    world.update(&mut engine, vec![WatchEvent::Create("libp.so".to_string())]);
    assert_eq!((world.before.len(), world.after.len(), world.failed.len()), (1, 0, 1));
    world.broken.clear();
    world.update(&mut engine, vec![WatchEvent::Create("libp.so".to_string())]);
    assert_eq!((world.before.len(), world.after.len(), world.failed.len()), (1, 0, 1));
    assert!(engine.libs().is_empty());
}

#[test]
fn update_without_events_is_a_no_op() {
    let mut world = World::new().with_file("libp.so").with_staging("s");
    let mut engine = world.construct(None, Some("tmp"), Search::Default);
    let lib = world.add_library(&mut engine, "p", PlatformName::Yes).unwrap();
    let opened = world.opened.len();
    assert!(matches!(engine.update(Vec::new()), Request::Updated));
    assert!(engine.is_idle());
    assert!(world.before.is_empty() && world.after.is_empty() && world.failed.is_empty());
    assert_eq!(world.opened.len(), opened);
    assert_eq!(engine.libs().len(), 1);
    assert!(Arc::ptr_eq(&engine.libs()[0], &lib));
}

#[test]
fn events_of_other_kinds_or_names_trigger_nothing() {
    let mut world = World::new().with_file("libp.so").with_staging("s");
    let mut engine = world.construct(None, Some("tmp"), Search::Default);
    world.add_library(&mut engine, "p", PlatformName::Yes).unwrap();
    let events = vec![
        WatchEvent::Other,
        WatchEvent::Write("libq.so".to_string()),
        WatchEvent::Create("libp.so.tmp".to_string()),
        WatchEvent::NoticeWrite("libp".to_string()),
    ];
    assert!(matches!(engine.update(events), Request::Updated));
    assert_eq!(engine.libs().len(), 1);
}

#[test]
fn match_is_by_file_name_not_by_directory() {
    let mut world = World::new().with_file("plugins/libp.so").with_staging("s");
    let mut engine = world.construct(Some(vec!["plugins"]), Some("tmp"), Search::Default);
    world.add_library(&mut engine, "p", PlatformName::Yes).unwrap();
    world.files.push("/real/plugins/libp.so".to_string());
    world.update(&mut engine, vec![WatchEvent::Write("/real/plugins/libp.so".to_string())]);
    assert_eq!(world.after.len(), 1);
    assert_eq!(world.after[0].original_path, Some("/real/plugins/libp.so".to_string()));
}

#[test]
fn library_loaded_in_place_is_never_reloaded() {
    let mut world = World::new().with_file("libp.so");
    let mut engine = world.construct(None, None, Search::Default);
    world.add_library(&mut engine, "p", PlatformName::Yes).unwrap();
    world.update(&mut engine, vec![WatchEvent::Write("libp.so".to_string())]);
    assert!(world.before.is_empty());
}

#[test]
fn every_registration_of_a_name_is_reloaded() {
    let mut world = World::new().with_file("libp.so").with_file("libq.so").with_staging("s");
    let mut engine = world.construct(None, Some("tmp"), Search::Default);
    let p1 = world.add_library(&mut engine, "p", PlatformName::Yes).unwrap();
    let q = world.add_library(&mut engine, "q", PlatformName::Yes).unwrap();
    let p2 = world.add_library(&mut engine, "p", PlatformName::Yes).unwrap();
    assert_eq!(engine.libs().len(), 3);
    world.update(&mut engine, vec![WatchEvent::Write("libp.so".to_string())]);
    assert_eq!(world.before.len(), 2);
    assert!(Arc::ptr_eq(&world.before[0], &p2));
    assert!(Arc::ptr_eq(&world.before[1], &p1));
    assert_eq!(world.after.len(), 2);
    assert_eq!(engine.libs().len(), 3);
    assert_eq!(engine.libs().iter().filter(|l| Arc::ptr_eq(l, &q)).count(), 1);
    assert_ne!(world.after[0].loaded_path, world.after[1].loaded_path);
}

#[test]
fn events_are_dispatched_in_order() {
    let mut world = World::new().with_file("libp.so").with_file("libq.so").with_staging("s");
    let mut engine = world.construct(None, Some("tmp"), Search::Default);
    world.add_library(&mut engine, "p", PlatformName::Yes).unwrap();
    world.add_library(&mut engine, "q", PlatformName::Yes).unwrap();
    world.update(
        &mut engine,
        vec![
            WatchEvent::Write("libq.so".to_string()),
            WatchEvent::Other,
            WatchEvent::Write("libp.so".to_string()),
            WatchEvent::Write("libq.so".to_string()),
        ],
    );
    let names: Vec<_> =
        world.before.iter().map(|l| l.original_path.clone().unwrap()).collect();
    assert_eq!(names, vec!["libq.so", "libp.so", "libq.so"]);
    assert_eq!(world.after.len(), 3);
    assert_eq!(engine.libs().len(), 2);
}

#[test]
fn locked_source_is_retried() {
    let mut world = World::new().with_file("libp.so").with_staging("s");
    world.locked_copies = 4;
    world.empty_sizes = 2;
    let mut engine = world.construct(None, Some("tmp"), Search::Default);
    assert!(world.add_library(&mut engine, "p", PlatformName::Yes).is_ok());
    assert_eq!(world.sleeps, vec![100; 6]);
    assert_eq!(world.copies.len(), 1);
}

#[test]
fn copy_succeeds_at_the_last_attempt() {
    let mut world = World::new().with_file("libp.so").with_staging("s");
    world.locked_copies = 9;
    let mut engine = world.construct(None, Some("tmp"), Search::Default);
    assert!(world.add_library(&mut engine, "p", PlatformName::Yes).is_ok());
    assert_eq!(world.sleeps, vec![100; 9]);
}

#[test]
fn source_locked_for_good_times_out() {
    let mut world = World::new().with_file("libp.so").with_staging("s");
    world.locked_copies = 10;
    let mut engine = world.construct(None, Some("tmp"), Search::Default);
    match world.add_library(&mut engine, "p", PlatformName::Yes) {
        Err(Error::CopyTimeOut(src, dest)) => {
            assert_eq!(src, "libp.so");
            assert_eq!(dest, "tmp/s/1700000000001_libp.so");
        }
        other => panic!("{:?}", other),
    }
    assert_eq!(world.sleeps, vec![100; 10]);
    assert!(world.opened.is_empty());
    assert!(engine.libs().is_empty());
}

#[test]
fn empty_source_is_never_copied() {
    let mut world = World::new().with_file("libp.so").with_staging("s");
    world.empty_sizes = 10;
    let mut engine = world.construct(None, Some("tmp"), Search::Default);
    assert!(matches!(
        world.add_library(&mut engine, "p", PlatformName::Yes),
        Err(Error::CopyTimeOut(_, _))
    ));
    assert!(world.copies.is_empty());
    assert_eq!(world.sleeps.len(), 10);
}

#[test]
fn reload_surfaces_copy_timeout_through_the_callback() {
    let mut world = World::new().with_file("libp.so").with_staging("s");
    let mut engine = world.construct(None, Some("tmp"), Search::Default);
    world.add_library(&mut engine, "p", PlatformName::Yes).unwrap();
    world.locked_copies = 10;
    world.update(&mut engine, vec![WatchEvent::Write("libp.so".to_string())]);
    assert_eq!(world.before.len(), 1);
    assert!(matches!(world.failed[0], Error::CopyTimeOut(_, _)));
    assert!(engine.libs().is_empty());
}

#[test]
fn released_library_is_dropped_and_leaked_library_is_not() {
    for (policy, holders) in [(ReclaimPolicy::Release, 2), (ReclaimPolicy::Leak, 3)] {
        let mut world = World::new().with_file("libp.so").with_staging("s");
        let (mut engine, first) = DynamicReload::new(
            None,
            Some("tmp"),
            Search::Default,
            Duration::from_secs(1),
            Platform::Unix,
            policy,
        );
        world.drive(&mut engine, first);
        assert_eq!(engine.policy(), policy);
        let lib = world.add_library(&mut engine, "p", PlatformName::Yes).unwrap();
        assert_eq!(Arc::strong_count(&lib), 2);
        world.update(&mut engine, vec![WatchEvent::Write("libp.so".to_string())]);
        assert_eq!(Arc::strong_count(&lib), holders);
    }
}

#[test]
fn reply_that_was_not_asked_for_is_not_accepted() {
    let (engine, first) = DynamicReload::new(
        None,
        Some("tmp"),
        Search::Default,
        Duration::from_secs(1),
        Platform::Unix,
        ReclaimPolicy::Release,
    );
    assert!(matches!(first, Request::MakeStagingDir { .. }));
    assert!(!engine.is_idle());
    assert!(engine.accepts(&Reply::StagingDir(None)));
    assert!(!engine.accepts(&Reply::Probed(true)));
    assert!(!engine.accepts(&Reply::Notified));
}

#[test]
fn test_lib_equals_true() {
    let mut world = World::new().with_file("libtest_shared.so");
    let mut engine = world.construct(None, None, Search::Default);
    let lib = world.add_library(&mut engine, "test_shared", PlatformName::Yes).unwrap();
    let lib2 = lib.clone();
    assert!(lib == lib2);
}

#[test]
fn test_lib_equals_false() {
    let mut world = World::new()
        .with_file("target/debug/libtest_file_2.so")
        .with_file("libtest_shared.so")
        .with_staging("s");
    let mut engine =
        world.construct(Some(vec!["target/debug"]), Some("target/debug"), Search::Default);
    let lib0 = world.add_library(&mut engine, "libtest_file_2.so", PlatformName::No).unwrap();
    let lib1 = world.add_library(&mut engine, "test_shared", PlatformName::Yes).unwrap();
    assert!(lib0 != lib1);
}

#[test]
fn libs_are_equal_iff_they_watch_the_same_file() {
    let make = |original: Option<&str>, loaded: &str| Lib {
        lib: libloading::os::unix::Library::this().into(),
        loaded_path: loaded.to_string(),
        original_path: original.map(|p| p.to_string()),
    };
    assert!(make(Some("a/libp.so"), "x") == make(Some("a/libp.so"), "y"));
    assert!(make(Some("a/libp.so"), "x") != make(Some("b/libp.so"), "x"));
    assert!(make(None, "x") == make(None, "y"));
    assert!(make(None, "x") != make(Some("x"), "x"));
}

#[test]
fn absolute_name_is_probed_as_it_is_in_every_location() {
    let mut world = World::new();
    let mut engine = world.construct(Some(vec!["a"]), None, Search::Default);
    assert!(world.add_library(&mut engine, "/opt/libp.so", PlatformName::No).is_err());
    assert_eq!(world.probes, vec!["/opt/libp.so", "/opt/libp.so", "/opt/libp.so"]);
}

#[test]
fn staged_registration_asks_step_by_step() {
    let (mut engine, request) = DynamicReload::new(
        Some(vec!["plugins"]),
        Some("tmp"),
        Search::Default,
        Duration::from_millis(500),
        Platform::Unix,
        ReclaimPolicy::Release,
    );
    match request {
        Request::MakeStagingDir { root, prefix } => {
            assert_eq!((root.as_str(), prefix.as_str()), ("tmp", "shadow_libs"))
        }
        other => panic!("{:?}", other),
    }
    match engine.resume(Reply::StagingDir(Some("tmp/shadow_libs.x".to_string()))) {
        Request::Resolve { path } => assert_eq!(path, "plugins"),
        other => panic!("{:?}", other),
    }
    match engine.resume(Reply::Resolved(Some("/work/plugins".to_string()))) {
        Request::StartWatcher { debounce } => assert_eq!(debounce, Duration::from_millis(500)),
        other => panic!("{:?}", other),
    }
    assert!(matches!(engine.resume(Reply::Watcher(true)), Request::Ready));
    assert!(engine.is_idle());

    match engine.add_library("p", PlatformName::Yes) {
        Request::Probe { path } => assert_eq!(path, "libp.so"),
        other => panic!("{:?}", other),
    }
    match engine.resume(Reply::Probed(false)) {
        Request::Probe { path } => assert_eq!(path, "/work/plugins/libp.so"),
        other => panic!("{:?}", other),
    }
    assert!(matches!(engine.resume(Reply::Probed(true)), Request::Time));
    match engine.resume(Reply::Time(5)) {
        Request::Size { path } => assert_eq!(path, "/work/plugins/libp.so"),
        other => panic!("{:?}", other),
    }
    match engine.resume(Reply::Size(Some(0))) {
        Request::Sleep { millis } => assert_eq!(millis, 100),
        other => panic!("{:?}", other),
    }
    assert!(matches!(engine.resume(Reply::Slept), Request::Size { .. }));
    match engine.resume(Reply::Size(Some(17))) {
        Request::Copy { from, to } => {
            assert_eq!(from, "/work/plugins/libp.so");
            assert_eq!(to, "tmp/shadow_libs.x/5_libp.so");
        }
        other => panic!("{:?}", other),
    }
    match engine.resume(Reply::Copied(true)) {
        Request::Open { path } => assert_eq!(path, "tmp/shadow_libs.x/5_libp.so"),
        other => panic!("{:?}", other),
    }
    let handle = libloading::os::unix::Library::this().into();
    match engine.resume(Reply::Opened(Ok(handle))) {
        Request::Watch { dir } => assert_eq!(dir, "/work/plugins"),
        other => panic!("{:?}", other),
    }
    assert!(engine.libs().is_empty());
    match engine.resume(Reply::Watching) {
        Request::Registered(Ok(lib)) => {
            assert_eq!(lib.loaded_path, "tmp/shadow_libs.x/5_libp.so");
            assert_eq!(lib.original_path, Some("/work/plugins/libp.so".to_string()));
        }
        other => panic!("{:?}", other),
    }
    assert!(engine.is_idle());
    assert_eq!(engine.libs().len(), 1);

    let changed = WatchEvent::Write("/work/plugins/libp.so".to_string());
    match engine.update(vec![WatchEvent::Other, changed]) {
        Request::Notify { state: UpdateState::Before, lib: Some(lib) } => {
            assert_eq!(lib.loaded_path, "tmp/shadow_libs.x/5_libp.so")
        }
        other => panic!("{:?}", other),
    }
    assert_eq!(engine.libs().len(), 1);
    assert!(matches!(engine.resume(Reply::Notified), Request::Time));
    assert!(engine.libs().is_empty());
    assert!(matches!(engine.resume(Reply::Time(6)), Request::Size { .. }));
    assert!(matches!(engine.resume(Reply::Size(Some(17))), Request::Copy { .. }));
    assert!(matches!(engine.resume(Reply::Copied(true)), Request::Open { .. }));
    match engine.resume(Reply::Opened(Err("not a library".to_string()))) {
        Request::Notify { state: UpdateState::ReloadFailed(Error::Load(why)), lib: None } => {
            assert_eq!(why, "not a library")
        }
        other => panic!("{:?}", other),
    }
    assert!(matches!(engine.resume(Reply::Notified), Request::Updated));
    assert!(engine.is_idle());
    assert!(engine.libs().is_empty());
}
