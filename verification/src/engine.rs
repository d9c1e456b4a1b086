use vstd::prelude::*;
use vstd::string::{StrSliceExecFns, StringExecFns};
use std::sync::Arc;
use std::time::Duration;
use libloading::Library;
use crate::error::Error;
use crate::model::{
    last_match, load_awaits, load_retry, load_start, load_step, staging_prefix, swap_removed,
    EngineView, JobView, LoadStageView, LoadStep, PhaseView, COPY_ATTEMPTS, RETRY_MILLIS,
};
use crate::module::{leak, lib_views, share, Lib};
use crate::naming::{format_filename, get_library_name, Platform, PlatformName};
use crate::paths::{join, opt_text, parent};
use crate::protocol::{
    should_reload, ReclaimPolicy, Reply, ReplyView, Request, Search, UpdateState, WatchEvent,
    WatchEventView,
};

verus! {

/// The texts of a sequence of strings.
pub open spec fn texts(v: Seq<String>) -> Seq<Seq<char>> {
    v.map_values(|s: String| s@)
}

/// The texts of a sequence of string slices.
pub open spec fn slice_texts(v: Seq<&str>) -> Seq<Seq<char>> {
    v.map_values(|s: &str| s@)
}

/// The views of a sequence of events.
pub open spec fn event_views(v: Seq<WatchEvent>) -> Seq<WatchEventView> {
    v.map_values(|e: WatchEvent| e@)
}

pub(crate) enum LoadStage {
    Time { source: String },
    Size { source: String, dest: String, attempt: u8 },
    Copy { source: String, dest: String, attempt: u8 },
    Sleep { source: String, dest: String, attempt: u8 },
    Open { original: Option<String>, path: String },
}

impl View for LoadStage {
    type V = LoadStageView;

    closed spec fn view(&self) -> LoadStageView {
        match *self {
            LoadStage::Time { source } => LoadStageView::Time { source: source@ },
            LoadStage::Size { source, dest, attempt } => LoadStageView::Size {
                source: source@,
                dest: dest@,
                attempt,
            },
            LoadStage::Copy { source, dest, attempt } => LoadStageView::Copy {
                source: source@,
                dest: dest@,
                attempt,
            },
            LoadStage::Sleep { source, dest, attempt } => LoadStageView::Sleep {
                source: source@,
                dest: dest@,
                attempt,
            },
            LoadStage::Open { original, path } => LoadStageView::Open {
                original: opt_text(original),
                path: path@,
            },
        }
    }
}

pub(crate) enum LoadOutcome {
    Ask(LoadStage, Request),
    Loaded(Arc<Lib>),
    Failed(Error),
}

impl View for LoadOutcome {
    type V = LoadStep;

    closed spec fn view(&self) -> LoadStep {
        match *self {
            LoadOutcome::Ask(stage, request) => LoadStep::Ask(stage@, request@),
            LoadOutcome::Loaded(lib) => LoadStep::Loaded(lib@),
            LoadOutcome::Failed(error) => LoadStep::Failed(error@),
        }
    }
}

/// Makes the library from what the loader answered for `path`.
pub(crate) fn init_library(org_path: Option<String>, path: String, opened: Result<
    Library,
    String,
>) -> (res: LoadOutcome)
    ensures
        res@ == load_step(
            None,
            LoadStageView::Open { original: opt_text(org_path), path: path@ },
            Reply::Opened(opened)@,
        ),
{
    match opened {
        Ok(handle) => LoadOutcome::Loaded(
            Arc::new(Lib { original_path: org_path, loaded_path: path, lib: handle }),
        ),
        Err(why) => LoadOutcome::Failed(Error::Load(why)),
    }
}

/// The wait after an attempt that made no copy.
fn retry(source: String, dest: String, attempt: u8) -> (res: LoadOutcome)
    ensures
        res@ == load_retry(source@, dest@, attempt),
{
    LoadOutcome::Ask(
        LoadStage::Sleep { source, dest, attempt },
        Request::Sleep { millis: RETRY_MILLIS },
    )
}

/// One step of copying `source` to `dest`: the copy is asked for when the
/// source has a size that is not zero, the library is loaded from the copy
/// once it is made, and every attempt that made none is followed by a wait,
/// the last of them by `CopyTimeOut`.
pub(crate) fn try_copy(stage: LoadStage, reply: Reply) -> (res: LoadOutcome)
    requires
        stage@ is Size || stage@ is Copy || stage@ is Sleep,
        load_awaits(stage@, reply@),
    ensures
        res@ == load_step(None, stage@, reply@),
{
    match stage {
        LoadStage::Size { source, dest, attempt } => {
            let ready = match reply {
                Reply::Size(Some(n)) => n > 0,
                _ => false,
            };
            if ready {
                let from = source.clone();
                let to = dest.clone();
                LoadOutcome::Ask(
                    LoadStage::Copy { source, dest, attempt },
                    Request::Copy { from, to },
                )
            } else {
                retry(source, dest, attempt)
            }
        },
        LoadStage::Copy { source, dest, attempt } => {
            let copied = match reply {
                Reply::Copied(done) => done,
                _ => false,
            };
            if copied {
                let path = dest.clone();
                LoadOutcome::Ask(
                    LoadStage::Open { original: Some(source), path: dest },
                    Request::Open { path },
                )
            } else {
                retry(source, dest, attempt)
            }
        },
        LoadStage::Sleep { source, dest, attempt } => {
            if attempt < COPY_ATTEMPTS - 1 {
                let path = source.clone();
                LoadOutcome::Ask(
                    LoadStage::Size { source, dest, attempt: attempt + 1 },
                    Request::Size { path },
                )
            } else {
                LoadOutcome::Failed(Error::CopyTimeOut(source, dest))
            }
        },
        _ => LoadOutcome::Failed(Error::Find(String::new())),
    }
}

/// Begins staging and loading `full_path`: with the time where a staging
/// directory is set, with loading in place where none is.
pub(crate) fn load_library(shadow_dir: &Option<String>, full_path: String) -> (res: LoadOutcome)
    ensures
        res@ == load_start(opt_text(*shadow_dir), full_path@),
{
    match shadow_dir {
        Some(_) => LoadOutcome::Ask(LoadStage::Time { source: full_path }, Request::Time),
        None => {
            let path = full_path.clone();
            LoadOutcome::Ask(LoadStage::Open { original: None, path: full_path }, Request::Open { path })
        },
    }
}

/// One step of staging and loading.
pub(crate) fn load_next(shadow_dir: &Option<String>, stage: LoadStage, reply: Reply) -> (res:
    LoadOutcome)
    requires
        load_awaits(stage@, reply@),
    ensures
        res@ == load_step(opt_text(*shadow_dir), stage@, reply@),
{
    match stage {
        LoadStage::Time { source } => {
            let staged = match (shadow_dir, &reply) {
                (Some(dir), Reply::Time(millis)) => format_filename(
                    dir.as_str(),
                    source.as_str(),
                    *millis,
                ),
                _ => None,
            };
            match staged {
                Some(dest) => {
                    let path = source.clone();
                    LoadOutcome::Ask(
                        LoadStage::Size { source, dest, attempt: 0 },
                        Request::Size { path },
                    )
                },
                None => LoadOutcome::Failed(Error::Find(source)),
            }
        },
        LoadStage::Open { original, path } => {
            match reply {
                Reply::Opened(opened) => init_library(original, path, opened),
                _ => LoadOutcome::Failed(Error::Find(path)),
            }
        },
        _ => try_copy(stage, reply),
    }
}

pub(crate) enum Job {
    Register { name: String },
    Reload { events: Vec<WatchEvent>, ev: usize, cursor: usize },
}

impl View for Job {
    type V = JobView;

    closed spec fn view(&self) -> JobView {
        match *self {
            Job::Register { name } => JobView::Register { name: name@ },
            Job::Reload { events, ev, cursor } => JobView::Reload {
                events: event_views(events@),
                ev: ev as nat,
                cursor: cursor as nat,
            },
        }
    }
}

pub(crate) enum Phase {
    Idle,
    Staging { given: Vec<String>, debounce: Duration },
    Resolving { given: Vec<String>, next: usize, debounce: Duration },
    Starting,
    ProbeCwd { name: String, lib_name: String },
    ProbePath { name: String, lib_name: String, index: usize },
    Exe { name: String, lib_name: String },
    ProbeBack { name: String, lib_name: String, dir: String },
    Loading { job: Job, stage: LoadStage },
    Watch { lib: Arc<Lib> },
    Before { events: Vec<WatchEvent>, ev: usize, cursor: usize },
    Closing { events: Vec<WatchEvent>, ev: usize, cursor: usize },
}

impl View for Phase {
    type V = PhaseView;

    closed spec fn view(&self) -> PhaseView {
        match *self {
            Phase::Idle => PhaseView::Idle,
            Phase::Staging { given, debounce } => PhaseView::Staging {
                given: texts(given@),
                debounce,
            },
            Phase::Resolving { given, next, debounce } => PhaseView::Resolving {
                given: texts(given@),
                next: next as nat,
                debounce,
            },
            Phase::Starting => PhaseView::Starting,
            Phase::ProbeCwd { name, lib_name } => PhaseView::ProbeCwd {
                name: name@,
                lib_name: lib_name@,
            },
            Phase::ProbePath { name, lib_name, index } => PhaseView::ProbePath {
                name: name@,
                lib_name: lib_name@,
                index: index as nat,
            },
            Phase::Exe { name, lib_name } => PhaseView::Exe { name: name@, lib_name: lib_name@ },
            Phase::ProbeBack { name, lib_name, dir } => PhaseView::ProbeBack {
                name: name@,
                lib_name: lib_name@,
                dir: dir@,
            },
            Phase::Loading { job, stage } => PhaseView::Loading { job: job@, stage: stage@ },
            Phase::Watch { lib } => PhaseView::Watch { lib: lib@ },
            Phase::Before { events, ev, cursor } => PhaseView::Before {
                events: event_views(events@),
                ev: ev as nat,
                cursor: cursor as nat,
            },
            Phase::Closing { events, ev, cursor } => PhaseView::Closing {
                events: event_views(events@),
                ev: ev as nat,
                cursor: cursor as nat,
            },
        }
    }
}

/// What the engine holds: the registered libraries, the search paths, the
/// staging directory, and what it is waiting for.
pub(crate) struct Engine {
    libs: Vec<Arc<Lib>>,
    search_paths: Vec<String>,
    shadow_dir: Option<String>,
    search: Search,
    platform: Platform,
    policy: ReclaimPolicy,
    watching: bool,
    phase: Phase,
}

impl View for Engine {
    type V = EngineView;

    closed spec fn view(&self) -> EngineView {
        EngineView {
            libs: lib_views(self.libs@),
            search_paths: texts(self.search_paths@),
            shadow_dir: opt_text(self.shadow_dir),
            search: self.search,
            platform: self.platform,
            policy: self.policy,
            watching: self.watching,
            phase: self.phase@,
        }
    }
}

/// The strings that the slices of `given` hold, or none.
fn owned_paths(given: Option<Vec<&str>>) -> (res: Vec<String>)
    ensures
        texts(res@) == match given {
            Some(paths) => slice_texts(paths@),
            None => Seq::empty(),
        },
{
    let mut res: Vec<String> = Vec::new();
    match given {
        Some(paths) => {
            let mut i: usize = 0;
            while i < paths.len()
                invariant
                    i <= paths.len(),
                    res.len() == i,
                    forall|j: int| 0 <= j < i ==> res[j]@ == paths[j]@,
                decreases paths.len() - i,
            {
                res.push(String::from_str(paths[i]));
                i = i + 1;
            }
            assert(texts(res@) =~= slice_texts(paths@));
        },
        None => {
            assert(texts(res@) =~= Seq::empty());
        },
    }
    res
}

/// The last index below `cursor` of a library that a change of `path`
/// concerns.
fn find_last(libs: &Vec<Arc<Lib>>, path: &str, cursor: usize) -> (res: Option<usize>)
    requires
        cursor <= libs.len(),
    ensures
        res.is_some() == last_match(lib_views(libs@), path@, cursor as nat).is_some(),
        res matches Some(index) ==> index == last_match(
            lib_views(libs@),
            path@,
            cursor as nat,
        ).unwrap() && index < cursor,
{
    let mut i = cursor;
    while i > 0
        invariant
            i <= cursor <= libs.len(),
            last_match(lib_views(libs@), path@, cursor as nat) == last_match(
                lib_views(libs@),
                path@,
                i as nat,
            ),
        decreases i,
    {
        if should_reload(path, &libs[i - 1]) {
            return Some(i - 1);
        }
        i = i - 1;
    }
    None
}

impl Engine {
    /// Construction goes on with search path `next` of `given`.
    fn resolve_from(self, given: Vec<String>, next: usize, debounce: Duration) -> (res: (
        Engine,
        Request,
    ))
        ensures
            (res.0@, res.1@) == self@.resolve_from(texts(given@), next as nat, debounce),
    {
        let mut engine = self;
        if next < given.len() {
            let path = given[next].clone();
            engine.phase = Phase::Resolving { given, next, debounce };
            (engine, Request::Resolve { path })
        } else {
            engine.phase = Phase::Starting;
            (engine, Request::StartWatcher { debounce })
        }
    }

    /// Begins the construction of an engine.
    fn start(
        search_paths: Option<Vec<&str>>,
        shadow_dir: Option<&str>,
        search: Search,
        debounce_duration: Duration,
        platform: Platform,
        policy: ReclaimPolicy,
    ) -> (res: (Engine, Request))
        ensures
            (res.0@, res.1@) == EngineView::start_new(
                match search_paths {
                    Some(paths) => slice_texts(paths@),
                    None => Seq::empty(),
                },
                match shadow_dir {
                    Some(root) => Some(root@),
                    None => None,
                },
                search,
                debounce_duration,
                platform,
                policy,
            ),
    {
        let given = owned_paths(search_paths);
        let mut engine = Engine {
            libs: Vec::new(),
            search_paths: Vec::new(),
            shadow_dir: None,
            search,
            platform,
            policy,
            watching: false,
            phase: Phase::Idle,
        };
        assert(lib_views(engine.libs@) =~= Seq::empty());
        assert(texts(engine.search_paths@) =~= Seq::empty());
        match shadow_dir {
            Some(root) => {
                proof {
                    reveal_strlit("shadow_libs");
                }
                let prefix = String::from_str("shadow_libs");
                assert(prefix@ =~= staging_prefix());
                engine.phase = Phase::Staging { given, debounce: debounce_duration };
                (engine, Request::MakeStagingDir { root: String::from_str(root), prefix })
            },
            None => engine.resolve_from(given, 0, debounce_duration),
        }
    }

    /// Registration found nothing.
    fn not_found(self, name: String) -> (res: (Engine, Request))
        ensures
            (res.0@, res.1@) == self@.not_found(name@),
    {
        let mut engine = self;
        engine.phase = Phase::Idle;
        (engine, Request::Registered(Err(Error::Find(name))))
    }

    /// Registration goes on with search path `index`, or with the executable
    /// when all search paths are tried.
    fn probe_path_from(self, name: String, lib_name: String, index: usize) -> (res: (
        Engine,
        Request,
    ))
        ensures
            (res.0@, res.1@) == self@.probe_path_from(name@, lib_name@, index as nat),
    {
        let mut engine = self;
        if index < engine.search_paths.len() {
            let path = join(engine.search_paths[index].as_str(), lib_name.as_str());
            engine.phase = Phase::ProbePath { name, lib_name, index };
            (engine, Request::Probe { path })
        } else {
            engine.phase = Phase::Exe { name, lib_name };
            (engine, Request::ExePath)
        }
    }

    /// Registration goes on in `dir`.
    fn probe_back(self, name: String, lib_name: String, dir: String) -> (res: (
        Engine,
        Request,
    ))
        ensures
            (res.0@, res.1@) == self@.probe_back(name@, lib_name@, dir@),
    {
        let mut engine = self;
        let path = join(dir.as_str(), lib_name.as_str());
        engine.phase = Phase::ProbeBack { name, lib_name, dir };
        (engine, Request::Probe { path })
    }

    /// The file to register is found at `path`: it is staged and loaded.
    fn try_load_library(self, name: String, path: String) -> (res: (Engine, Request))
        ensures
            (res.0@, res.1@) == self@.after_load(
                JobView::Register { name: name@ },
                load_start(self@.shadow_dir, path@),
            ),
    {
        let outcome = load_library(&self.shadow_dir, path);
        self.after_load(Job::Register { name }, outcome)
    }

    /// Construction: `created` is the staging directory that was made, if
    /// one was. Without one nothing is staged, and construction goes on.
    fn get_temp_dir(self, given: Vec<String>, debounce: Duration, created: Option<String>) -> (res:
        (Engine, Request))
        ensures
            (res.0@, res.1@) == self@.with_phase(
                PhaseView::Staging { given: texts(given@), debounce },
            ).step(ReplyView::StagingDir(opt_text(created))),
    {
        let mut engine = self;
        engine.shadow_dir = created;
        engine.resolve_from(given, 0, debounce)
    }

    /// Construction: `absolute` is the absolute form of search path `next`
    /// of `given`, if it has one. Without one the path is kept as given.
    fn get_search_paths(
        self,
        given: Vec<String>,
        next: usize,
        debounce: Duration,
        absolute: Option<String>,
    ) -> (res: (Engine, Request))
        requires
            next < texts(given@).len(),
        ensures
            (res.0@, res.1@) == self@.with_phase(
                PhaseView::Resolving { given: texts(given@), next: next as nat, debounce },
            ).step(ReplyView::Resolved(opt_text(absolute))),
    {
        let total = given.len();
        assert(texts(given@).len() == total);
        let mut engine = self;
        let path = match absolute {
            Some(absolute) => absolute,
            None => given[next].clone(),
        };
        engine.search_paths.push(path);
        assert(texts(engine.search_paths@) =~= texts(self.search_paths@).push(path@));
        engine.resolve_from(given, next + 1, debounce)
    }

    /// Construction: whether the watcher `runs`. Without it no directory is
    /// watched and nothing is reloaded; registration works all the same.
    fn get_watcher(self, runs: bool) -> (res: (Engine, Request))
        ensures
            (res.0@, res.1@) == self@.with_phase(PhaseView::Starting).step(ReplyView::Watcher(runs)),
    {
        let mut engine = self;
        engine.watching = runs;
        engine.phase = Phase::Idle;
        (engine, Request::Ready)
    }

    /// Registration begins: the file name is formed, and the working
    /// directory is searched first.
    fn search_dirs(self, name: &str, name_format: PlatformName) -> (res: (Engine, Request))
        ensures
            (res.0@, res.1@) == self@.start_register(name@, name_format),
    {
        let mut engine = self;
        let lib_name = get_library_name(name, name_format, engine.platform);
        let path = lib_name.clone();
        engine.phase = Phase::ProbeCwd { name: String::from_str(name), lib_name };
        (engine, Request::Probe { path })
    }

    /// Registration: whether the file was `found` in the working directory.
    /// If not, the search paths are next.
    fn search_current_dir(self, name: String, lib_name: String, found: bool) -> (res: (
        Engine,
        Request,
    ))
        ensures
            (res.0@, res.1@) == self@.with_phase(
                PhaseView::ProbeCwd { name: name@, lib_name: lib_name@ },
            ).step(ReplyView::Probed(found)),
    {
        if found {
            self.try_load_library(name, lib_name)
        } else {
            self.probe_path_from(name, lib_name, 0)
        }
    }

    /// Registration: whether the file was `found` in search path `index`.
    /// If not, the next search path follows, and the executable's directory
    /// after the last.
    fn search_relative_paths(self, name: String, lib_name: String, index: usize, found: bool) -> (res:
        (Engine, Request))
        requires
            index < self@.search_paths.len(),
        ensures
            (res.0@, res.1@) == self@.with_phase(
                PhaseView::ProbePath { name: name@, lib_name: lib_name@, index: index as nat },
            ).step(ReplyView::Probed(found)),
    {
        let total = self.search_paths.len();
        assert(texts(self.search_paths@).len() == total);
        if found {
            let path = join(self.search_paths[index].as_str(), lib_name.as_str());
            self.try_load_library(name, path)
        } else {
            self.probe_path_from(name, lib_name, index + 1)
        }
    }

    /// Registration: `exe` is the path of the executable, if it is known.
    /// Its directory is searched next; without one nothing is found.
    fn search_backwards_from_exe(self, name: String, lib_name: String, exe: Option<String>) -> (res:
        (Engine, Request))
        ensures
            (res.0@, res.1@) == self@.with_phase(
                PhaseView::Exe { name: name@, lib_name: lib_name@ },
            ).step(ReplyView::Exe(opt_text(exe))),
    {
        let dir = match exe {
            Some(path) => parent(path.as_str()),
            None => None,
        };
        match dir {
            Some(dir) => self.probe_back(name, lib_name, dir),
            None => self.not_found(name),
        }
    }

    /// Registration: whether the file was `found` in `dir`. If not, the
    /// directory above `dir` is next where the search goes backwards, and
    /// nothing is found where it does not or no directory is left.
    fn search_backwards_from_file(
        self,
        name: String,
        lib_name: String,
        dir: String,
        found: bool,
    ) -> (res: (Engine, Request))
        ensures
            (res.0@, res.1@) == self@.with_phase(
                PhaseView::ProbeBack { name: name@, lib_name: lib_name@, dir: dir@ },
            ).step(ReplyView::Probed(found)),
    {
        if found {
            let path = join(dir.as_str(), lib_name.as_str());
            self.try_load_library(name, path)
        } else {
            match self.get_parent_dir(dir.as_str()) {
                Some(above) => self.probe_back(name, lib_name, above),
                None => self.not_found(name),
            }
        }
    }

    /// The directory searched after `dir`.
    fn get_parent_dir(&self, dir: &str) -> (res: Option<String>)
        ensures
            opt_text(res) == self@.dir_above(dir@),
    {
        match self.search {
            Search::Backwards => match parent(dir) {
                Some(above) => if above.as_str().unicode_len() < dir.unicode_len() {
                    Some(above)
                } else {
                    None
                },
                None => None,
            },
            Search::Default => None,
        }
    }

    /// The directory to watch for `lib`.
    fn watch_dir(&self, lib: &Arc<Lib>) -> (res: Option<String>)
        ensures
            opt_text(res) == self@.watch_dir(lib@),
    {
        if self.watching {
            match &lib.original_path {
                Some(path) => parent(path.as_str()),
                None => None,
            }
        } else {
            None
        }
    }

    /// Registration ends with `lib`, which is registered last.
    fn registered(self, lib: Arc<Lib>) -> (res: (Engine, Request))
        ensures
            (res.0@, res.1@) == self@.registered(lib@),
    {
        let mut engine = self;
        engine.libs.push(share(&lib));
        engine.phase = Phase::Idle;
        assert(lib_views(engine.libs@) =~= lib_views(self.libs@).push(lib@));
        (engine, Request::Registered(Ok(lib)))
    }

    /// What a step of staging and loading means for the one it is made for.
    fn after_load(self, job: Job, outcome: LoadOutcome) -> (res: (Engine, Request))
        ensures
            (res.0@, res.1@) == self@.after_load(job@, outcome@),
    {
        let mut engine = self;
        match outcome {
            LoadOutcome::Ask(stage, request) => {
                engine.phase = Phase::Loading { job, stage };
                (engine, request)
            },
            LoadOutcome::Loaded(lib) => match job {
                Job::Register { name } => match engine.watch_dir(&lib) {
                    Some(dir) => {
                        engine.phase = Phase::Watch { lib };
                        (engine, Request::Watch { dir })
                    },
                    None => engine.registered(lib),
                },
                Job::Reload { events, ev, cursor } => {
                    engine.libs.push(share(&lib));
                    engine.phase = Phase::Closing { events, ev, cursor };
                    assert(lib_views(engine.libs@) =~= lib_views(self.libs@).push(lib@));
                    (engine, Request::Notify { state: UpdateState::After, lib: Some(lib) })
                },
            },
            LoadOutcome::Failed(error) => match job {
                Job::Register { name } => {
                    engine.phase = Phase::Idle;
                    (engine, Request::Registered(Err(error)))
                },
                Job::Reload { events, ev, cursor } => {
                    engine.phase = Phase::Closing { events, ev, cursor };
                    (engine, Request::Notify { state: UpdateState::ReloadFailed(error), lib: None })
                },
            },
        }
    }

    /// Takes the library at `idx` out of the registry; the last library takes
    /// its place. Under `ReclaimPolicy::Leak` its handle is leaked.
    fn remove_lib(&mut self, idx: usize)
        requires
            idx < old(self)@.libs.len(),
        ensures
            final(self)@ == (EngineView { libs: swap_removed(old(self)@.libs, idx as int), ..old(self)@ }),
    {
        let removed = self.libs.swap_remove(idx);
        assert(lib_views(self.libs@) =~= swap_removed(lib_views(old(self).libs@), idx as int));
        match self.policy {
            ReclaimPolicy::Leak => leak(removed),
            ReclaimPolicy::Release => {},
        }
    }

    /// Dispatch goes on with event `ev`, below index `cursor`.
    fn reload_libs(self, events: Vec<WatchEvent>, ev: usize, cursor: usize) -> (res: (
        Engine,
        Request,
    ))
        requires
            cursor <= self@.libs.len(),
        ensures
            (res.0@, res.1@) == self@.scan(event_views(events@), ev as nat, cursor as nat),
            res.0@.wf(),
    {
        proof {
            self@.lemma_scan_wf(event_views(events@), ev as nat, cursor as nat);
        }
        let mut engine = self;
        let mut at = ev;
        let mut below = cursor;
        while at < events.len()
            invariant
                engine == self,
                below <= engine.libs.len(),
                self@.scan(event_views(events@), ev as nat, cursor as nat) == self@.scan(
                    event_views(events@),
                    at as nat,
                    below as nat,
                ),
            decreases events.len() - at,
        {
            let found = match events[at].changed_path() {
                Some(path) => find_last(&engine.libs, path.as_str(), below),
                None => None,
            };
            match found {
                Some(index) => {
                    let lib = share(&engine.libs[index]);
                    proof {
                        assert(event_views(events@)[at as int] == events[at as int]@);
                        assert(lib_views(engine.libs@)[index as int] == lib@);
                    }
                    engine.phase = Phase::Before { events, ev: at, cursor: index };
                    return (engine, Request::Notify { state: UpdateState::Before, lib: Some(lib) });
                },
                None => {},
            }
            at = at + 1;
            below = engine.libs.len();
        }
        engine.phase = Phase::Idle;
        (engine, Request::Updated)
    }

    /// The host has returned from `Before`: the library at `cursor` leaves
    /// the registry, and the changed file is staged and loaded in its place.
    fn reload_lib(self, events: Vec<WatchEvent>, ev: usize, cursor: usize) -> (res: (
        Engine,
        Request,
    ))
        requires
            ev < events.len(),
            event_views(events@)[ev as int].changed_path() is Some,
            cursor < self@.libs.len(),
        ensures
            (res.0@, res.1@) == (EngineView {
                libs: swap_removed(self@.libs, cursor as int),
                ..self@
            }).after_load(
                JobView::Reload { events: event_views(events@), ev: ev as nat, cursor: cursor as nat },
                load_start(self@.shadow_dir, event_views(events@)[ev as int].changed_path()->0),
            ),
    {
        let mut engine = self;
        engine.remove_lib(cursor);
        let source = match events[ev].changed_path() {
            Some(path) => path.clone(),
            None => String::new(),
        };
        let outcome = load_library(&engine.shadow_dir, source);
        engine.after_load(Job::Reload { events, ev, cursor }, outcome)
    }

    /// The next state and the next request after `reply`.
    fn step(self, reply: Reply) -> (res: (Engine, Request))
        requires
            self@.wf(),
            self@.awaits(reply@),
        ensures
            (res.0@, res.1@) == self@.step(reply@),
            res.0@.wf(),
    {
        proof {
            self@.lemma_step_wf(reply@);
        }
        let mut engine = self;
        let mut phase = Phase::Idle;
        std::mem::swap(&mut engine.phase, &mut phase);
        assert(phase == self.phase);
        assert(self@ == engine@.with_phase(phase@));
        match (phase, reply) {
            (Phase::Staging { given, debounce }, Reply::StagingDir(created)) => {
                engine.get_temp_dir(given, debounce, created)
            },
            (Phase::Resolving { given, next, debounce }, Reply::Resolved(absolute)) => {
                engine.get_search_paths(given, next, debounce, absolute)
            },
            (Phase::Starting, Reply::Watcher(runs)) => engine.get_watcher(runs),
            (Phase::ProbeCwd { name, lib_name }, Reply::Probed(found)) => {
                engine.search_current_dir(name, lib_name, found)
            },
            (Phase::ProbePath { name, lib_name, index }, Reply::Probed(found)) => {
                engine.search_relative_paths(name, lib_name, index, found)
            },
            (Phase::Exe { name, lib_name }, Reply::Exe(exe)) => {
                engine.search_backwards_from_exe(name, lib_name, exe)
            },
            (Phase::ProbeBack { name, lib_name, dir }, Reply::Probed(found)) => {
                engine.search_backwards_from_file(name, lib_name, dir, found)
            },
            (Phase::Loading { job, stage }, reply) => {
                let outcome = load_next(&engine.shadow_dir, stage, reply);
                engine.after_load(job, outcome)
            },
            (Phase::Watch { lib }, Reply::Watching) => engine.registered(lib),
            (Phase::Before { events, ev, cursor }, Reply::Notified) => {
                engine.reload_lib(events, ev, cursor)
            },
            (Phase::Closing { events, ev, cursor }, Reply::Notified) => {
                proof {
                    engine@.lemma_scan_ignores_phase(
                        self@.phase,
                        event_views(events@),
                        ev as nat,
                        cursor as nat,
                    );
                }
                engine.reload_libs(events, ev, cursor)
            },
            (phase, _) => {
                engine.phase = phase;
                (engine, Request::Ready)
            },
        }
    }

    /// An engine that holds nothing.
    fn vacant() -> (res: Engine)
        ensures
            res@ == (EngineView {
                libs: Seq::empty(),
                search_paths: Seq::empty(),
                shadow_dir: None,
                search: Search::Default,
                platform: Platform::Unix,
                policy: ReclaimPolicy::Release,
                watching: false,
                phase: PhaseView::Idle,
            }),
            res@.wf(),
    {
        let res = Engine {
            libs: Vec::new(),
            search_paths: Vec::new(),
            shadow_dir: None,
            search: Search::Default,
            platform: Platform::Unix,
            policy: ReclaimPolicy::Release,
            watching: false,
            phase: Phase::Idle,
        };
        assert(lib_views(res.libs@) =~= Seq::empty());
        assert(texts(res.search_paths@) =~= Seq::empty());
        res
    }
}

/// The engine that registers libraries and reloads them when their files
/// change.
///
/// It performs no input or output itself. Each operation is begun by a call
/// that yields a [`Request`]; the caller carries the request out and hands
/// what it found to [`DynamicReload::resume`], which yields the next
/// request, until one of them says that the operation is finished.
pub struct DynamicReload {
    inner: Engine,
}

impl View for DynamicReload {
    type V = EngineView;

    closed spec fn view(&self) -> EngineView {
        self.inner@
    }
}

impl DynamicReload {
    /// The indices that the engine holds lie within what they index.
    #[verifier::type_invariant]
    spec fn inv(self) -> bool {
        self.inner@.wf()
    }

    /// Begins the construction of an engine.
    ///
    /// `search_paths` are directories searched at registration after the
    /// working directory. `shadow_dir` is the directory under which the
    /// staging directory is made; with `None` nothing is staged, and
    /// libraries are loaded where they are found. `search` says whether the
    /// directories above that of the executable are searched too.
    /// `debounce_duration` is how long the watcher waits after a change for
    /// further ones. `platform` is the naming convention of the target, and
    /// `policy` says what becomes of the handle of a library that is
    /// reloaded.
    ///
    /// The engine is usable once it has asked `Request::Ready`.
    pub fn new(
        search_paths: Option<Vec<&str>>,
        shadow_dir: Option<&str>,
        search: Search,
        debounce_duration: Duration,
        platform: Platform,
        policy: ReclaimPolicy,
    ) -> (res: (DynamicReload, Request))
        ensures
            (res.0@, res.1@) == EngineView::start_new(
                match search_paths {
                    Some(paths) => slice_texts(paths@),
                    None => Seq::empty(),
                },
                match shadow_dir {
                    Some(root) => Some(root@),
                    None => None,
                },
                search,
                debounce_duration,
                platform,
                policy,
            ),
    {
        let (inner, request) = Engine::start(
            search_paths,
            shadow_dir,
            search,
            debounce_duration,
            platform,
            policy,
        );
        (DynamicReload { inner }, request)
    }

    /// Whether `reply` answers what the engine asked last. An engine that
    /// has finished an operation awaits no reply.
    pub fn accepts(&self, reply: &Reply) -> (res: bool)
        ensures
            res == self@.awaits(reply@),
    {
        match &self.inner.phase {
            Phase::Idle => false,
            Phase::Staging { .. } => matches!(reply, Reply::StagingDir(_)),
            Phase::Resolving { .. } => matches!(reply, Reply::Resolved(_)),
            Phase::Starting => matches!(reply, Reply::Watcher(_)),
            Phase::ProbeCwd { .. } => matches!(reply, Reply::Probed(_)),
            Phase::ProbePath { .. } => matches!(reply, Reply::Probed(_)),
            Phase::Exe { .. } => matches!(reply, Reply::Exe(_)),
            Phase::ProbeBack { .. } => matches!(reply, Reply::Probed(_)),
            Phase::Loading { stage, .. } => match stage {
                LoadStage::Time { .. } => matches!(reply, Reply::Time(_)),
                LoadStage::Size { .. } => matches!(reply, Reply::Size(_)),
                LoadStage::Copy { .. } => matches!(reply, Reply::Copied(_)),
                LoadStage::Sleep { .. } => matches!(reply, Reply::Slept),
                LoadStage::Open { .. } => matches!(reply, Reply::Opened(_)),
            },
            Phase::Watch { .. } => matches!(reply, Reply::Watching),
            Phase::Before { .. } => matches!(reply, Reply::Notified),
            Phase::Closing { .. } => matches!(reply, Reply::Notified),
        }
    }

    /// Whether no operation is under way, so that one can be started.
    pub fn is_idle(&self) -> (res: bool)
        ensures
            res == (self@.phase is Idle),
    {
        matches!(&self.inner.phase, Phase::Idle)
    }

    /// The registered libraries. Their order says nothing.
    pub fn libs(&self) -> (res: &Vec<Arc<Lib>>)
        ensures
            lib_views(res@) == self@.libs,
    {
        &self.inner.libs
    }

    /// The directories searched after the working directory, in order.
    pub fn search_paths(&self) -> (res: &Vec<String>)
        ensures
            texts(res@) == self@.search_paths,
    {
        &self.inner.search_paths
    }

    /// The staging directory, if libraries are staged.
    pub fn shadow_dir(&self) -> (res: &Option<String>)
        ensures
            opt_text(*res) == self@.shadow_dir,
    {
        &self.inner.shadow_dir
    }

    /// Whether the file watcher runs. Without it nothing is reloaded.
    pub fn is_watching(&self) -> (res: bool)
        ensures
            res == self@.watching,
    {
        self.inner.watching
    }

    /// What becomes of the handle of a library that is reloaded.
    pub fn policy(&self) -> (res: ReclaimPolicy)
        ensures
            res == self@.policy,
    {
        self.inner.policy
    }

    /// Takes the engine on by one step: `reply` is what the caller found
    /// when it carried out the request that the engine made last.
    pub fn resume(&mut self, reply: Reply) -> (request: Request)
        requires
            old(self)@.awaits(reply@),
        ensures
            (final(self)@, request@) == old(self)@.step(reply@),
    {
        proof {
            use_type_invariant(&*self);
        }
        let mut engine = Engine::vacant();
        std::mem::swap(&mut self.inner, &mut engine);
        let (next, request) = engine.step(reply);
        self.inner = next;
        request
    }

    /// Begins the registration of the library `name`, to be loaded and to be
    /// reloaded when its file changes.
    ///
    /// With `PlatformName::Yes` the name is first put in the form that the
    /// platform gives its shared libraries. The file is searched for in the
    /// working directory, then in each search path in order, then in the
    /// directory of the executable and, with `Search::Backwards`, in each
    /// directory above it; the first regular file found is taken.
    ///
    /// Registration ends with `Request::Registered`, which holds the library
    /// or the reason why there is none.
    pub fn add_library(&mut self, name: &str, name_format: PlatformName) -> (request: Request)
        requires
            old(self)@.phase is Idle,
        ensures
            (final(self)@, request@) == old(self)@.start_register(name@, name_format),
    {
        let mut engine = Engine::vacant();
        std::mem::swap(&mut self.inner, &mut engine);
        let (next, request) = engine.search_dirs(name, name_format);
        self.inner = next;
        request
    }

    /// Begins the dispatch of the changes that the watcher has reported
    /// since the last dispatch, in the order in which they came.
    ///
    /// For each change to a file, every registered library whose source has
    /// that file name is reloaded: the host is told `Before` with the
    /// library, the library leaves the registry, and the changed file is
    /// staged and loaded. Then the host is told `After` with the new
    /// library, which is registered, or `ReloadFailed` with the error, and
    /// nothing stands in for the library that left.
    ///
    /// The dispatch ends with `Request::Updated`. Without events that is the
    /// first request, and nothing changes.
    pub fn update(&mut self, events: Vec<WatchEvent>) -> (request: Request)
        requires
            old(self)@.phase is Idle,
        ensures
            (final(self)@, request@) == old(self)@.start_update(event_views(events@)),
    {
        let mut engine = Engine::vacant();
        std::mem::swap(&mut self.inner, &mut engine);
        let total = engine.libs.len();
        let (next, request) = engine.reload_libs(events, 0, total);
        self.inner = next;
        request
    }
}

} // verus!
