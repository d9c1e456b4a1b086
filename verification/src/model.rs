//! The engine as a mathematical state machine: its states, and the function
//! that takes a state and a reply to the next state and the next request.
use vstd::prelude::*;
use std::time::Duration;
use crate::error::ErrorView;
use crate::module::LibView;
use crate::naming::{library_name, staged_path, Platform, PlatformName};
use crate::paths::{joined, parent_of};
use crate::protocol::{
    names_match, ReclaimPolicy, ReplyView, RequestView, Search, UpdateStateView, WatchEventView,
};

verus! {

/// How often a copy into the staging directory is attempted.
pub const COPY_ATTEMPTS: u8 = 10;

/// The milliseconds to wait after an attempt that made no copy.
pub const RETRY_MILLIS: u64 = 100;

/// Where staging and loading one file stands.
pub enum LoadStageView {
    /// The time is awaited, to name the staged copy of `source`.
    Time { source: Seq<char> },
    /// The size of `source` is awaited; `attempt` attempts have failed.
    Size { source: Seq<char>, dest: Seq<char>, attempt: u8 },
    /// The outcome of copying `source` to `dest` is awaited.
    Copy { source: Seq<char>, dest: Seq<char>, attempt: u8 },
    /// The end of the wait after a failed attempt is awaited.
    Sleep { source: Seq<char>, dest: Seq<char>, attempt: u8 },
    /// The loader's answer for `path` is awaited.
    Open { original: Option<Seq<char>>, path: Seq<char> },
}

/// What staging and loading one file comes to after a reply.
pub enum LoadStep {
    /// Not finished: the next stage and what to ask.
    Ask(LoadStageView, RequestView),
    /// The library is loaded.
    Loaded(LibView),
    /// The library is not loaded.
    Failed(ErrorView),
}

/// For whom a file is staged and loaded.
pub enum JobView {
    /// For the registration of `name`.
    Register { name: Seq<char> },
    /// For the reload that event `ev` of `events` asked for, of the library
    /// that stood at `cursor`.
    Reload { events: Seq<WatchEventView>, ev: nat, cursor: nat },
}

/// What the engine is waiting for.
pub enum PhaseView {
    /// Nothing: an operation can be started.
    Idle,
    /// Construction: the staging directory; `given` are the search paths.
    Staging { given: Seq<Seq<char>>, debounce: Duration },
    /// Construction: the absolute form of `given[next]`.
    Resolving { given: Seq<Seq<char>>, next: nat, debounce: Duration },
    /// Construction: whether the watcher runs.
    Starting,
    /// Registration: whether `lib_name` is a file in the working directory.
    ProbeCwd { name: Seq<char>, lib_name: Seq<char> },
    /// Registration: whether `lib_name` is a file in search path `index`.
    ProbePath { name: Seq<char>, lib_name: Seq<char>, index: nat },
    /// Registration: the path of the executable.
    Exe { name: Seq<char>, lib_name: Seq<char> },
    /// Registration: whether `lib_name` is a file in `dir`, which is the
    /// directory of the executable or one above it.
    ProbeBack { name: Seq<char>, lib_name: Seq<char>, dir: Seq<char> },
    /// A file is being staged and loaded.
    Loading { job: JobView, stage: LoadStageView },
    /// Registration: the watch on the directory of the library's source.
    Watch { lib: LibView },
    /// Dispatch: the host's return from `Before` for the library at `cursor`.
    Before { events: Seq<WatchEventView>, ev: nat, cursor: nat },
    /// Dispatch: the host's return from `After` or `ReloadFailed`.
    Closing { events: Seq<WatchEventView>, ev: nat, cursor: nat },
}

/// The engine's state.
pub struct EngineView {
    /// The registered libraries. Their order says nothing.
    pub libs: Seq<LibView>,
    /// The directories searched after the working directory, in order.
    pub search_paths: Seq<Seq<char>>,
    /// The staging directory, if libraries are staged.
    pub shadow_dir: Option<Seq<char>>,
    pub search: Search,
    pub platform: Platform,
    pub policy: ReclaimPolicy,
    /// Whether the file watcher runs.
    pub watching: bool,
    pub phase: PhaseView,
}

/// The start of the name of every staging directory.
pub open spec fn staging_prefix() -> Seq<char> {
    seq!['s', 'h', 'a', 'd', 'o', 'w', '_', 'l', 'i', 'b', 's']
}

/// A sequence without the item at `index`: the last item takes its place.
pub open spec fn swap_removed<T>(s: Seq<T>, index: int) -> Seq<T>
    recommends
        0 <= index < s.len(),
{
    s.update(index, s.last()).drop_last()
}

/// The last index below `cursor` of a library that a change of `path`
/// concerns, if there is one.
pub open spec fn last_match(libs: Seq<LibView>, path: Seq<char>, cursor: nat) -> Option<nat>
    decreases cursor,
{
    if cursor == 0 {
        None
    } else if names_match(path, libs[cursor - 1].original_path) {
        Some((cursor - 1) as nat)
    } else {
        last_match(libs, path, (cursor - 1) as nat)
    }
}

/// A library found by [`last_match`] stands below the cursor, and the change
/// concerns it.
pub proof fn lemma_last_match_found(libs: Seq<LibView>, path: Seq<char>, cursor: nat)
    ensures
        last_match(libs, path, cursor) matches Some(index) ==> index < cursor && names_match(
            path,
            libs[index as int].original_path,
        ),
        last_match(libs, path, cursor) is None ==> forall|i: int|
            0 <= i < cursor ==> !names_match(path, #[trigger] libs[i].original_path),
    decreases cursor,
{
    if cursor > 0 && !names_match(path, libs[cursor - 1].original_path) {
        lemma_last_match_found(libs, path, (cursor - 1) as nat);
    }
}

/// The directory searched after `dir`: the one above it, where the search
/// goes backwards and there is one. It is shorter than `dir`, so that the
/// ascent ends.
pub open spec fn dir_above(search: Search, dir: Seq<char>) -> Option<Seq<char>> {
    match parent_of(dir) {
        Some(above) => if search == Search::Backwards && above.len() < dir.len() {
            Some(above)
        } else {
            None
        },
        None => None,
    }
}

/// Whether `reply` answers what `stage` asked.
pub open spec fn load_awaits(stage: LoadStageView, reply: ReplyView) -> bool {
    match stage {
        LoadStageView::Time { .. } => reply is Time,
        LoadStageView::Size { .. } => reply is Size,
        LoadStageView::Copy { .. } => reply is Copied,
        LoadStageView::Sleep { .. } => reply is Slept,
        LoadStageView::Open { .. } => reply is Opened,
    }
}

/// How staging and loading `source` begins: with the time where a staging
/// directory is set, with loading in place where none is.
pub open spec fn load_start(shadow_dir: Option<Seq<char>>, source: Seq<char>) -> LoadStep {
    if shadow_dir is Some {
        LoadStep::Ask(LoadStageView::Time { source }, RequestView::Time)
    } else {
        LoadStep::Ask(
            LoadStageView::Open { original: None, path: source },
            RequestView::Open { path: source },
        )
    }
}

/// The wait after an attempt that made no copy.
pub open spec fn load_retry(source: Seq<char>, dest: Seq<char>, attempt: u8) -> LoadStep {
    LoadStep::Ask(
        LoadStageView::Sleep { source, dest, attempt },
        RequestView::Sleep { millis: RETRY_MILLIS },
    )
}

/// How staging and loading goes on after `reply`.
///
/// The source is copied only when its size is known and not zero. An
/// attempt without a copy is followed by a wait, and the last such wait by
/// `CopyTimeOut`. The first copy made is loaded at once. A source without a
/// file name cannot be staged and counts as not found.
pub open spec fn load_step(
    shadow_dir: Option<Seq<char>>,
    stage: LoadStageView,
    reply: ReplyView,
) -> LoadStep
    recommends
        load_awaits(stage, reply),
{
    match stage {
        LoadStageView::Time { source } => {
            if shadow_dir is Some && reply is Time {
                match staged_path(shadow_dir->0, source, reply->Time_0 as nat) {
                    Some(dest) => LoadStep::Ask(
                        LoadStageView::Size { source, dest, attempt: 0 },
                        RequestView::Size { path: source },
                    ),
                    None => LoadStep::Failed(ErrorView::Find(source)),
                }
            } else {
                LoadStep::Failed(ErrorView::Find(source))
            }
        },
        LoadStageView::Size { source, dest, attempt } => {
            if reply matches ReplyView::Size(Some(n)) && n > 0 {
                LoadStep::Ask(
                    LoadStageView::Copy { source, dest, attempt },
                    RequestView::Copy { from: source, to: dest },
                )
            } else {
                load_retry(source, dest, attempt)
            }
        },
        LoadStageView::Copy { source, dest, attempt } => {
            if reply == ReplyView::Copied(true) {
                LoadStep::Ask(
                    LoadStageView::Open { original: Some(source), path: dest },
                    RequestView::Open { path: dest },
                )
            } else {
                load_retry(source, dest, attempt)
            }
        },
        LoadStageView::Sleep { source, dest, attempt } => {
            if attempt + 1 < COPY_ATTEMPTS {
                LoadStep::Ask(
                    LoadStageView::Size { source, dest, attempt: (attempt + 1) as u8 },
                    RequestView::Size { path: source },
                )
            } else {
                LoadStep::Failed(ErrorView::CopyTimeOut(source, dest))
            }
        },
        LoadStageView::Open { original, path } => {
            match reply {
                ReplyView::Opened(Ok(handle)) => LoadStep::Loaded(
                    LibView { lib: handle, loaded_path: path, original_path: original },
                ),
                ReplyView::Opened(Err(why)) => LoadStep::Failed(ErrorView::Load(why)),
                _ => LoadStep::Failed(ErrorView::Find(path)),
            }
        },
    }
}

impl EngineView {
    /// The state with another phase.
    pub open spec fn with_phase(self, phase: PhaseView) -> EngineView {
        EngineView { phase, ..self }
    }

    /// Whether `reply` answers what the engine asked last.
    pub open spec fn awaits(self, reply: ReplyView) -> bool {
        match self.phase {
            PhaseView::Idle => false,
            PhaseView::Staging { .. } => reply is StagingDir,
            PhaseView::Resolving { .. } => reply is Resolved,
            PhaseView::Starting => reply is Watcher,
            PhaseView::ProbeCwd { .. } => reply is Probed,
            PhaseView::ProbePath { .. } => reply is Probed,
            PhaseView::Exe { .. } => reply is Exe,
            PhaseView::ProbeBack { .. } => reply is Probed,
            PhaseView::Loading { stage, .. } => load_awaits(stage, reply),
            PhaseView::Watch { .. } => reply is Watching,
            PhaseView::Before { .. } => reply is Notified,
            PhaseView::Closing { .. } => reply is Notified,
        }
    }

    /// Whether the indices that the phase holds lie within what they index.
    pub open spec fn wf(self) -> bool {
        match self.phase {
            PhaseView::Resolving { given, next, .. } => next < given.len(),
            PhaseView::ProbePath { index, .. } => index < self.search_paths.len(),
            PhaseView::Loading { job: JobView::Reload { events, ev, cursor }, stage } => {
                &&& ev < events.len()
                &&& events[ev as int].changed_path() is Some
                &&& cursor <= self.libs.len()
            },
            PhaseView::Loading { job: JobView::Register { .. }, stage } => true,
            PhaseView::Before { events, ev, cursor } => {
                &&& ev < events.len()
                &&& events[ev as int].changed_path() is Some
                &&& cursor < self.libs.len()
            },
            PhaseView::Closing { events, ev, cursor } => {
                &&& ev < events.len()
                &&& cursor <= self.libs.len()
            },
            _ => true,
        }
    }

    /// Construction goes on with search path `next` of `given`, or with the
    /// watcher when all are resolved.
    pub open spec fn resolve_from(
        self,
        given: Seq<Seq<char>>,
        next: nat,
        debounce: Duration,
    ) -> (EngineView, RequestView) {
        if next < given.len() {
            (
                self.with_phase(PhaseView::Resolving { given, next, debounce }),
                RequestView::Resolve { path: given[next as int] },
            )
        } else {
            (self.with_phase(PhaseView::Starting), RequestView::StartWatcher { debounce })
        }
    }

    /// Registration found nothing.
    pub open spec fn not_found(self, name: Seq<char>) -> (EngineView, RequestView) {
        (self.with_phase(PhaseView::Idle), RequestView::Registered(Err(ErrorView::Find(name))))
    }

    /// Registration goes on with search path `index`, or with the executable
    /// when all search paths are tried.
    pub open spec fn probe_path_from(self, name: Seq<char>, lib_name: Seq<char>, index: nat) -> (
        EngineView,
        RequestView,
    ) {
        if index < self.search_paths.len() {
            (
                self.with_phase(PhaseView::ProbePath { name, lib_name, index }),
                RequestView::Probe { path: joined(self.search_paths[index as int], lib_name) },
            )
        } else {
            (self.with_phase(PhaseView::Exe { name, lib_name }), RequestView::ExePath)
        }
    }

    /// Registration goes on in `dir`.
    pub open spec fn probe_back(self, name: Seq<char>, lib_name: Seq<char>, dir: Seq<char>) -> (
        EngineView,
        RequestView,
    ) {
        (
            self.with_phase(PhaseView::ProbeBack { name, lib_name, dir }),
            RequestView::Probe { path: joined(dir, lib_name) },
        )
    }

    /// The directory searched after `dir`.
    pub open spec fn dir_above(self, dir: Seq<char>) -> Option<Seq<char>> {
        dir_above(self.search, dir)
    }

    /// The directory to watch for `lib`: that of its source, where the
    /// watcher runs and the library has a source in a directory.
    pub open spec fn watch_dir(self, lib: LibView) -> Option<Seq<char>> {
        if self.watching && lib.original_path is Some {
            parent_of(lib.original_path->0)
        } else {
            None
        }
    }

    /// The state with `lib` registered last.
    pub open spec fn inserted(self, lib: LibView) -> EngineView {
        EngineView { libs: self.libs.push(lib), ..self }
    }

    /// Registration ends with `lib`.
    pub open spec fn registered(self, lib: LibView) -> (EngineView, RequestView) {
        (self.inserted(lib).with_phase(PhaseView::Idle), RequestView::Registered(Ok(lib)))
    }

    /// What a step of staging and loading means for the one it is made for.
    pub open spec fn after_load(self, job: JobView, outcome: LoadStep) -> (EngineView, RequestView) {
        match outcome {
            LoadStep::Ask(stage, request) => (
                self.with_phase(PhaseView::Loading { job, stage }),
                request,
            ),
            LoadStep::Loaded(lib) => match job {
                JobView::Register { name } => match self.watch_dir(lib) {
                    Some(dir) => (
                        self.with_phase(PhaseView::Watch { lib }),
                        RequestView::Watch { dir },
                    ),
                    None => self.registered(lib),
                },
                JobView::Reload { events, ev, cursor } => (
                    self.inserted(lib).with_phase(PhaseView::Closing { events, ev, cursor }),
                    RequestView::Notify { state: UpdateStateView::After, lib: Some(lib) },
                ),
            },
            LoadStep::Failed(error) => match job {
                JobView::Register { name } => (
                    self.with_phase(PhaseView::Idle),
                    RequestView::Registered(Err(error)),
                ),
                JobView::Reload { events, ev, cursor } => (
                    self.with_phase(PhaseView::Closing { events, ev, cursor }),
                    RequestView::Notify {
                        state: UpdateStateView::ReloadFailed(error),
                        lib: None,
                    },
                ),
            },
        }
    }

    /// Dispatch goes on with event `ev`, below index `cursor` of the
    /// libraries: the last library below it that the event concerns is
    /// announced to the host. An event that concerns none of them is passed
    /// over, and the next one is held against all libraries. After the last
    /// event the dispatch is finished.
    pub open spec fn scan(self, events: Seq<WatchEventView>, ev: nat, cursor: nat) -> (
        EngineView,
        RequestView,
    )
        decreases events.len() - ev,
    {
        if ev >= events.len() {
            (self.with_phase(PhaseView::Idle), RequestView::Updated)
        } else {
            let found = match events[ev as int].changed_path() {
                Some(path) => last_match(self.libs, path, cursor),
                None => None,
            };
            match found {
                Some(index) => (
                    self.with_phase(PhaseView::Before { events, ev, cursor: index }),
                    RequestView::Notify {
                        state: UpdateStateView::Before,
                        lib: Some(self.libs[index as int]),
                    },
                ),
                None => self.scan(events, ev + 1, self.libs.len()),
            }
        }
    }

    /// What a dispatch does next does not depend on the phase it starts in.
    pub proof fn lemma_scan_ignores_phase(
        self,
        phase: PhaseView,
        events: Seq<WatchEventView>,
        ev: nat,
        cursor: nat,
    )
        ensures
            self.with_phase(phase).scan(events, ev, cursor) == self.scan(events, ev, cursor),
        decreases events.len() - ev,
    {
        if ev < events.len() {
            self.lemma_scan_ignores_phase(phase, events, ev + 1, self.libs.len());
        }
    }

    /// Whether the job's indices lie within what they index.
    pub open spec fn job_wf(self, job: JobView) -> bool {
        match job {
            JobView::Register { .. } => true,
            JobView::Reload { events, ev, cursor } => {
                &&& ev < events.len()
                &&& events[ev as int].changed_path() is Some
                &&& cursor <= self.libs.len()
            },
        }
    }

    /// A dispatch that starts at or below the number of libraries leaves
    /// the state well formed.
    pub proof fn lemma_scan_wf(self, events: Seq<WatchEventView>, ev: nat, cursor: nat)
        requires
            cursor <= self.libs.len(),
        ensures
            self.scan(events, ev, cursor).0.wf(),
        decreases events.len() - ev,
    {
        if ev < events.len() {
            match events[ev as int].changed_path() {
                Some(path) => {
                    lemma_last_match_found(self.libs, path, cursor);
                },
                None => {},
            }
            self.lemma_scan_wf(events, ev + 1, self.libs.len());
        }
    }

    /// A step of staging and loading leaves the state well formed.
    pub proof fn lemma_after_load_wf(self, job: JobView, outcome: LoadStep)
        requires
            self.job_wf(job),
        ensures
            self.after_load(job, outcome).0.wf(),
    {
    }

    /// Every step leaves a well-formed state well formed.
    pub proof fn lemma_step_wf(self, reply: ReplyView)
        requires
            self.wf(),
            self.awaits(reply),
        ensures
            self.step(reply).0.wf(),
    {
        match self.phase {
            PhaseView::Loading { job, stage } => {
                self.lemma_after_load_wf(job, load_step(self.shadow_dir, stage, reply));
            },
            PhaseView::Before { events, ev, cursor } => {
                let removed = EngineView { libs: swap_removed(self.libs, cursor as int), ..self };
                removed.lemma_after_load_wf(
                    JobView::Reload { events, ev, cursor },
                    load_start(self.shadow_dir, events[ev as int].changed_path()->0),
                );
            },
            PhaseView::Closing { events, ev, cursor } => {
                self.lemma_scan_wf(events, ev, cursor);
            },
            _ => {},
        }
    }

    /// Whether the engine awaits exactly the replies that answer `request`,
    /// and is idle exactly when `request` ends an operation.
    pub open spec fn asks(self, request: RequestView) -> bool {
        &&& forall|reply: ReplyView| #[trigger] self.awaits(reply) == request.answered_by(reply)
        &&& request.is_final() == (self.phase is Idle)
    }

    /// A dispatch asks what it then awaits.
    pub proof fn lemma_scan_asks(self, events: Seq<WatchEventView>, ev: nat, cursor: nat)
        ensures
            self.scan(events, ev, cursor).0.asks(self.scan(events, ev, cursor).1),
        decreases events.len() - ev,
    {
        if ev < events.len() {
            self.lemma_scan_asks(events, ev + 1, self.libs.len());
        }
    }

    /// The engine and its caller stay in step. Whatever the engine asks,
    /// it then awaits exactly the replies of the kind that answers the
    /// request; and it is idle exactly when the request says that the
    /// operation is finished.
    pub proof fn lemma_step_asks(self, reply: ReplyView)
        requires
            self.wf(),
            self.awaits(reply),
        ensures
            self.step(reply).0.asks(self.step(reply).1),
    {
        match self.phase {
            PhaseView::Closing { events, ev, cursor } => {
                self.lemma_scan_asks(events, ev, cursor);
            },
            _ => {},
        }
    }

    /// Every operation begins in step: with a request whose answer the
    /// engine then awaits.
    pub proof fn lemma_start_asks(
        self,
        name: Seq<char>,
        name_format: PlatformName,
        events: Seq<WatchEventView>,
    )
        ensures
            self.start_register(name, name_format).0.asks(self.start_register(name, name_format).1),
            self.start_update(events).0.asks(self.start_update(events).1),
    {
        self.lemma_scan_asks(events, 0, self.libs.len());
    }

    /// Construction begins in step.
    pub proof fn lemma_start_new_asks(
        given: Seq<Seq<char>>,
        shadow_root: Option<Seq<char>>,
        search: Search,
        debounce: Duration,
        platform: Platform,
        policy: ReclaimPolicy,
    )
        ensures
            ({
                let start = EngineView::start_new(
                    given,
                    shadow_root,
                    search,
                    debounce,
                    platform,
                    policy,
                );
                start.0.asks(start.1) && start.0.wf()
            }),
    {
    }

    /// The state in which construction begins, and its first request: the
    /// staging directory where a root for it is given, else the first search
    /// path.
    pub open spec fn start_new(
        given: Seq<Seq<char>>,
        shadow_root: Option<Seq<char>>,
        search: Search,
        debounce: Duration,
        platform: Platform,
        policy: ReclaimPolicy,
    ) -> (EngineView, RequestView) {
        let fresh = EngineView {
            libs: Seq::empty(),
            search_paths: Seq::empty(),
            shadow_dir: None,
            search,
            platform,
            policy,
            watching: false,
            phase: PhaseView::Idle,
        };
        match shadow_root {
            Some(root) => (
                fresh.with_phase(PhaseView::Staging { given, debounce }),
                RequestView::MakeStagingDir { root, prefix: staging_prefix() },
            ),
            None => fresh.resolve_from(given, 0, debounce),
        }
    }

    /// The state in which the registration of `name` begins, and its first
    /// request: whether the file is in the working directory.
    pub open spec fn start_register(self, name: Seq<char>, name_format: PlatformName) -> (
        EngineView,
        RequestView,
    ) {
        let lib_name = library_name(name, name_format, self.platform);
        (
            self.with_phase(PhaseView::ProbeCwd { name, lib_name }),
            RequestView::Probe { path: lib_name },
        )
    }

    /// The state in which the dispatch of `events` begins, and its first
    /// request.
    pub open spec fn start_update(self, events: Seq<WatchEventView>) -> (EngineView, RequestView) {
        self.scan(events, 0, self.libs.len())
    }

    /// The next state and the next request after `reply`.
    pub open spec fn step(self, reply: ReplyView) -> (EngineView, RequestView)
        recommends
            self.wf(),
            self.awaits(reply),
    {
        match self.phase {
            PhaseView::Idle => (self, RequestView::Ready),
            PhaseView::Staging { given, debounce } => {
                let dir = match reply {
                    ReplyView::StagingDir(dir) => dir,
                    _ => None,
                };
                EngineView { shadow_dir: dir, ..self }.resolve_from(given, 0, debounce)
            },
            PhaseView::Resolving { given, next, debounce } => {
                let path = match reply {
                    ReplyView::Resolved(Some(absolute)) => absolute,
                    _ => given[next as int],
                };
                EngineView { search_paths: self.search_paths.push(path), ..self }.resolve_from(
                    given,
                    next + 1,
                    debounce,
                )
            },
            PhaseView::Starting => (
                EngineView {
                    watching: reply == ReplyView::Watcher(true),
                    phase: PhaseView::Idle,
                    ..self
                },
                RequestView::Ready,
            ),
            PhaseView::ProbeCwd { name, lib_name } => {
                if reply == ReplyView::Probed(true) {
                    self.after_load(
                        JobView::Register { name },
                        load_start(self.shadow_dir, lib_name),
                    )
                } else {
                    self.probe_path_from(name, lib_name, 0)
                }
            },
            PhaseView::ProbePath { name, lib_name, index } => {
                if reply == ReplyView::Probed(true) {
                    self.after_load(
                        JobView::Register { name },
                        load_start(
                            self.shadow_dir,
                            joined(self.search_paths[index as int], lib_name),
                        ),
                    )
                } else {
                    self.probe_path_from(name, lib_name, index + 1)
                }
            },
            PhaseView::Exe { name, lib_name } => {
                let dir = match reply {
                    ReplyView::Exe(Some(exe)) => parent_of(exe),
                    _ => None,
                };
                match dir {
                    Some(dir) => self.probe_back(name, lib_name, dir),
                    None => self.not_found(name),
                }
            },
            PhaseView::ProbeBack { name, lib_name, dir } => {
                if reply == ReplyView::Probed(true) {
                    self.after_load(
                        JobView::Register { name },
                        load_start(self.shadow_dir, joined(dir, lib_name)),
                    )
                } else {
                    match self.dir_above(dir) {
                        Some(above) => self.probe_back(name, lib_name, above),
                        None => self.not_found(name),
                    }
                }
            },
            PhaseView::Loading { job, stage } => self.after_load(
                job,
                load_step(self.shadow_dir, stage, reply),
            ),
            PhaseView::Watch { lib } => self.registered(lib),
            PhaseView::Before { events, ev, cursor } => {
                EngineView { libs: swap_removed(self.libs, cursor as int), ..self }.after_load(
                    JobView::Reload { events, ev, cursor },
                    load_start(self.shadow_dir, events[ev as int].changed_path()->0),
                )
            },
            PhaseView::Closing { events, ev, cursor } => self.scan(events, ev, cursor),
        }
    }
}

} // verus!
