//! What a whole registration and a whole reload come to, given what the
//! caller finds on the way.
use vstd::prelude::*;
use crate::error::ErrorView;
use crate::model::{
    load_start, load_step, swap_removed, EngineView, JobView, LoadStageView, LoadStep, PhaseView,
};
use crate::naming::{library_name, PlatformName};
use crate::protocol::{ReplyView, RequestView, UpdateStateView};
use crate::staging::{
    lemma_load_ends, lemma_load_outcome, load_answer, load_answers_left, load_outcome, load_run,
    stage_wf, Found,
};

verus! {

/// Staging and loading, with each request answered as `found` says, ends
/// with the library or with an error, never in between.
pub proof fn lemma_load_run_ends(shadow_dir: Option<Seq<char>>, stage: LoadStageView, found: Found)
    requires
        stage_wf(stage),
    ensures
        !(load_run(shadow_dir, stage, found).0 is Ask),
    decreases load_answers_left(stage),
{
    let reply = load_answer(stage, found);
    lemma_load_ends(shadow_dir, stage, reply);
    match load_step(shadow_dir, stage, reply) {
        LoadStep::Ask(then, _) => {
            lemma_load_run_ends(shadow_dir, then, found);
        },
        _ => {},
    }
}

impl EngineView {
    /// The answers that the engine still needs at most while it stages and
    /// loads a file.
    pub open spec fn loading_left(self) -> nat {
        match self.phase {
            PhaseView::Loading { stage, .. } => load_answers_left(stage),
            _ => 0,
        }
    }

    /// The state and the request with which staging and loading ends, when
    /// each request is answered as `found` says.
    pub open spec fn loading_run(self, found: Found) -> (EngineView, RequestView)
        decreases self.loading_left(),
    {
        match self.phase {
            PhaseView::Loading { stage, .. } => {
                let next = self.step(load_answer(stage, found));
                if next.0.phase is Loading && next.0.loading_left() < self.loading_left() {
                    next.0.loading_run(found)
                } else {
                    next
                }
            },
            _ => (self, RequestView::Ready),
        }
    }

    /// The engine stages and loads as [`load_run`] says, and then does for
    /// the one the file is loaded for what the outcome asks.
    pub proof fn lemma_loading_run(self, found: Found)
        requires
            self.phase matches PhaseView::Loading { stage, .. } && stage_wf(stage),
        ensures
            self.loading_run(found) == self.after_load(
                self.phase->job,
                load_run(self.shadow_dir, self.phase->stage, found).0,
            ),
        decreases self.loading_left(),
    {
        let job = self.phase->job;
        let stage = self.phase->stage;
        let reply = load_answer(stage, found);
        lemma_load_ends(self.shadow_dir, stage, reply);
        match load_step(self.shadow_dir, stage, reply) {
            LoadStep::Ask(then, _) => {
                let next = self.step(reply).0;
                next.lemma_loading_run(found);
                lemma_load_run_ends(self.shadow_dir, then, found);
            },
            _ => {},
        }
    }

    /// What a registration comes to once its file is found at `path`: the
    /// library is appended to the registry and handed out, or the error is,
    /// and the engine is as before.
    pub open spec fn register_outcome(self, path: Seq<char>, found: Found) -> (
        EngineView,
        RequestView,
    ) {
        match load_outcome(self.shadow_dir, path, found).0 {
            LoadStep::Loaded(lib) => self.registered(lib),
            LoadStep::Failed(error) => (
                self.with_phase(PhaseView::Idle),
                RequestView::Registered(Err(error)),
            ),
            LoadStep::Ask(_, request) => (self, request),
        }
    }

    /// The state and the request after the watch, if one was asked for.
    pub open spec fn watch_run(self) -> (EngineView, RequestView) {
        self.step(ReplyView::Watching)
    }

    /// A registration whose file is found at `path` stages and loads that
    /// file and ends as [`EngineView::register_outcome`] says. Before it
    /// hands out a library that watches a source, it asks for a watch on the
    /// directory of the source, if the watcher runs.
    pub proof fn lemma_register_outcome(self, name: Seq<char>, path: Seq<char>, found: Found)
        ensures
            ({
                let begun = self.after_load(
                    JobView::Register { name },
                    load_start(self.shadow_dir, path),
                );
                let loaded = begun.0.loading_run(found);
                let lib = load_outcome(self.shadow_dir, path, found).0;
                &&& begun.0.phase is Loading
                &&& match loaded.0.phase {
                    PhaseView::Watch { .. } => {
                        &&& lib matches LoadStep::Loaded(l)
                        &&& self.watch_dir(l) matches Some(dir)
                        &&& loaded.1 == RequestView::Watch { dir }
                        &&& loaded.0.watch_run() == self.register_outcome(path, found)
                    },
                    _ => {
                        &&& loaded == self.register_outcome(path, found)
                        &&& lib matches LoadStep::Loaded(l) ==> self.watch_dir(l) is None
                    },
                }
            }),
    {
        let begun = self.after_load(JobView::Register { name }, load_start(self.shadow_dir, path));
        lemma_load_outcome(self.shadow_dir, path, found);
        begun.0.lemma_loading_run(found);
        lemma_load_run_ends(self.shadow_dir, begun.0.phase->stage, found);
    }

    /// What a reload comes to once the host has returned from `Before`:
    /// the library at `cursor` has left the registry; the new library is
    /// appended and the host is told `After` with it, or the host is told
    /// `ReloadFailed` with the error and nothing is appended.
    pub open spec fn reload_outcome(self, found: Found) -> (EngineView, RequestView)
        recommends
            self.phase is Before,
    {
        match self.phase {
            PhaseView::Before { events, ev, cursor } => {
                let rest = EngineView { libs: swap_removed(self.libs, cursor as int), ..self };
                let closing = PhaseView::Closing { events, ev, cursor };
                match load_outcome(
                    self.shadow_dir,
                    events[ev as int].changed_path()->0,
                    found,
                ).0 {
                    LoadStep::Loaded(lib) => (
                        rest.inserted(lib).with_phase(closing),
                        RequestView::Notify { state: UpdateStateView::After, lib: Some(lib) },
                    ),
                    LoadStep::Failed(error) => (
                        rest.with_phase(closing),
                        RequestView::Notify {
                            state: UpdateStateView::ReloadFailed(error),
                            lib: None,
                        },
                    ),
                    LoadStep::Ask(_, request) => (self, request),
                }
            },
            _ => (self, RequestView::Ready),
        }
    }

    /// A reload, once the host has returned from `Before`, stages and loads
    /// the file that changed and ends as [`EngineView::reload_outcome`]
    /// says: with exactly one of `After` and `ReloadFailed`.
    pub proof fn lemma_reload_outcome(self, found: Found)
        requires
            self.wf(),
            self.phase is Before,
        ensures
            ({
                let begun = self.step(ReplyView::Notified);
                let end = begun.0.loading_run(found);
                &&& begun.0.phase is Loading
                &&& end == self.reload_outcome(found)
                &&& end.1 matches RequestView::Notify { state, .. } && !(state is Before)
            }),
    {
        let begun = self.step(ReplyView::Notified);
        match self.phase {
            PhaseView::Before { events, ev, cursor } => {
                let source = events[ev as int].changed_path()->0;
                lemma_load_outcome(self.shadow_dir, source, found);
                begun.0.lemma_loading_run(found);
                lemma_load_run_ends(self.shadow_dir, begun.0.phase->stage, found);
            },
            _ => {},
        }
    }

    /// Registration from beginning to end. The name resolves to the first
    /// candidate that is a regular file; that file is staged and loaded;
    /// and the registration ends with the library appended to the registry,
    /// or with `Find`, `Load` or `CopyTimeOut` and the engine as before.
    pub proof fn lemma_registration(
        self,
        name: Seq<char>,
        name_format: PlatformName,
        files: Set<Seq<char>>,
        exe: Option<Seq<char>>,
        found: Found,
    )
        requires
            self.phase is Idle,
        ensures
            ({
                let lib_name = library_name(name, name_format, self.platform);
                let searched = self.start_register(name, name_format).0.search_run(files, exe);
                let loaded = searched.0.loading_run(found);
                let end = if loaded.0.phase is Watch {
                    loaded.0.watch_run()
                } else {
                    loaded
                };
                match self.resolve(lib_name, files, exe) {
                    None => searched == (
                        self,
                        RequestView::Registered(Err(ErrorView::Find(name))),
                    ),
                    Some(path) => end == self.register_outcome(path, found) && (
                    end.1 matches RequestView::Registered(Err(_)) ==> end.0 == self),
                }
            }),
    {
        let lib_name = library_name(name, name_format, self.platform);
        self.lemma_register_resolves(name, name_format, files, exe);
        match self.resolve(lib_name, files, exe) {
            Some(path) => {
                self.lemma_register_outcome(name, path, found);
                lemma_load_outcome(self.shadow_dir, path, found);
                lemma_load_run_ends(
                    self.shadow_dir,
                    load_start(self.shadow_dir, path)->Ask_0,
                    found,
                );
            },
            None => {},
        }
    }
}

} // verus!
