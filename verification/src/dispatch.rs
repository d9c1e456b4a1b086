//! What a dispatch of the watcher's events does to the registry and tells
//! the host.
use vstd::prelude::*;
use crate::model::{
    last_match, lemma_last_match_found, load_start, load_step, swap_removed, EngineView, JobView,
    LoadStep, PhaseView,
};
use crate::protocol::{names_match, ReplyView, RequestView, UpdateStateView, WatchEventView};

verus! {

impl EngineView {
    /// A dispatch without events does nothing: the engine asks nothing of
    /// the host and is as it was.
    pub proof fn lemma_update_without_events(self)
        requires
            self.phase is Idle,
        ensures
            self.start_update(Seq::empty()) == (self, RequestView::Updated),
    {
    }

    /// Events that concern no registered library do nothing: neither
    /// events of a kind that asks for no reload, nor changes to files whose
    /// name no library watches.
    pub proof fn lemma_unrelated_events(self, events: Seq<WatchEventView>, ev: nat, cursor: nat)
        requires
            self.phase is Idle,
            cursor <= self.libs.len(),
            forall|e: int, i: int|
                #![trigger events[e], self.libs[i]]
                ev <= e < events.len() && 0 <= i < self.libs.len() ==> (
                events[e].changed_path() matches Some(path) ==> !names_match(
                    path,
                    self.libs[i].original_path,
                )),
        ensures
            self.scan(events, ev, cursor) == (self, RequestView::Updated),
        decreases events.len() - ev,
    {
        if ev < events.len() {
            match events[ev as int].changed_path() {
                Some(path) => {
                    lemma_last_match_found(self.libs, path, cursor);
                    match last_match(self.libs, path, cursor) {
                        Some(index) => {
                            let event = events[ev as int];
                            let lib = self.libs[index as int];
                            assert(!names_match(path, lib.original_path));
                        },
                        None => {},
                    }
                },
                None => {},
            }
            self.lemma_unrelated_events(events, ev + 1, self.libs.len());
        }
    }

    /// What a dispatch asks first. Either it is finished and nothing has
    /// changed; or the host is told `Before` with a registered library that
    /// watches a file of the name that changed, and nothing else has
    /// changed yet.
    pub proof fn lemma_dispatch_announces(self, events: Seq<WatchEventView>, ev: nat, cursor: nat)
        requires
            cursor <= self.libs.len(),
        ensures
            ({
                let (then, request) = self.scan(events, ev, cursor);
                ||| then == self.with_phase(PhaseView::Idle) && request == RequestView::Updated
                ||| exists|at: nat, index: nat|
                    {
                        &&& ev <= at < events.len()
                        &&& index < self.libs.len()
                        &&& events[at as int].changed_path() matches Some(path) && names_match(
                            path,
                            self.libs[index as int].original_path,
                        )
                        &&& then == self.with_phase(
                            PhaseView::Before { events, ev: at, cursor: index },
                        )
                        &&& request == RequestView::Notify {
                            state: UpdateStateView::Before,
                            lib: Some(self.libs[index as int]),
                        }
                    }
            }),
        decreases events.len() - ev,
    {
        if ev < events.len() {
            let found = match events[ev as int].changed_path() {
                Some(path) => {
                    lemma_last_match_found(self.libs, path, cursor);
                    last_match(self.libs, path, cursor)
                },
                None => None,
            };
            match found {
                Some(index) => {
                    let (then, request) = self.scan(events, ev, cursor);
                    assert(ev <= ev < events.len() && index < self.libs.len() && then
                        == self.with_phase(PhaseView::Before { events, ev, cursor: index }));
                },
                None => {
                    self.lemma_dispatch_announces(events, ev + 1, self.libs.len());
                },
            }
        }
    }

    /// After `Before` the reload is under way: the library has left the
    /// registry, and the changed file is being staged and loaded. The host
    /// is not told anything more until that has come to an end.
    pub proof fn lemma_before_commits(self, reply: ReplyView)
        requires
            self.wf(),
            self.phase is Before,
            self.awaits(reply),
        ensures
            ({
                let (then, request) = self.step(reply);
                &&& self.phase matches PhaseView::Before { events, ev, cursor }
                &&& then.libs == swap_removed(self.libs, cursor as int)
                &&& then.libs.len() == self.libs.len() - 1
                &&& then.phase matches PhaseView::Loading { job, stage }
                &&& job == JobView::Reload { events, ev, cursor }
                &&& load_start(self.shadow_dir, events[ev as int].changed_path()->0) == LoadStep::Ask(
                    stage,
                    request,
                )
                &&& !(request is Notify)
            }),
    {
    }

    /// A reload ends with exactly one word to the host. While the file is
    /// staged and loaded the host is told nothing and the registry stays as
    /// it is. When that ends, the host is told `After` with the new
    /// library, which is then the last in the registry, or `ReloadFailed`
    /// with the error and no library, and the registry is left without the
    /// library that was removed.
    pub proof fn lemma_reload_closes(self, reply: ReplyView)
        requires
            self.wf(),
            self.phase matches PhaseView::Loading { job, .. } && job is Reload,
            self.awaits(reply),
        ensures
            ({
                let (then, request) = self.step(reply);
                &&& self.phase matches PhaseView::Loading {
                    job: JobView::Reload { events, ev, cursor },
                    stage,
                }
                &&& match load_step(self.shadow_dir, stage, reply) {
                    LoadStep::Ask(next, asked) => {
                        &&& then == self.with_phase(PhaseView::Loading { job: self.phase->job, stage: next })
                        &&& request == asked
                        &&& !(request is Notify)
                    },
                    LoadStep::Loaded(lib) => {
                        &&& then.libs == self.libs.push(lib)
                        &&& then.phase == PhaseView::Closing { events, ev, cursor }
                        &&& request == RequestView::Notify {
                            state: UpdateStateView::After,
                            lib: Some(lib),
                        }
                    },
                    LoadStep::Failed(error) => {
                        &&& then.libs == self.libs
                        &&& then.phase == PhaseView::Closing { events, ev, cursor }
                        &&& request == RequestView::Notify {
                            state: UpdateStateView::ReloadFailed(error),
                            lib: None,
                        }
                    },
                }
            }),
    {
    }

    /// After `After` or `ReloadFailed` the dispatch goes on where it was:
    /// with the same event, below the place of the library that was
    /// reloaded.
    pub proof fn lemma_dispatch_goes_on(self, reply: ReplyView)
        requires
            self.wf(),
            self.phase is Closing,
            self.awaits(reply),
        ensures
            self.phase matches PhaseView::Closing { events, ev, cursor } && self.step(reply)
                == self.scan(events, ev, cursor),
    {
    }

    /// A step never changes how the engine was set up.
    pub proof fn lemma_settings_are_kept(self, reply: ReplyView)
        requires
            self.phase !is Idle,
            !self.in_setup(),
        ensures
            ({
                let then = self.step(reply).0;
                &&& then.search_paths == self.search_paths
                &&& then.shadow_dir == self.shadow_dir
                &&& then.search == self.search
                &&& then.platform == self.platform
                &&& then.policy == self.policy
                &&& then.watching == self.watching
            }),
    {
        match self.phase {
            PhaseView::Closing { events, ev, cursor } => {
                self.lemma_scan_keeps(events, ev, cursor);
            },
            _ => {},
        }
    }

    /// A dispatch changes nothing but the phase.
    pub proof fn lemma_scan_keeps(self, events: Seq<WatchEventView>, ev: nat, cursor: nat)
        ensures
            self.scan(events, ev, cursor).0 == self.with_phase(self.scan(events, ev, cursor).0.phase),
        decreases events.len() - ev,
    {
        if ev < events.len() {
            self.lemma_scan_keeps(events, ev + 1, self.libs.len());
        }
    }

    /// A registration that fails changes nothing: the registry and the
    /// settings are as before, and the engine is idle again.
    pub proof fn lemma_failed_registration(self, reply: ReplyView)
        requires
            self.wf(),
            self.awaits(reply),
            self.step(reply).1 matches RequestView::Registered(Err(_)),
        ensures
            self.step(reply).0 == self.with_phase(PhaseView::Idle),
    {
        match self.phase {
            PhaseView::Closing { events, ev, cursor } => {
                self.lemma_dispatch_announces(events, ev, cursor);
            },
            _ => {},
        }
    }

    /// A registration that succeeds adds the library to the registry as its
    /// last entry, whether or not a library that watches the same file is
    /// registered already.
    pub proof fn lemma_registration_appends(self, reply: ReplyView)
        requires
            self.wf(),
            self.awaits(reply),
            self.step(reply).1 matches RequestView::Registered(Ok(_)),
        ensures
            ({
                let (then, request) = self.step(reply);
                request matches RequestView::Registered(Ok(lib)) && then == self.inserted(
                    lib,
                ).with_phase(PhaseView::Idle)
            }),
    {
        match self.phase {
            PhaseView::Closing { events, ev, cursor } => {
                self.lemma_dispatch_announces(events, ev, cursor);
            },
            _ => {},
        }
    }
}

/// Removing an entry leaves every other entry in the registry, and one
/// entry fewer: only the order may change.
pub proof fn lemma_swap_removed<T>(s: Seq<T>, index: int)
    requires
        0 <= index < s.len(),
    ensures
        swap_removed(s, index).len() == s.len() - 1,
        swap_removed(s, index).to_multiset().insert(s[index]) == s.to_multiset(),
        forall|i: int| 0 <= i < index ==> swap_removed(s, index)[i] == s[i],
{
    let last = s.len() - 1;
    let out = swap_removed(s, index);
    let without = s.remove(index);
    s.to_multiset_ensures();
    assert(s.contains(s[index]));
    assert(without.to_multiset() =~= s.to_multiset().remove(s[index]));
    if index == last {
        assert(out =~= without);
    } else {
        let rest = out.remove(index);
        out.to_multiset_ensures();
        rest.to_multiset_ensures();
        assert(out.contains(out[index]));
        assert(rest.to_multiset() =~= out.to_multiset().remove(s[last]));
        assert(without =~= rest.push(s[last]));
        assert(without.to_multiset() =~= rest.to_multiset().insert(s[last]));
        assert(out.to_multiset() =~= without.to_multiset());
    }
    assert(without.to_multiset().insert(s[index]) =~= s.to_multiset());
}

} // verus!
