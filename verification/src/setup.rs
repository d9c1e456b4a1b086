//! What construction makes of what the caller finds.
use vstd::prelude::*;
use std::time::Duration;
use crate::model::{staging_prefix, EngineView, PhaseView};
use crate::naming::Platform;
use crate::protocol::{ReclaimPolicy, ReplyView, RequestView, Search};

verus! {

/// The search paths as the engine keeps them: each in its absolute form
/// where `resolved` has one for it, and as it was given where not.
pub open spec fn kept_paths(given: Seq<Seq<char>>, resolved: Seq<Option<Seq<char>>>) -> Seq<
    Seq<char>,
> {
    Seq::new(
        given.len(),
        |i: int|
            match resolved[i] {
                Some(absolute) => absolute,
                None => given[i],
            },
    )
}

impl EngineView {
    /// Whether the engine is under construction.
    pub open spec fn in_setup(self) -> bool {
        self.phase is Staging || self.phase is Resolving || self.phase is Starting
    }

    /// An upper bound on the answers that construction still needs.
    pub open spec fn setup_left(self) -> nat {
        match self.phase {
            PhaseView::Staging { given, .. } => given.len() + 2,
            PhaseView::Resolving { given, next, .. } => (given.len() - next + 1) as nat,
            PhaseView::Starting => 1,
            _ => 0,
        }
    }

    /// What the caller answers during construction, when `created` is the
    /// staging directory it can make, `resolved` holds the absolute form of
    /// each search path that has one, and `runs` says whether the watcher
    /// starts.
    pub open spec fn setup_answer(
        self,
        created: Option<Seq<char>>,
        resolved: Seq<Option<Seq<char>>>,
        runs: bool,
    ) -> ReplyView {
        match self.phase {
            PhaseView::Staging { .. } => ReplyView::StagingDir(created),
            PhaseView::Resolving { next, .. } => ReplyView::Resolved(resolved[next as int]),
            _ => ReplyView::Watcher(runs),
        }
    }

    /// The state and the request with which construction ends.
    pub open spec fn setup_run(
        self,
        created: Option<Seq<char>>,
        resolved: Seq<Option<Seq<char>>>,
        runs: bool,
    ) -> (EngineView, RequestView)
        decreases self.setup_left(),
    {
        let next = self.step(self.setup_answer(created, resolved, runs));
        if next.0.in_setup() && next.0.setup_left() < self.setup_left() {
            next.0.setup_run(created, resolved, runs)
        } else {
            next
        }
    }

    /// Construction from the search paths on: the paths not yet resolved
    /// are added as [`kept_paths`] says, and the engine ends ready.
    pub proof fn lemma_setup_from(
        self,
        given: Seq<Seq<char>>,
        created: Option<Seq<char>>,
        resolved: Seq<Option<Seq<char>>>,
        runs: bool,
    )
        requires
            self.phase is Resolving || self.phase is Starting,
            self.phase matches PhaseView::Resolving { given: all, next, .. } ==> all == given
                && next < given.len() && self.search_paths == kept_paths(given, resolved).take(
                next as int,
            ),
            self.phase is Starting ==> self.search_paths == kept_paths(given, resolved),
        ensures
            self.setup_run(created, resolved, runs) == (
                EngineView {
                    search_paths: kept_paths(given, resolved),
                    watching: runs,
                    phase: PhaseView::Idle,
                    ..self
                },
                RequestView::Ready,
            ),
        decreases self.setup_left(),
    {
        match self.phase {
            PhaseView::Resolving { given: all, next, debounce } => {
                let then = self.step(self.setup_answer(created, resolved, runs)).0;
                let kept = kept_paths(given, resolved);
                assert(then.search_paths =~= kept.take(next as int + 1));
                if next + 1 == given.len() {
                    assert(kept.take(next as int + 1) =~= kept);
                }
                then.lemma_setup_from(given, created, resolved, runs);
            },
            _ => {},
        }
    }
}

/// What construction comes to. The engine first asks for a staging
/// directory under the root it is given, if it is given one; it keeps the
/// directory that the caller made, and stages nothing where the caller
/// could make none, which is no failure. It then keeps each search path in
/// its absolute form, or as it was given where it has none, and notes
/// whether the watcher runs. It ends idle, with no library registered.
pub proof fn lemma_construction(
    given: Seq<Seq<char>>,
    shadow_root: Option<Seq<char>>,
    search: Search,
    debounce: Duration,
    platform: Platform,
    policy: ReclaimPolicy,
    created: Option<Seq<char>>,
    resolved: Seq<Option<Seq<char>>>,
    runs: bool,
)
    ensures
        ({
            let start = EngineView::start_new(given, shadow_root, search, debounce, platform, policy);
            &&& start.0.in_setup()
            &&& shadow_root matches Some(root) ==> start.1 == RequestView::MakeStagingDir {
                root,
                prefix: staging_prefix(),
            }
            &&& start.0.setup_run(created, resolved, runs) == (
                EngineView {
                    libs: Seq::empty(),
                    search_paths: kept_paths(given, resolved),
                    shadow_dir: if shadow_root is Some {
                        created
                    } else {
                        None
                    },
                    search,
                    platform,
                    policy,
                    watching: runs,
                    phase: PhaseView::Idle,
                },
                RequestView::Ready,
            )
        }),
{
    let start = EngineView::start_new(given, shadow_root, search, debounce, platform, policy);
    let kept = kept_paths(given, resolved);
    assert(kept.take(0) =~= Seq::empty());
    if given.len() == 0 {
        assert(kept =~= Seq::empty());
    }
    match shadow_root {
        Some(root) => {
            let then = start.0.step(start.0.setup_answer(created, resolved, runs)).0;
            then.lemma_setup_from(given, created, resolved, runs);
        },
        None => {
            start.0.lemma_setup_from(given, created, resolved, runs);
        },
    }
}

/// A staging root under which no directory can be made leaves the engine
/// without a staging directory, and construction goes on to its end.
pub proof fn lemma_unusable_staging_root(
    given: Seq<Seq<char>>,
    root: Seq<char>,
    search: Search,
    debounce: Duration,
    platform: Platform,
    policy: ReclaimPolicy,
    resolved: Seq<Option<Seq<char>>>,
    runs: bool,
)
    ensures
        ({
            let start = EngineView::start_new(given, Some(root), search, debounce, platform, policy);
            let end = start.0.setup_run(None, resolved, runs);
            &&& end.0.shadow_dir is None
            &&& end.0.phase is Idle
            &&& end.1 == RequestView::Ready
        }),
{
    lemma_construction(given, Some(root), search, debounce, platform, policy, None, resolved, runs);
}

} // verus!
