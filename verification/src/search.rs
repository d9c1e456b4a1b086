//! Where a library is searched for, and that registration searches there.
use vstd::prelude::*;
use crate::model::{dir_above, load_start, EngineView, JobView, PhaseView};
use crate::naming::{library_name, PlatformName};
use crate::paths::{joined, parent_of};
use crate::protocol::{ReplyView, RequestView, Search};

verus! {

/// The first path of `candidates` that is one of `files`.
pub open spec fn first_file(candidates: Seq<Seq<char>>, files: Set<Seq<char>>) -> Option<Seq<char>>
    decreases candidates.len(),
{
    if candidates.len() == 0 {
        None
    } else if files.contains(candidates[0]) {
        Some(candidates[0])
    } else {
        first_file(candidates.drop_first(), files)
    }
}

/// The first file of a sequence is its head, if that is a file, and else
/// the first file of the rest.
pub proof fn lemma_first_file_cons(head: Seq<char>, rest: Seq<Seq<char>>, files: Set<Seq<char>>)
    ensures
        first_file(seq![head] + rest, files) == if files.contains(head) {
            Some(head)
        } else {
            first_file(rest, files)
        },
{
    assert((seq![head] + rest).drop_first() =~= rest);
}

/// A file that no path of the sequence before index `k` is, and that the
/// path at `k` is, is the first file.
pub proof fn lemma_first_file_at(candidates: Seq<Seq<char>>, files: Set<Seq<char>>, k: int)
    requires
        0 <= k < candidates.len(),
        files.contains(candidates[k]),
        forall|i: int| 0 <= i < k ==> !files.contains(#[trigger] candidates[i]),
    ensures
        first_file(candidates, files) == Some(candidates[k]),
    decreases k,
{
    if k > 0 {
        let rest = candidates.drop_first();
        assert forall|i: int| 0 <= i < k - 1 implies !files.contains(#[trigger] rest[i]) by {
            assert(rest[i] == candidates[i + 1]);
        }
        lemma_first_file_at(rest, files, k - 1);
    }
}

/// Where no path of the sequence is a file, there is no first file.
pub proof fn lemma_first_file_none(candidates: Seq<Seq<char>>, files: Set<Seq<char>>)
    requires
        forall|i: int| 0 <= i < candidates.len() ==> !files.contains(#[trigger] candidates[i]),
    ensures
        first_file(candidates, files) is None,
    decreases candidates.len(),
{
    if candidates.len() > 0 {
        let rest = candidates.drop_first();
        assert forall|i: int| 0 <= i < rest.len() implies !files.contains(#[trigger] rest[i]) by {
            assert(rest[i] == candidates[i + 1]);
        }
        lemma_first_file_none(rest, files);
    }
}

/// The paths tried from `dir` on: the file in `dir`, then in each directory
/// above it that the search visits.
pub open spec fn back_candidates(search: Search, lib_name: Seq<char>, dir: Seq<char>) -> Seq<
    Seq<char>,
>
    decreases dir.len(),
{
    match dir_above(search, dir) {
        Some(above) => seq![joined(dir, lib_name)] + back_candidates(search, lib_name, above),
        None => seq![joined(dir, lib_name)],
    }
}

/// The paths tried from the executable `exe`: none where it is not known or
/// has no directory.
pub open spec fn exe_candidates(search: Search, lib_name: Seq<char>, exe: Option<Seq<char>>) -> Seq<
    Seq<char>,
> {
    match exe {
        Some(path) => match parent_of(path) {
            Some(dir) => back_candidates(search, lib_name, dir),
            None => Seq::empty(),
        },
        None => Seq::empty(),
    }
}

/// The paths tried from search path `index` on: the file in each search path
/// from there, then those tried from the executable.
pub open spec fn path_candidates(
    search_paths: Seq<Seq<char>>,
    search: Search,
    lib_name: Seq<char>,
    exe: Option<Seq<char>>,
    index: nat,
) -> Seq<Seq<char>>
    decreases search_paths.len() - index,
{
    if index < search_paths.len() {
        seq![joined(search_paths[index as int], lib_name)] + path_candidates(
            search_paths,
            search,
            lib_name,
            exe,
            index + 1,
        )
    } else {
        exe_candidates(search, lib_name, exe)
    }
}

/// The candidates from search path `index` on begin with the file in each
/// search path from there.
pub proof fn lemma_path_candidates_index(
    search_paths: Seq<Seq<char>>,
    search: Search,
    lib_name: Seq<char>,
    exe: Option<Seq<char>>,
    index: nat,
)
    requires
        index <= search_paths.len(),
    ensures
        path_candidates(search_paths, search, lib_name, exe, index).len() >= search_paths.len()
            - index,
        forall|i: int|
            0 <= i < search_paths.len() - index ==> #[trigger] path_candidates(
                search_paths,
                search,
                lib_name,
                exe,
                index,
            )[i] == joined(search_paths[index + i], lib_name),
    decreases search_paths.len() - index,
{
    if index < search_paths.len() {
        lemma_path_candidates_index(search_paths, search, lib_name, exe, index + 1);
        let rest = path_candidates(search_paths, search, lib_name, exe, index + 1);
        let all = path_candidates(search_paths, search, lib_name, exe, index);
        assert forall|i: int| 0 <= i < search_paths.len() - index implies #[trigger] all[i]
            == joined(search_paths[index + i], lib_name) by {
            if i > 0 {
                assert(all[i] == rest[i - 1]);
            }
        }
    }
}

impl EngineView {
    /// The paths tried from `dir` on.
    pub open spec fn back_candidates(self, lib_name: Seq<char>, dir: Seq<char>) -> Seq<Seq<char>> {
        back_candidates(self.search, lib_name, dir)
    }

    /// The paths tried from the executable `exe`.
    pub open spec fn exe_candidates(self, lib_name: Seq<char>, exe: Option<Seq<char>>) -> Seq<
        Seq<char>,
    > {
        exe_candidates(self.search, lib_name, exe)
    }

    /// The paths tried from search path `index` on.
    pub open spec fn path_candidates(
        self,
        lib_name: Seq<char>,
        exe: Option<Seq<char>>,
        index: nat,
    ) -> Seq<Seq<char>> {
        path_candidates(self.search_paths, self.search, lib_name, exe, index)
    }

    /// All paths tried for `lib_name`, in the order in which they are
    /// tried: the working directory, each search path, the directory of the
    /// executable and, where the search goes backwards, each directory
    /// above it.
    pub open spec fn candidates(self, lib_name: Seq<char>, exe: Option<Seq<char>>) -> Seq<
        Seq<char>,
    > {
        seq![lib_name] + self.path_candidates(lib_name, exe, 0)
    }

    /// The path that `lib_name` resolves to when `files` are the regular
    /// files and `exe` is the executable: the first candidate that is a file.
    pub open spec fn resolve(
        self,
        lib_name: Seq<char>,
        files: Set<Seq<char>>,
        exe: Option<Seq<char>>,
    ) -> Option<Seq<char>> {
        first_file(self.candidates(lib_name, exe), files)
    }

    /// Whether registration is searching.
    pub open spec fn searching(self) -> bool {
        self.phase is ProbeCwd || self.phase is ProbePath || self.phase is Exe
            || self.phase is ProbeBack
    }

    /// The paths that a searching registration has yet to try.
    pub open spec fn untried(self, exe: Option<Seq<char>>) -> Seq<Seq<char>> {
        match self.phase {
            PhaseView::ProbeCwd { lib_name, .. } => self.candidates(lib_name, exe),
            PhaseView::ProbePath { lib_name, index, .. } => self.path_candidates(
                lib_name,
                exe,
                index,
            ),
            PhaseView::Exe { lib_name, .. } => self.exe_candidates(lib_name, exe),
            PhaseView::ProbeBack { lib_name, dir, .. } => self.back_candidates(lib_name, dir),
            _ => Seq::empty(),
        }
    }

    /// The name under registration.
    pub open spec fn registering(self) -> Seq<char> {
        match self.phase {
            PhaseView::ProbeCwd { name, .. } => name,
            PhaseView::ProbePath { name, .. } => name,
            PhaseView::Exe { name, .. } => name,
            PhaseView::ProbeBack { name, .. } => name,
            _ => Seq::empty(),
        }
    }

    /// What the engine has asked in a searching phase.
    pub open spec fn asked(self) -> RequestView {
        match self.phase {
            PhaseView::ProbeCwd { lib_name, .. } => RequestView::Probe { path: lib_name },
            PhaseView::ProbePath { lib_name, index, .. } => RequestView::Probe {
                path: joined(self.search_paths[index as int], lib_name),
            },
            PhaseView::ProbeBack { lib_name, dir, .. } => RequestView::Probe {
                path: joined(dir, lib_name),
            },
            _ => RequestView::ExePath,
        }
    }

    /// The true answer to what a searching engine has asked, when `files`
    /// are the regular files and `exe` is the executable.
    pub open spec fn answer(self, files: Set<Seq<char>>, exe: Option<Seq<char>>) -> ReplyView {
        match self.asked() {
            RequestView::Probe { path } => ReplyView::Probed(files.contains(path)),
            _ => ReplyView::Exe(exe),
        }
    }

    /// An upper bound on the answers that a searching engine still needs.
    pub open spec fn answers_left(self, exe: Option<Seq<char>>) -> nat {
        match self.phase {
            PhaseView::ProbeCwd { .. } => self.untried(exe).len() + 1,
            PhaseView::ProbePath { .. } => self.untried(exe).len() + 1,
            PhaseView::Exe { .. } => self.untried(exe).len() + 1,
            _ => self.untried(exe).len(),
        }
    }

    /// The state and the request with which the search ends, when each
    /// request is answered truly.
    pub open spec fn search_run(self, files: Set<Seq<char>>, exe: Option<Seq<char>>) -> (
        EngineView,
        RequestView,
    )
        decreases self.answers_left(exe),
    {
        let next = self.step(self.answer(files, exe));
        if next.0.searching() && next.0.answers_left(exe) < self.answers_left(exe) {
            next.0.search_run(files, exe)
        } else {
            next
        }
    }

    /// What the search comes to when it finds `found`: the file is staged
    /// and loaded, or the registration fails with `Find` and the name.
    pub open spec fn search_result(self, found: Option<Seq<char>>) -> (EngineView, RequestView) {
        match found {
            Some(path) => self.after_load(
                JobView::Register { name: self.registering() },
                load_start(self.shadow_dir, path),
            ),
            None => self.not_found(self.registering()),
        }
    }

    /// A searching engine whose requests are answered truly asks, after
    /// each answer that does not end the search, for the next candidate,
    /// and needs fewer answers than before.
    pub proof fn lemma_search_advances(self, files: Set<Seq<char>>, exe: Option<Seq<char>>)
        requires
            self.wf(),
            self.searching(),
        ensures
            self.awaits(self.answer(files, exe)),
            ({
                let next = self.step(self.answer(files, exe));
                next.0.searching() ==> {
                    &&& next.1 == next.0.asked()
                    &&& next.0.wf()
                    &&& next.0.answers_left(exe) < self.answers_left(exe)
                    &&& next.0.registering() == self.registering()
                    &&& first_file(next.0.untried(exe), files) == first_file(
                        self.untried(exe),
                        files,
                    )
                    &&& next.0 == self.with_phase(next.0.phase)
                }
            }),
            ({
                let next = self.step(self.answer(files, exe));
                !next.0.searching() ==> next == self.search_result(
                    first_file(self.untried(exe), files),
                )
            }),
    {
        match self.phase {
            PhaseView::ProbeCwd { name, lib_name } => {
                lemma_first_file_cons(lib_name, self.path_candidates(lib_name, exe, 0), files);
            },
            PhaseView::ProbePath { name, lib_name, index } => {
                lemma_first_file_cons(
                    joined(self.search_paths[index as int], lib_name),
                    self.path_candidates(lib_name, exe, index + 1),
                    files,
                );
            },
            PhaseView::Exe { name, lib_name } => {
                if self.exe_candidates(lib_name, exe).len() == 0 {
                    assert(first_file(self.exe_candidates(lib_name, exe), files) is None);
                }
            },
            PhaseView::ProbeBack { name, lib_name, dir } => {
                match self.dir_above(dir) {
                    Some(above) => {
                        lemma_first_file_cons(
                            joined(dir, lib_name),
                            self.back_candidates(lib_name, above),
                            files,
                        );
                    },
                    None => {
                        lemma_first_file_cons(joined(dir, lib_name), Seq::empty(), files);
                        assert(seq![joined(dir, lib_name)] + Seq::<Seq<char>>::empty() =~= seq![
                            joined(dir, lib_name),
                        ]);
                    },
                }
            },
            _ => {},
        }
    }

    /// The search ends as the first untried candidate that is a file says.
    pub proof fn lemma_search_run(self, files: Set<Seq<char>>, exe: Option<Seq<char>>)
        requires
            self.wf(),
            self.searching(),
        ensures
            self.search_run(files, exe) == self.search_result(
                first_file(self.untried(exe), files),
            ),
        decreases self.answers_left(exe),
    {
        self.lemma_search_advances(files, exe);
        let next = self.step(self.answer(files, exe));
        if next.0.searching() {
            next.0.lemma_search_run(files, exe);
        }
    }

    /// Registration resolves the name as the search order says: it asks
    /// first for the file in the working directory and, with each request
    /// answered truly, ends the search by staging and loading the first
    /// candidate that is a regular file, or by failing with `Find` and the
    /// name where no candidate is one. A failed search leaves the engine as
    /// it was before the registration.
    pub proof fn lemma_register_resolves(
        self,
        name: Seq<char>,
        name_format: PlatformName,
        files: Set<Seq<char>>,
        exe: Option<Seq<char>>,
    )
        requires
            self.phase is Idle,
        ensures
            ({
                let lib_name = library_name(name, name_format, self.platform);
                let start = self.start_register(name, name_format);
                let end = start.0.search_run(files, exe);
                &&& start.1 == RequestView::Probe { path: lib_name }
                &&& match self.resolve(lib_name, files, exe) {
                    Some(path) => end == self.after_load(
                        JobView::Register { name },
                        load_start(self.shadow_dir, path),
                    ),
                    None => end == (self, RequestView::Registered(Err(crate::error::ErrorView::Find(name)))),
                }
            }),
    {
        let start = self.start_register(name, name_format);
        start.0.lemma_search_run(files, exe);
    }

    /// A name that is a file in no search location is not registered: the
    /// registration fails with `Find` and the name, and the engine, its
    /// registry with it, is as before.
    pub proof fn lemma_absent_name_is_not_found(
        self,
        name: Seq<char>,
        name_format: PlatformName,
        files: Set<Seq<char>>,
        exe: Option<Seq<char>>,
    )
        requires
            self.phase is Idle,
            ({
                let c = self.candidates(library_name(name, name_format, self.platform), exe);
                forall|i: int| 0 <= i < c.len() ==> !files.contains(#[trigger] c[i])
            }),
        ensures
            self.start_register(name, name_format).0.search_run(files, exe) == (
                self,
                RequestView::Registered(Err(crate::error::ErrorView::Find(name))),
            ),
    {
        let lib_name = library_name(name, name_format, self.platform);
        lemma_first_file_none(self.candidates(lib_name, exe), files);
        self.lemma_register_resolves(name, name_format, files, exe);
    }

    /// A file that is found in search path `k` only, and in no location
    /// tried before it, is the one that registration stages and loads.
    pub proof fn lemma_search_path_is_used(
        self,
        name: Seq<char>,
        name_format: PlatformName,
        files: Set<Seq<char>>,
        exe: Option<Seq<char>>,
        k: int,
    )
        requires
            self.phase is Idle,
            0 <= k < self.search_paths.len(),
            ({
                let lib_name = library_name(name, name_format, self.platform);
                &&& !files.contains(lib_name)
                &&& forall|i: int|
                    0 <= i < k ==> !files.contains(
                        #[trigger] joined(self.search_paths[i], lib_name),
                    )
                &&& files.contains(joined(self.search_paths[k], lib_name))
            }),
        ensures
            ({
                let lib_name = library_name(name, name_format, self.platform);
                self.start_register(name, name_format).0.search_run(files, exe) == self.after_load(
                    JobView::Register { name },
                    load_start(self.shadow_dir, joined(self.search_paths[k], lib_name)),
                )
            }),
    {
        let lib_name = library_name(name, name_format, self.platform);
        let c = self.candidates(lib_name, exe);
        lemma_path_candidates_index(self.search_paths, self.search, lib_name, exe, 0);
        assert forall|i: int| 0 <= i < k + 1 implies !files.contains(#[trigger] c[i]) by {
            if i > 0 {
                assert(c[i] == joined(self.search_paths[i - 1], lib_name));
            }
        }
        assert(c[k + 1] == joined(self.search_paths[k], lib_name));
        lemma_first_file_at(c, files, k + 1);
        self.lemma_register_resolves(name, name_format, files, exe);
    }
}

} // verus!
