//! The retry policy of staging, and how staged copies are told apart.
use vstd::prelude::*;
use libloading::Library;
use crate::error::ErrorView;
use crate::model::{
    load_awaits, load_start, load_step, LoadStageView, LoadStep, COPY_ATTEMPTS, RETRY_MILLIS,
};
use crate::module::LibView;
use crate::naming::{decimal, digit_char, staged_name, staged_path};
use crate::protocol::{ReplyView, RequestView};

verus! {

/// What the caller finds at one attempt to copy.
pub struct Attempt {
    /// The size of the source, where it can be read.
    pub size: Option<u64>,
    /// Whether the copy, if it is asked for, is made.
    pub copied: bool,
}

impl Attempt {
    /// Whether the attempt makes a copy: the source has a size that is not
    /// zero, and the copy succeeds.
    pub open spec fn succeeds(self) -> bool {
        self.size matches Some(n) && n > 0 && self.copied
    }
}

/// The first attempt from `from` on, within the attempts allowed, that
/// makes a copy.
pub open spec fn first_success(attempts: Seq<Attempt>, from: nat) -> Option<nat>
    decreases COPY_ATTEMPTS - from,
{
    if from >= COPY_ATTEMPTS {
        None
    } else if attempts[from as int].succeeds() {
        Some(from)
    } else {
        first_success(attempts, from + 1)
    }
}

/// A first success is one of the attempts allowed, not before `from`, and
/// no attempt between the two makes a copy.
pub proof fn lemma_first_success(attempts: Seq<Attempt>, from: nat)
    ensures
        first_success(attempts, from) matches Some(k) ==> from <= k < COPY_ATTEMPTS
            && attempts[k as int].succeeds() && forall|i: int|
            from <= i < k ==> !(#[trigger] attempts[i]).succeeds(),
        first_success(attempts, from) is None ==> forall|i: int|
            from <= i < COPY_ATTEMPTS ==> !(#[trigger] attempts[i]).succeeds(),
    decreases COPY_ATTEMPTS - from,
{
    if from < COPY_ATTEMPTS && !attempts[from as int].succeeds() {
        lemma_first_success(attempts, from + 1);
    }
}

/// An upper bound on the answers that staging and loading still needs.
pub open spec fn load_answers_left(stage: LoadStageView) -> nat {
    match stage {
        LoadStageView::Time { .. } => (3 * COPY_ATTEMPTS + 2) as nat,
        LoadStageView::Size { attempt, .. } => (3 * (COPY_ATTEMPTS - attempt) + 1) as nat,
        LoadStageView::Copy { attempt, .. } => (3 * (COPY_ATTEMPTS - attempt)) as nat,
        LoadStageView::Sleep { attempt, .. } => (3 * (COPY_ATTEMPTS - attempt) - 1) as nat,
        LoadStageView::Open { .. } => 1,
    }
}

/// Whether the attempt counted by a stage of copying is one of those
/// allowed.
pub open spec fn stage_wf(stage: LoadStageView) -> bool {
    match stage {
        LoadStageView::Size { attempt, .. } => attempt < COPY_ATTEMPTS,
        LoadStageView::Copy { attempt, .. } => attempt < COPY_ATTEMPTS,
        LoadStageView::Sleep { attempt, .. } => attempt < COPY_ATTEMPTS,
        _ => true,
    }
}

/// What the caller finds while one file is staged and loaded.
pub struct Found {
    /// The time, in milliseconds.
    pub time: u128,
    /// What it finds at each attempt to copy.
    pub attempts: Seq<Attempt>,
    /// What the loader makes of the file.
    pub opened: Result<Library, Seq<char>>,
}

/// What the caller answers at a stage of staging and loading.
pub open spec fn load_answer(stage: LoadStageView, found: Found) -> ReplyView {
    match stage {
        LoadStageView::Time { .. } => ReplyView::Time(found.time),
        LoadStageView::Size { attempt, .. } => ReplyView::Size(found.attempts[attempt as int].size),
        LoadStageView::Copy { attempt, .. } => ReplyView::Copied(
            found.attempts[attempt as int].copied,
        ),
        LoadStageView::Sleep { .. } => ReplyView::Slept,
        LoadStageView::Open { .. } => ReplyView::Opened(found.opened),
    }
}

/// How staging and loading ends from `stage` on, and after how many waits.
pub open spec fn load_run(shadow_dir: Option<Seq<char>>, stage: LoadStageView, found: Found) -> (
    LoadStep,
    nat,
)
    decreases load_answers_left(stage),
{
    let next = load_step(shadow_dir, stage, load_answer(stage, found));
    let waited: nat = if stage is Sleep {
        1
    } else {
        0
    };
    match next {
        LoadStep::Ask(then, _) => if load_answers_left(then) < load_answers_left(stage) {
            let rest = load_run(shadow_dir, then, found);
            (rest.0, rest.1 + waited)
        } else {
            (next, waited)
        },
        _ => (next, waited),
    }
}

/// What the loader's answer for `path` makes: the library, loaded from
/// `path` and watching `original`, or the loader's error.
pub open spec fn opened_as(
    original: Option<Seq<char>>,
    path: Seq<char>,
    opened: Result<Library, Seq<char>>,
) -> LoadStep {
    match opened {
        Ok(handle) => LoadStep::Loaded(
            LibView { lib: handle, loaded_path: path, original_path: original },
        ),
        Err(why) => LoadStep::Failed(ErrorView::Load(why)),
    }
}

/// What staging and loading `source` comes to, and after how many waits.
///
/// Without a staging directory the source itself is loaded and nothing is
/// watched. With one, the source is copied to its staged path under the
/// retry policy: at the first attempt that succeeds, after one wait for
/// each attempt before it; the copy is loaded, and the source is what the
/// library watches. Where none of the attempts allowed succeeds, the
/// outcome is `CopyTimeOut` with the source and the destination, after as
/// many waits as attempts. The loader is asked once and its error is final.
pub open spec fn load_outcome(shadow_dir: Option<Seq<char>>, source: Seq<char>, found: Found) -> (
    LoadStep,
    nat,
) {
    match shadow_dir {
        None => (opened_as(None, source, found.opened), 0),
        Some(dir) => match staged_path(dir, source, found.time as nat) {
            None => (LoadStep::Failed(ErrorView::Find(source)), 0),
            Some(dest) => match first_success(found.attempts, 0) {
                Some(k) => (opened_as(Some(source), dest, found.opened), k),
                None => (
                    LoadStep::Failed(ErrorView::CopyTimeOut(source, dest)),
                    COPY_ATTEMPTS as nat,
                ),
            },
        },
    }
}

/// The retry policy from attempt `attempt` on.
pub proof fn lemma_copy_from(
    shadow_dir: Option<Seq<char>>,
    source: Seq<char>,
    dest: Seq<char>,
    attempt: u8,
    found: Found,
)
    requires
        attempt < COPY_ATTEMPTS,
    ensures
        load_run(shadow_dir, LoadStageView::Size { source, dest, attempt }, found) == (
            match first_success(found.attempts, attempt as nat) {
                Some(k) => (opened_as(Some(source), dest, found.opened), (k - attempt) as nat),
                None => (
                    LoadStep::Failed(ErrorView::CopyTimeOut(source, dest)),
                    (COPY_ATTEMPTS - attempt) as nat,
                ),
            }
        ),
    decreases COPY_ATTEMPTS - attempt,
{
    let size = LoadStageView::Size { source, dest, attempt };
    let copy = LoadStageView::Copy { source, dest, attempt };
    let sleep = LoadStageView::Sleep { source, dest, attempt };
    let open = LoadStageView::Open { original: Some(source), path: dest };
    let at = found.attempts[attempt as int];
    if attempt + 1 < COPY_ATTEMPTS {
        lemma_copy_from(shadow_dir, source, dest, (attempt + 1) as u8, found);
    }
    lemma_first_success(found.attempts, attempt as nat + 1);
    assert(load_run(shadow_dir, open, found) == (opened_as(Some(source), dest, found.opened), 0nat));
    assert(load_run(shadow_dir, sleep, found) == (
        match first_success(found.attempts, attempt as nat + 1) {
            Some(k) => (opened_as(Some(source), dest, found.opened), (k - attempt) as nat),
            None => (
                LoadStep::Failed(ErrorView::CopyTimeOut(source, dest)),
                (COPY_ATTEMPTS - attempt) as nat,
            ),
        }
    ));
    if at.size matches Some(n) && n > 0 {
        assert(load_run(shadow_dir, size, found) == load_run(shadow_dir, copy, found));
        if at.copied {
            assert(load_run(shadow_dir, copy, found) == load_run(shadow_dir, open, found));
        } else {
            assert(load_run(shadow_dir, copy, found) == load_run(shadow_dir, sleep, found));
        }
    } else {
        assert(load_run(shadow_dir, size, found) == load_run(shadow_dir, sleep, found));
    }
}

/// Staging and loading, with each request answered as `found` says, ends
/// as [`load_outcome`] says.
pub proof fn lemma_load_outcome(shadow_dir: Option<Seq<char>>, source: Seq<char>, found: Found)
    ensures
        load_start(shadow_dir, source) matches LoadStep::Ask(stage, _) && load_run(
            shadow_dir,
            stage,
            found,
        ) == load_outcome(shadow_dir, source, found),
{
    match shadow_dir {
        None => {},
        Some(dir) => match staged_path(dir, source, found.time as nat) {
            None => {},
            Some(dest) => {
                lemma_copy_from(shadow_dir, source, dest, 0, found);
                lemma_first_success(found.attempts, 0);
            },
        },
    }
}

/// Staging and loading comes to an end: every answer either ends it or
/// leaves fewer answers needed. It never tells the host anything itself.
pub proof fn lemma_load_ends(shadow_dir: Option<Seq<char>>, stage: LoadStageView, reply: ReplyView)
    requires
        stage_wf(stage),
        load_awaits(stage, reply),
    ensures
        load_step(shadow_dir, stage, reply) matches LoadStep::Ask(then, request) ==> {
            &&& stage_wf(then)
            &&& load_answers_left(then) < load_answers_left(stage)
            &&& !(request is Notify)
        },
{
}

/// A library that is loaded from a staged copy watches the source of the
/// copy, and one that is loaded in place watches nothing. It is loaded from
/// the path that the loader was asked to open.
pub proof fn lemma_loaded_paths(shadow_dir: Option<Seq<char>>, stage: LoadStageView, reply: ReplyView)
    requires
        load_awaits(stage, reply),
    ensures
        load_step(shadow_dir, stage, reply) matches LoadStep::Loaded(lib) ==> {
            &&& stage matches LoadStageView::Open { original, path }
            &&& lib.loaded_path == path
            &&& lib.original_path == original
        },
        load_step(shadow_dir, stage, reply) matches LoadStep::Ask(
            LoadStageView::Open { original, path },
            request,
        ) ==> {
            &&& request == RequestView::Open { path }
            &&& stage matches LoadStageView::Copy { source, dest, .. }
            &&& original == Some(source)
            &&& path == dest
        },
        load_step(shadow_dir, stage, reply) matches LoadStep::Ask(
            LoadStageView::Size { source, dest, attempt },
            _,
        ) ==> (stage is Time ==> shadow_dir is Some && reply is Time && Some(dest) == staged_path(
            shadow_dir->0,
            source,
            reply->Time_0 as nat,
        )),
{
}

/// Every wait between attempts is for the time that the policy sets.
pub proof fn lemma_waits_are_fixed(stage: LoadStageView, reply: ReplyView)
    ensures
        load_step(None, stage, reply) matches LoadStep::Ask(_, RequestView::Sleep { millis })
            ==> millis == RETRY_MILLIS,
{
}

/// A number of two or more digits is written with two or more characters.
pub proof fn lemma_decimal_len(n: nat)
    ensures
        decimal(n).len() >= 1,
        n >= 10 ==> decimal(n).len() >= 2,
    decreases n,
{
    if n >= 10 {
        lemma_decimal_len(n / 10);
    }
}

/// No number is written with an underscore.
pub proof fn lemma_decimal_has_no_underscore(n: nat)
    ensures
        forall|i: int| 0 <= i < decimal(n).len() ==> #[trigger] decimal(n)[i] != '_',
    decreases n,
{
    if n >= 10 {
        lemma_decimal_has_no_underscore(n / 10);
        let front = decimal(n / 10);
        assert forall|i: int| 0 <= i < decimal(n).len() implies #[trigger] decimal(n)[i]
            != '_' by {
            if i < front.len() {
                assert(decimal(n)[i] == front[i]);
            }
        }
    }
}

/// Two numbers that are written alike are the same number.
pub proof fn lemma_decimal_injective(a: nat, b: nat)
    requires
        decimal(a) == decimal(b),
    ensures
        a == b,
    decreases a,
{
    lemma_decimal_len(a);
    lemma_decimal_len(b);
    if a < 10 {
        assert(decimal(a)[0] == digit_char(a));
        assert(decimal(b)[0] == digit_char(b));
    } else {
        let x = decimal(a / 10);
        let y = decimal(b / 10);
        assert(decimal(a).drop_last() =~= x);
        assert(decimal(b).drop_last() =~= y);
        assert(decimal(a).last() == digit_char(a % 10));
        assert(decimal(b).last() == digit_char(b % 10));
        lemma_decimal_injective(a / 10, b / 10);
    }
}

/// Copies of one file staged at different times have different names, so
/// that a new copy never takes the place of one that is still loaded.
pub proof fn lemma_staged_names_differ(t1: nat, t2: nat, file1: Seq<char>, file2: Seq<char>)
    requires
        staged_name(t1, file1) == staged_name(t2, file2),
    ensures
        t1 == t2,
        file1 == file2,
{
    let a = decimal(t1);
    let b = decimal(t2);
    let n1 = staged_name(t1, file1);
    let n2 = staged_name(t2, file2);
    lemma_decimal_has_no_underscore(t1);
    lemma_decimal_has_no_underscore(t2);
    assert(n1[a.len() as int] == '_');
    assert(n2[b.len() as int] == '_');
    if a.len() < b.len() {
        assert(n2[a.len() as int] == b[a.len() as int]);
    } else if b.len() < a.len() {
        assert(n1[b.len() as int] == a[b.len() as int]);
    }
    assert(a.len() == b.len());
    assert(a =~= b) by {
        assert forall|i: int| 0 <= i < a.len() implies a[i] == b[i] by {
            assert(n1[i] == a[i]);
            assert(n2[i] == b[i]);
        }
    }
    lemma_decimal_injective(t1, t2);
    assert(file1 =~= file2) by {
        assert(file1.len() == file2.len()) by {
            assert(n1.len() == a.len() + 1 + file1.len());
            assert(n2.len() == b.len() + 1 + file2.len());
        }
        assert forall|i: int| 0 <= i < file1.len() implies file1[i] == file2[i] by {
            assert(n1[a.len() + 1 + i] == file1[i]);
            assert(n2[b.len() + 1 + i] == file2[i]);
        }
    }
}

} // verus!
