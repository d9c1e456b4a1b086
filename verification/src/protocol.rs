use vstd::prelude::*;
use std::sync::Arc;
use std::time::Duration;
use libloading::Library;
use crate::error::{Error, ErrorView};
use crate::module::{Lib, LibView};
use crate::paths::{file_name, file_name_of, opt_text};

verus! {

/// Where a library is searched for besides the working directory, the
/// configured search paths and the directory of the executable.
#[derive(Debug, PartialEq, Eq, Structural, Clone, Copy)]
pub enum Search {
    /// Nowhere else.
    Default,
    /// In each directory above that of the executable as well.
    Backwards,
}

/// What becomes of a library's handle when the engine lets go of it.
#[derive(Debug, PartialEq, Eq, Structural, Clone, Copy)]
pub enum ReclaimPolicy {
    /// The handle is dropped, and closed once no one else holds it.
    Release,
    /// The handle is leaked on purpose and never closed, for libraries whose
    /// teardown code is not safe to run.
    Leak,
}

/// The states the host is told of while a library is reloaded.
#[derive(Debug)]
pub enum UpdateState {
    /// The library is about to be reloaded: time to save state and clean up.
    Before,
    /// The library has been reloaded: time to restore state.
    After,
    /// Reloading failed; no library stands in for the one that was removed.
    ReloadFailed(Error),
}

/// An [`UpdateState`] with its texts as sequences of characters.
pub enum UpdateStateView {
    Before,
    After,
    ReloadFailed(ErrorView),
}

impl View for UpdateState {
    type V = UpdateStateView;

    open spec fn view(&self) -> UpdateStateView {
        match *self {
            UpdateState::Before => UpdateStateView::Before,
            UpdateState::After => UpdateStateView::After,
            UpdateState::ReloadFailed(e) => UpdateStateView::ReloadFailed(e@),
        }
    }
}

/// A change that the file watcher reports, after its debounce window.
#[derive(Debug)]
pub enum WatchEvent {
    /// A write to the path was noticed.
    NoticeWrite(String),
    /// The path was written.
    Write(String),
    /// The path was created.
    Create(String),
    /// Anything else; it triggers nothing.
    Other,
}

/// A [`WatchEvent`] with its path as a sequence of characters.
pub enum WatchEventView {
    NoticeWrite(Seq<char>),
    Write(Seq<char>),
    Create(Seq<char>),
    Other,
}

impl View for WatchEvent {
    type V = WatchEventView;

    open spec fn view(&self) -> WatchEventView {
        match *self {
            WatchEvent::NoticeWrite(p) => WatchEventView::NoticeWrite(p@),
            WatchEvent::Write(p) => WatchEventView::Write(p@),
            WatchEvent::Create(p) => WatchEventView::Create(p@),
            WatchEvent::Other => WatchEventView::Other,
        }
    }
}

impl WatchEventView {
    /// The path whose change asks for a reload, if the event is of such a kind.
    pub open spec fn changed_path(self) -> Option<Seq<char>> {
        match self {
            WatchEventView::NoticeWrite(p) => Some(p),
            WatchEventView::Write(p) => Some(p),
            WatchEventView::Create(p) => Some(p),
            WatchEventView::Other => None,
        }
    }
}

impl WatchEvent {
    /// The path whose change asks for a reload, if the event is of such a kind.
    pub fn changed_path(&self) -> (res: Option<&String>)
        ensures
            res.is_some() == self@.changed_path().is_some(),
            res matches Some(p) ==> p@ == self@.changed_path().unwrap(),
    {
        match self {
            WatchEvent::NoticeWrite(p) => Some(p),
            WatchEvent::Write(p) => Some(p),
            WatchEvent::Create(p) => Some(p),
            WatchEvent::Other => None,
        }
    }
}

/// Whether a change of `reload_path` concerns a library that watches
/// `original_path`: both have a file name, and the two names are the same.
/// The directories are not compared.
pub open spec fn names_match(reload_path: Seq<char>, original_path: Option<Seq<char>>) -> bool {
    &&& original_path is Some
    &&& file_name_of(reload_path) is Some
    &&& file_name_of(reload_path) == file_name_of(original_path.unwrap())
}

/// Whether a change of `reload_path` asks for `lib` to be reloaded.
pub fn should_reload(reload_path: &str, lib: &Lib) -> (res: bool)
    ensures
        res == names_match(reload_path@, lib@.original_path),
{
    match &lib.original_path {
        Some(p) => {
            match (file_name(reload_path), file_name(p.as_str())) {
                (Some(a), Some(b)) => a == b,
                _ => false,
            }
        },
        None => false,
    }
}

/// What the engine asks its caller to do next.
#[derive(Debug)]
pub enum Request {
    /// Create a fresh directory under `root` whose name starts with `prefix`.
    /// Answer with [`Reply::StagingDir`].
    MakeStagingDir { root: String, prefix: String },
    /// Resolve `path` to its absolute form. Answer with [`Reply::Resolved`].
    Resolve { path: String },
    /// Start the file watcher, with this debounce window. Answer with
    /// [`Reply::Watcher`].
    StartWatcher { debounce: Duration },
    /// Say whether `path` is a regular file. Answer with [`Reply::Probed`].
    Probe { path: String },
    /// Give the path of the running executable. Answer with [`Reply::Exe`].
    ExePath,
    /// Give the time. Answer with [`Reply::Time`].
    Time,
    /// Give the size of the file at `path`. Answer with [`Reply::Size`].
    Size { path: String },
    /// Copy the file `from` to `to`. Answer with [`Reply::Copied`].
    Copy { from: String, to: String },
    /// Wait for `millis` milliseconds. Answer with [`Reply::Slept`].
    Sleep { millis: u64 },
    /// Load the library at `path`. Answer with [`Reply::Opened`].
    Open { path: String },
    /// Watch the directory `dir`, not those below it. Answer with
    /// [`Reply::Watching`].
    Watch { dir: String },
    /// Call the host back. Answer with [`Reply::Notified`].
    Notify { state: UpdateState, lib: Option<Arc<Lib>> },
    /// Construction is finished. No answer is awaited.
    Ready,
    /// Registration is finished, with this result. No answer is awaited.
    Registered(Result<Arc<Lib>, Error>),
    /// All events have been dispatched. No answer is awaited.
    Updated,
}

/// A [`Request`] with its texts as sequences of characters.
pub enum RequestView {
    MakeStagingDir { root: Seq<char>, prefix: Seq<char> },
    Resolve { path: Seq<char> },
    StartWatcher { debounce: Duration },
    Probe { path: Seq<char> },
    ExePath,
    Time,
    Size { path: Seq<char> },
    Copy { from: Seq<char>, to: Seq<char> },
    Sleep { millis: u64 },
    Open { path: Seq<char> },
    Watch { dir: Seq<char> },
    Notify { state: UpdateStateView, lib: Option<LibView> },
    Ready,
    Registered(Result<LibView, ErrorView>),
    Updated,
}

impl View for Request {
    type V = RequestView;

    open spec fn view(&self) -> RequestView {
        match *self {
            Request::MakeStagingDir { root, prefix } => RequestView::MakeStagingDir {
                root: root@,
                prefix: prefix@,
            },
            Request::Resolve { path } => RequestView::Resolve { path: path@ },
            Request::StartWatcher { debounce } => RequestView::StartWatcher { debounce },
            Request::Probe { path } => RequestView::Probe { path: path@ },
            Request::ExePath => RequestView::ExePath,
            Request::Time => RequestView::Time,
            Request::Size { path } => RequestView::Size { path: path@ },
            Request::Copy { from, to } => RequestView::Copy { from: from@, to: to@ },
            Request::Sleep { millis } => RequestView::Sleep { millis },
            Request::Open { path } => RequestView::Open { path: path@ },
            Request::Watch { dir } => RequestView::Watch { dir: dir@ },
            Request::Notify { state, lib } => RequestView::Notify {
                state: state@,
                lib: match lib {
                    Some(l) => Some(l@),
                    None => None,
                },
            },
            Request::Ready => RequestView::Ready,
            Request::Registered(r) => RequestView::Registered(
                match r {
                    Ok(l) => Ok(l@),
                    Err(e) => Err(e@),
                },
            ),
            Request::Updated => RequestView::Updated,
        }
    }
}

impl RequestView {
    /// Whether the request ends an operation, so that no answer is awaited.
    pub open spec fn is_final(self) -> bool {
        self is Ready || self is Registered || self is Updated
    }

    /// Whether `reply` is of the kind that answers the request.
    pub open spec fn answered_by(self, reply: ReplyView) -> bool {
        match self {
            RequestView::MakeStagingDir { .. } => reply is StagingDir,
            RequestView::Resolve { .. } => reply is Resolved,
            RequestView::StartWatcher { .. } => reply is Watcher,
            RequestView::Probe { .. } => reply is Probed,
            RequestView::ExePath => reply is Exe,
            RequestView::Time => reply is Time,
            RequestView::Size { .. } => reply is Size,
            RequestView::Copy { .. } => reply is Copied,
            RequestView::Sleep { .. } => reply is Slept,
            RequestView::Open { .. } => reply is Opened,
            RequestView::Watch { .. } => reply is Watching,
            RequestView::Notify { .. } => reply is Notified,
            RequestView::Ready => false,
            RequestView::Registered(_) => false,
            RequestView::Updated => false,
        }
    }
}

/// What the caller found when it carried out a [`Request`].
#[derive(Debug)]
pub enum Reply {
    /// The directory that was created, or `None` where none could be.
    StagingDir(Option<String>),
    /// The absolute form of the path, or `None` where it has none.
    Resolved(Option<String>),
    /// Whether the watcher runs.
    Watcher(bool),
    /// Whether the path is a regular file.
    Probed(bool),
    /// The path of the executable, or `None` where it is not known.
    Exe(Option<String>),
    /// The milliseconds since the start of 1970.
    Time(u128),
    /// The file's size in bytes, or `None` where it cannot be read.
    Size(Option<u64>),
    /// Whether the whole file was copied.
    Copied(bool),
    /// The wait is over.
    Slept,
    /// The handle of the loaded library, or the loader's account of why it
    /// was not loaded.
    Opened(Result<Library, String>),
    /// The directory is watched, or cannot be.
    Watching,
    /// The host has returned from the callback.
    Notified,
}

/// A [`Reply`] with its texts as sequences of characters.
pub enum ReplyView {
    StagingDir(Option<Seq<char>>),
    Resolved(Option<Seq<char>>),
    Watcher(bool),
    Probed(bool),
    Exe(Option<Seq<char>>),
    Time(u128),
    Size(Option<u64>),
    Copied(bool),
    Slept,
    Opened(Result<Library, Seq<char>>),
    Watching,
    Notified,
}

impl View for Reply {
    type V = ReplyView;

    open spec fn view(&self) -> ReplyView {
        match *self {
            Reply::StagingDir(d) => ReplyView::StagingDir(opt_text(d)),
            Reply::Resolved(p) => ReplyView::Resolved(opt_text(p)),
            Reply::Watcher(b) => ReplyView::Watcher(b),
            Reply::Probed(b) => ReplyView::Probed(b),
            Reply::Exe(p) => ReplyView::Exe(opt_text(p)),
            Reply::Time(t) => ReplyView::Time(t),
            Reply::Size(n) => ReplyView::Size(n),
            Reply::Copied(b) => ReplyView::Copied(b),
            Reply::Slept => ReplyView::Slept,
            Reply::Opened(r) => ReplyView::Opened(
                match r {
                    Ok(h) => Ok(h),
                    Err(why) => Err(why@),
                },
            ),
            Reply::Watching => ReplyView::Watching,
            Reply::Notified => ReplyView::Notified,
        }
    }
}

} // verus!
