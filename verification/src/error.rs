//! What can go wrong when a library is registered or reloaded.
use vstd::prelude::*;
use vstd::string::StringExecFns;

verus! {

/// Why a library could not be registered or reloaded.
#[derive(Debug)]
pub enum Error {
    /// No search location holds a file of this name.
    Find(String),
    /// The loader rejected the file; the text is the loader's own account.
    Load(String),
    /// No complete copy of the first path could be made at the second.
    CopyTimeOut(String, String),
}

/// An [`Error`] with its texts as sequences of characters.
pub enum ErrorView {
    Find(Seq<char>),
    Load(Seq<char>),
    CopyTimeOut(Seq<char>, Seq<char>),
}

impl View for Error {
    type V = ErrorView;

    open spec fn view(&self) -> ErrorView {
        match *self {
            Error::Find(name) => ErrorView::Find(name@),
            Error::Load(why) => ErrorView::Load(why@),
            Error::CopyTimeOut(src, dest) => ErrorView::CopyTimeOut(src@, dest@),
        }
    }
}

impl ErrorView {
    /// The error in words.
    pub open spec fn message(self) -> Seq<char> {
        match self {
            ErrorView::Find(name) => "Unable to find "@ + name,
            ErrorView::Load(why) => "Unable to load library: "@ + why,
            ErrorView::CopyTimeOut(src, dest) => "Unable to copy "@ + src + " to "@ + dest,
        }
    }
}

impl Error {
    /// The error in words.
    pub fn message(&self) -> (res: String)
        ensures
            res@ == self@.message(),
    {
        match self {
            Error::Find(name) => String::from_str("Unable to find ").concat(name.as_str()),
            Error::Load(why) => String::from_str("Unable to load library: ").concat(why.as_str()),
            Error::CopyTimeOut(src, dest) => {
                let mut res = String::from_str("Unable to copy ");
                res.append(src.as_str());
                res.append(" to ");
                res.append(dest.as_str());
                res
            },
        }
    }
}

} // verus!
