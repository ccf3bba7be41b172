//! Where the locked application description is written, and how the
//! execution engine is told to find it.
//!
//! Fetching the bundle and writing the file are the driver's work. The
//! library decides the file's place under the working directory and turns
//! that place into the `file` URL that the engine is built from.

use vstd::prelude::*;
use vstd::string::*;

verus! {

/// Why the bundle could not be made ready for the engine.
#[derive(Debug, PartialEq, Eq)]
pub enum ResolveError {
    /// No working directory could be made.
    WorkingDir(String),
    /// The registry could not be reached, or the bundle is malformed.
    Fetch(String),
    /// The locked application description could not be written.
    Write(String),
    /// The place of the locked application description has no `file` URL.
    FileUrl(String),
}

/// Mathematical model of a [`ResolveError`].
pub enum ResolveErrorView {
    WorkingDir(Seq<char>),
    Fetch(Seq<char>),
    Write(Seq<char>),
    FileUrl(Seq<char>),
}

impl View for ResolveError {
    type V = ResolveErrorView;

    open spec fn view(&self) -> ResolveErrorView {
        match self {
            ResolveError::WorkingDir(m) => ResolveErrorView::WorkingDir(m@),
            ResolveError::Fetch(m) => ResolveErrorView::Fetch(m@),
            ResolveError::Write(m) => ResolveErrorView::Write(m@),
            ResolveError::FileUrl(p) => ResolveErrorView::FileUrl(p@),
        }
    }
}

impl Clone for ResolveError {
    fn clone(&self) -> (res: Self)
        ensures
            res@ == self@,
    {
        match self {
            ResolveError::WorkingDir(m) => ResolveError::WorkingDir(m.clone()),
            ResolveError::Fetch(m) => ResolveError::Fetch(m.clone()),
            ResolveError::Write(m) => ResolveError::Write(m.clone()),
            ResolveError::FileUrl(p) => ResolveError::FileUrl(p.clone()),
        }
    }
}

/// The name of the file that holds the locked application description.
pub open spec fn spec_lock_file_name() -> Seq<char> {
    "spin.lock"@
}

/// The place of the lock file under `working_dir`: the directory, a
/// separator unless the directory is empty or already ends in one, and
/// the file's name.
pub open spec fn spec_locked_app_path(working_dir: Seq<char>) -> Seq<char> {
    if working_dir.len() == 0 || working_dir.last() == '/' {
        working_dir + spec_lock_file_name()
    } else {
        working_dir + seq!['/'] + spec_lock_file_name()
    }
}

/// The place of the locked application description under `working_dir`.
pub fn locked_app_path(working_dir: &str) -> (path: String)
    ensures
        path@ == spec_locked_app_path(working_dir@),
{
    let len = working_dir.unicode_len();
    let mut path = String::from_str(working_dir);
    if len > 0 && working_dir.get_char(len - 1) != '/' {
        proof {
            reveal_strlit("/");
        }
        path.append("/");
    }
    path.append("spin.lock");
    path
}

/// The `file` URL that the `url` crate gives for a path, where it gives
/// one. The URL is computed from the text of the path alone, without a
/// look at the file system; how it is computed is the crate's business
/// and not restated here.
pub uninterp spec fn spec_file_url(path: Seq<char>) -> Option<Seq<char>>;

/// Calls `url::Url::from_file_path` and hands back the URL's text.
///
/// The contract names the result and claims nothing else of it: the same
/// path gives the same URL, or none, every time.
#[verifier::external_body]
fn file_url(path: &str) -> (url: Option<String>)
    ensures
        match url {
            Some(u) => spec_file_url(path@) == Some(u@),
            None => spec_file_url(path@) is None,
        },
{
    match url::Url::from_file_path(path) {
        Ok(u) => Some(String::from(u)),
        Err(()) => None,
    }
}

/// The URL handed to the engine, given what the URL conversion said of
/// `path`: the URL itself, or the complaint that `path` has none.
pub open spec fn spec_locked_url_from(path: Seq<char>, url: Option<Seq<char>>) -> Result<
    Seq<char>,
    ResolveErrorView,
> {
    match url {
        Some(u) => Ok(u),
        None => Err(ResolveErrorView::FileUrl(path)),
    }
}

/// The model of a URL or the reason why there is none.
pub open spec fn locked_url_view(res: Result<String, ResolveError>) -> Result<
    Seq<char>,
    ResolveErrorView,
> {
    match res {
        Ok(u) => Ok(u@),
        Err(e) => Err(e@),
    }
}

/// Decides what becomes of a URL conversion: a path without a URL is a
/// resolve failure that names the path.
pub fn locked_url_from(path: String, url: Option<String>) -> (res: Result<String, ResolveError>)
    ensures
        locked_url_view(res) == spec_locked_url_from(
            path@,
            match url {
                Some(u) => Some(u@),
                None => None,
            },
        ),
{
    match url {
        Some(u) => Ok(u),
        None => Err(ResolveError::FileUrl(path)),
    }
}

/// The URL of the locked application description under `working_dir`, as
/// the engine is to be given it.
pub fn locked_app_url(working_dir: &str) -> (res: Result<String, ResolveError>)
    ensures
        locked_url_view(res) == spec_locked_url_from(
            spec_locked_app_path(working_dir@),
            spec_file_url(spec_locked_app_path(working_dir@)),
        ),
{
    let path = locked_app_path(working_dir);
    let url = file_url(path.as_str());
    locked_url_from(path, url)
}

} // verus!
