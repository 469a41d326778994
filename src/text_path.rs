//! The path of the text file named on the command line, published once.
use once_cell::sync::OnceCell;
use vstd::prelude::*;

verus! {

/// once_cell's thread-safe write-once cell, held as an opaque value.
#[verifier::external_type_specification]
#[verifier::external_body]
#[verifier::reject_recursive_types(T)]
pub struct ExOnceCell<T>(OnceCell<T>);

/// What a cell holds: `None` while it is empty.
pub uninterp spec fn cell_contents(c: OnceCell<String>) -> Option<Seq<char>>;

/// Relies on `once_cell::sync::OnceCell::new`: a new cell is empty.
#[verifier::external_body]
fn empty_cell() -> (r: OnceCell<String>)
    ensures
        cell_contents(r) is None,
{
    OnceCell::new()
}

/// Relies on `once_cell::sync::OnceCell::set`: on an empty cell it stores the
/// value and returns `Ok(())`; on a full one it hands the value back in `Err`
/// and leaves the cell as it was.
#[verifier::external_body]
fn cell_set(c: &mut OnceCell<String>, v: String) -> (r: Result<(), String>)
    ensures
        cell_contents(*old(c)) is None ==> r is Ok && cell_contents(*final(c)) == Some(v@),
        cell_contents(*old(c)) is Some ==> (r matches Err(e) && e == v),
        cell_contents(*old(c)) is Some ==> cell_contents(*final(c)) == cell_contents(*old(c)),
{
    c.set(v)
}

/// Relies on `once_cell::sync::OnceCell::get`: the stored value, or `None`
/// while the cell is empty.
#[verifier::external_body]
fn cell_get(c: &OnceCell<String>) -> (r: Option<String>)
    ensures
        match cell_contents(*c) {
            None => r is None,
            Some(s) => r is Some && r->0@ == s,
        },
{
    c.get().cloned()
}

/// The value a command line gives the path: the named file, or the empty
/// string when none was named.
pub open spec fn path_or_sentinel(text_file: Option<Seq<char>>) -> Seq<char> {
    match text_file {
        Some(p) => p,
        None => Seq::empty(),
    }
}

/// Turns the optional file argument into the published form, where the empty
/// string stands for "no file".
pub fn text_path_or_sentinel(text_file: Option<String>) -> (r: String)
    ensures
        r@ == path_or_sentinel(opt_view(text_file)),
{
    match text_file {
        Some(p) => p,
        None => String::new(),
    }
}

/// An optional string as an optional sequence of characters.
pub open spec fn opt_view(s: Option<String>) -> Option<Seq<char>> {
    match s {
        Some(x) => Some(x@),
        None => None,
    }
}

/// Why a second publication was refused.
#[derive(Debug, Clone, Copy, PartialEq, Eq)]
pub enum PublishError {
    /// A path was published before; the earlier one stays.
    AlreadyPublished,
}

/// The process-wide path of the text file to open, set at most once.
pub struct CliTextPath {
    cell: OnceCell<String>,
}

impl View for CliTextPath {
    type V = Option<Seq<char>>;

    closed spec fn view(&self) -> Option<Seq<char>> {
        cell_contents(self.cell)
    }
}

impl CliTextPath {
    /// A path that nothing has been published to.
    pub fn new() -> (r: CliTextPath)
        ensures
            r@ is None,
    {
        CliTextPath { cell: empty_cell() }
    }

    /// Publishes the path of the file named on the command line, or the empty
    /// string when none was named. Only the first publication takes effect.
    pub fn publish(&mut self, text_file: Option<String>) -> (r: Result<(), PublishError>)
        ensures
            old(self)@ is None ==> r is Ok && final(self)@ == Some(
                path_or_sentinel(opt_view(text_file)),
            ),
            old(self)@ is Some ==> r matches Err(PublishError::AlreadyPublished),
            old(self)@ is Some ==> final(self)@ == old(self)@,
    {
        let p = text_path_or_sentinel(text_file);
        match cell_set(&mut self.cell, p) {
            Ok(()) => Ok(()),
            Err(_) => Err(PublishError::AlreadyPublished),
        }
    }

    /// The published path, or `None` before publication.
    pub fn get(&self) -> (r: Option<String>)
        ensures
            opt_view(r) == self@,
    {
        cell_get(&self.cell)
    }
}

} // verus!
