//! The storage capability: the few operations the commands need of a
//! storage, and the state that the contracts ascribe to one.

use vstd::prelude::*;

use crate::error::{StorageError, StorageErrorView};
use crate::path::NbPath;

verus! {

/// A hidden name begins with a dot.
pub open spec fn is_hidden(name: Seq<char>) -> bool {
    name.len() > 0 && name[0] == '.'
}

/// The names that a listing shows: all but the hidden ones, in their order.
pub open spec fn visible(names: Seq<Seq<char>>) -> Seq<Seq<char>> {
    names.filter(|name: Seq<char>| !is_hidden(name))
}

/// The name of the file that `path` stands for when it lies directly in
/// `root`, or why it does not.
pub open spec fn entry_name(root: Seq<Seq<char>>, path: Seq<Seq<char>>) -> Result<
    Seq<char>,
    StorageErrorView,
> {
    if !root.is_prefix_of(path) {
        Err(StorageErrorView::OutsideRoot)
    } else if path.len() != root.len() + 1 {
        Err(StorageErrorView::NotDirectChild)
    } else {
        Ok(path.last())
    }
}

/// A name added to the root's path gives a path directly in the root, and
/// that name back.
pub proof fn lemma_entry_name_of_child(root: Seq<Seq<char>>, name: Seq<char>)
    ensures
        entry_name(root, root.push(name)) == Ok::<Seq<char>, StorageErrorView>(name),
        root.push(name) != root,
{
    assert(root.push(name).subrange(0, root.len() as int) =~= root);
    assert(root.push(name).len() != root.len());
}

/// A storage as the contracts see it: one flat root directory, the files in
/// it, and what was done with an editor.
pub struct FsState {
    /// The path of the root directory.
    pub root: Seq<Seq<char>>,
    /// Whether the root directory is there.
    pub root_exists: bool,
    /// The names of the files in the root directory, in listing order.
    pub files: Seq<Seq<char>>,
    /// The paths that were opened in an editor, oldest first.
    pub opened: Seq<Seq<Seq<char>>>,
    /// The editor commands that they were opened with, in the same order.
    pub launched: Seq<Seq<char>>,
    /// The editor commands that can be run.
    pub editors: Set<Seq<char>>,
}

impl FsState {
    /// No name occurs twice, and a root that is not there holds nothing.
    pub open spec fn wf(self) -> bool {
        &&& self.files.no_duplicates()
        &&& !self.root_exists ==> self.files.len() == 0
    }

    /// The path of the file `name` in the root directory.
    pub open spec fn entry_path(self, name: Seq<char>) -> Seq<Seq<char>> {
        self.root.push(name)
    }

    /// Whether the root directory holds a file `name`.
    pub open spec fn has_file(self, name: Seq<char>) -> bool {
        self.root_exists && self.files.contains(name)
    }

    /// Whether `path` is a file in the root directory.
    pub open spec fn is_file(self, path: Seq<Seq<char>>) -> bool {
        match entry_name(self.root, path) {
            Ok(name) => self.has_file(name),
            Err(_) => false,
        }
    }

    /// Whether `path` is the root directory, and that is there.
    pub open spec fn is_dir(self, path: Seq<Seq<char>>) -> bool {
        path == self.root && self.root_exists
    }

    /// Whether something is there at `path`.
    pub open spec fn path_exists(self, path: Seq<Seq<char>>) -> bool {
        self.is_dir(path) || self.is_file(path)
    }

    /// What a listing of `dir` gives.
    pub open spec fn list(self, dir: Seq<Seq<char>>) -> Result<Seq<Seq<char>>, StorageErrorView> {
        if self.is_dir(dir) {
            Ok(visible(self.files))
        } else {
            Err(StorageErrorView::DirectoryNotFound)
        }
    }

    /// What creating an empty file at `path` gives, and the storage after it.
    pub open spec fn create_file(self, path: Seq<Seq<char>>) -> (FsState, Result<
        (),
        StorageErrorView,
    >) {
        match entry_name(self.root, path) {
            Err(e) => (self, Err(e)),
            Ok(name) => if !self.root_exists {
                (self, Err(StorageErrorView::DirectoryNotFound))
            } else if self.files.contains(name) {
                (self, Err(StorageErrorView::AlreadyExists))
            } else {
                (FsState { files: self.files.push(name), ..self }, Ok(()))
            },
        }
    }

    /// What creating the directory `path` gives, and the storage after it.
    pub open spec fn create_dir(self, path: Seq<Seq<char>>) -> (FsState, Result<
        (),
        StorageErrorView,
    >) {
        if path == self.root {
            (FsState { root_exists: true, ..self }, Ok(()))
        } else {
            (self, Err(StorageErrorView::Unsupported))
        }
    }

    /// What deleting the file at `path` gives, and the storage after it.
    pub open spec fn delete_file(self, path: Seq<Seq<char>>) -> (FsState, Result<
        (),
        StorageErrorView,
    >) {
        match entry_name(self.root, path) {
            Err(e) => (self, Err(e)),
            Ok(name) => if self.has_file(name) {
                (FsState { files: self.files.remove_value(name), ..self }, Ok(()))
            } else {
                (self, Err(StorageErrorView::NotFound))
            },
        }
    }

    /// What opening the file at `path` with the editor `editor` gives, and
    /// the storage after it.
    pub open spec fn open_file(self, editor: Seq<char>, path: Seq<Seq<char>>) -> (FsState, Result<
        (),
        StorageErrorView,
    >) {
        if self.is_file(path) {
            (
                FsState {
                    opened: self.opened.push(path),
                    launched: self.launched.push(editor),
                    ..self
                },
                Ok(()),
            )
        } else {
            (self, Err(StorageErrorView::NotAFile))
        }
    }
}

/// The outcome of an operation without a value, as contracts see it.
pub open spec fn done_view(r: Result<(), StorageError>) -> Result<(), StorageErrorView> {
    match r {
        Ok(()) => Ok(()),
        Err(e) => Err(e@),
    }
}

/// The outcome of a listing, as contracts see it.
pub open spec fn names_view(r: Result<Vec<String>, StorageError>) -> Result<
    Seq<Seq<char>>,
    StorageErrorView,
> {
    match r {
        Ok(names) => Ok(names.deep_view()),
        Err(e) => Err(e@),
    }
}

/// Whether `name` is hidden.
pub fn name_is_hidden(name: &str) -> (r: bool)
    ensures
        r == is_hidden(name@),
{
    !name.is_empty() && name.get_char(0) == '.'
}

/// The names among `names` that a listing shows.
pub fn visible_entries(names: &Vec<String>) -> (r: Vec<String>)
    ensures
        r.deep_view() == visible(names.deep_view()),
{
    let ghost shown = |name: Seq<char>| !is_hidden(name);
    let mut kept: Vec<String> = Vec::new();
    let mut i: usize = 0;
    assert(names.deep_view().take(0).filter(shown) =~= Seq::empty()) by {
        reveal(Seq::filter);
    }
    while i < names.len()
        invariant
            i <= names.len(),
            shown == |name: Seq<char>| !is_hidden(name),
            kept.deep_view() == names.deep_view().take(i as int).filter(shown),
        decreases names.len() - i,
    {
        proof {
            let done = names.deep_view().take(i as int);
            assert(names.deep_view().take(i + 1) =~= done.push(names[i as int]@));
            done.lemma_filter_push(names[i as int]@, shown);
        }
        if !name_is_hidden(names[i].as_str()) {
            let ghost before = kept.deep_view();
            kept.push(names[i].clone());
            assert(kept.deep_view() =~= before.push(names[i as int]@));
        }
        i += 1;
    }
    assert(names.deep_view().take(i as int) =~= names.deep_view());
    kept
}

/// The outcome of a look at a path, as contracts see it.
pub open spec fn found_view(r: Result<bool, StorageError>) -> Result<bool, StorageErrorView> {
    match r {
        Ok(found) => Ok(found),
        Err(e) => Err(e@),
    }
}

/// Whether `r` is a failure of the platform: one that [`FsState`] does not
/// account for.
pub open spec fn is_fault<T>(r: Result<T, StorageErrorView>) -> bool {
    r is Err && r->Err_0 is Io
}

/// Whether an operation kept to what [`FsState`] says of it. Either it
/// answered `r` and left `after` as `model` has them; or it reported a
/// failure of the platform and changed nothing, which a reliable storage
/// never does.
pub open spec fn keeps_to<T>(
    reliable: bool,
    before: FsState,
    model: (FsState, Result<T, StorageErrorView>),
    after: FsState,
    r: Result<T, StorageErrorView>,
) -> bool {
    (after, r) == model || (!reliable && after == before && is_fault(r))
}

/// The storage capability.
///
/// The contracts speak of a storage through [`FileOperations::state`], and
/// bind only a storage that [`FileOperations::conforms`]. A storage that
/// proves nothing of itself, such as a real disk that other programs write
/// to as well, leaves the three as they are declared here, and the contracts
/// below then promise nothing of it.
pub trait FileOperations {
    /// The storage as the contracts see it.
    open spec fn state(&self) -> FsState {
        arbitrary()
    }

    /// Whether every operation answers, and changes the storage, as
    /// [`FsState`] says, or else reports a failure of the platform and
    /// changes nothing.
    open spec fn conforms(&self) -> bool {
        false
    }

    /// Whether the storage never reports a failure of the platform.
    open spec fn reliable(&self) -> bool {
        false
    }

    /// The names of the files in the directory `dir` that are not hidden.
    fn get_files(&self, dir: &NbPath) -> (r: Result<Vec<String>, StorageError>)
        ensures
            self.conforms() ==> keeps_to(
                self.reliable(),
                self.state(),
                (self.state(), self.state().list(dir@)),
                self.state(),
                names_view(r),
            ),
    ;

    /// Deletes the file at `path`.
    fn delete_file(&mut self, path: &NbPath) -> (r: Result<(), StorageError>)
        ensures
            old(self).conforms() ==> final(self).conforms() && final(self).reliable() == old(
                self,
            ).reliable() && keeps_to(
                old(self).reliable(),
                old(self).state(),
                old(self).state().delete_file(path@),
                final(self).state(),
                done_view(r),
            ),
    ;

    /// Creates an empty file at `path`, where nothing is yet.
    fn create_file(&mut self, path: &NbPath) -> (r: Result<(), StorageError>)
        ensures
            old(self).conforms() ==> final(self).conforms() && final(self).reliable() == old(
                self,
            ).reliable() && keeps_to(
                old(self).reliable(),
                old(self).state(),
                old(self).state().create_file(path@),
                final(self).state(),
                done_view(r),
            ),
    ;

    /// Creates the directory `path` with the ancestors it lacks; nothing
    /// happens where it is there already.
    fn create_dir(&mut self, path: &NbPath) -> (r: Result<(), StorageError>)
        ensures
            old(self).conforms() ==> final(self).conforms() && final(self).reliable() == old(
                self,
            ).reliable() && keeps_to(
                old(self).reliable(),
                old(self).state(),
                old(self).state().create_dir(path@),
                final(self).state(),
                done_view(r),
            ),
    ;

    /// Runs `editor_command` on the file at `path` and waits until it ends.
    /// How the editor ends is not a failure of this operation.
    fn open_file(&mut self, editor_command: &str, path: &NbPath) -> (r: Result<(), StorageError>)
        ensures
            old(self).conforms() ==> final(self).conforms() && final(self).reliable() == old(
                self,
            ).reliable() && keeps_to(
                old(self).reliable(),
                old(self).state(),
                old(self).state().open_file(editor_command@, path@),
                final(self).state(),
                done_view(r),
            ),
    ;

    /// Whether something is there at `path`.
    fn path_exists(&self, path: &NbPath) -> (r: Result<bool, StorageError>)
        ensures
            self.conforms() ==> keeps_to(
                self.reliable(),
                self.state(),
                (self.state(), Ok::<bool, StorageErrorView>(self.state().path_exists(path@))),
                self.state(),
                found_view(r),
            ),
    ;

    /// Whether `editor_command` can be run.
    fn probe_editor(&self, editor_command: &str) -> (r: bool)
        ensures
            self.conforms() ==> r == self.state().editors.contains(editor_command@),
    ;
}

} // verus!
