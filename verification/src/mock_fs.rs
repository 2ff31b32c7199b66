//! A storage held in memory: one root directory, the names of the files in
//! it, and a record of what was opened, and with which editor. It answers at once and always the
//! same, which is what tests of the commands need.

use vstd::prelude::*;

use crate::error::{StorageError, StorageErrorView};
use crate::file_operations::{entry_name, visible_entries, FileOperations, FsState};
use crate::path::NbPath;

verus! {

/// The name of the file that `file_path` stands for, if it lies directly in
/// the directory `root_dir_path`.
pub fn extract_file_name(root_dir_path: &NbPath, file_path: &NbPath) -> (r: Result<
    String,
    StorageError,
>)
    ensures
        match r {
            Ok(name) => entry_name(root_dir_path@, file_path@) == Ok::<Seq<char>, StorageErrorView>(
                name@,
            ),
            Err(e) => entry_name(root_dir_path@, file_path@) == Err::<Seq<char>, StorageErrorView>(
                e@,
            ),
        },
{
    if !file_path.starts_with(root_dir_path) {
        return Err(StorageError::OutsideRoot);
    }
    if file_path.len() - root_dir_path.len() != 1 {
        return Err(StorageError::NotDirectChild);
    }
    match file_path.file_name() {
        Some(name) => Ok(name),
        None => Err(StorageError::NotDirectChild),
    }
}

/// Where `name` first occurs among `names`.
pub fn position(names: &Vec<String>, name: &String) -> (r: Option<usize>)
    ensures
        r is Some <==> names.deep_view().contains(name@),
        r matches Some(i) ==> i < names.len() && names.deep_view().index_of_first(name@) == Some(
            i as int,
        ),
{
    let mut i: usize = 0;
    while i < names.len()
        invariant
            i <= names.len(),
            forall|j: int| 0 <= j < i ==> names.deep_view()[j] != name@,
        decreases names.len() - i,
    {
        if names[i] == *name {
            proof {
                names.deep_view().index_of_first_ensures(name@);
                assert(names.deep_view()[i as int] == name@);
            }
            return Some(i);
        }
        i += 1;
    }
    None
}

/// The paths in `paths`, as contracts see them.
pub open spec fn paths_view(paths: Seq<NbPath>) -> Seq<Seq<Seq<char>>> {
    Seq::new(paths.len(), |i: int| paths[i]@)
}

/// The storage in memory.
#[derive(Debug)]
pub struct MockFileSystem {
    opened_files: Vec<NbPath>,
    editor_commands: Vec<String>,
    notebook_root_dir: NbPath,
    files: Vec<String>,
}

impl MockFileSystem {
    /// A storage whose root directory is there and holds files of the given
    /// names. Nothing was opened yet, and every editor can be run.
    pub fn new(notebook_root_dir: NbPath, notebooks: Vec<String>) -> (r: Self)
        ensures
            r.state() == (FsState {
                root: notebook_root_dir@,
                root_exists: true,
                files: notebooks.deep_view(),
                opened: Seq::empty(),
                launched: Seq::empty(),
                editors: Set::full(),
            }),
    {
        let r = Self {
            opened_files: Vec::new(),
            editor_commands: Vec::new(),
            notebook_root_dir,
            files: notebooks,
        };
        assert(paths_view(r.opened_files@) =~= Seq::empty());
        assert(r.editor_commands.deep_view() =~= Seq::empty());
        r
    }

    /// The paths that were opened, oldest first.
    pub fn opened_files(&self) -> (r: &Vec<NbPath>)
        ensures
            paths_view(r@) == self.state().opened,
    {
        &self.opened_files
    }

    /// The editor commands that the paths were opened with, in the same
    /// order.
    pub fn editor_commands(&self) -> (r: &Vec<String>)
        ensures
            r.deep_view() == self.state().launched,
    {
        &self.editor_commands
    }

    /// Whether `path` is one of the files.
    pub fn is_file(&self, path: &NbPath) -> (r: bool)
        ensures
            r == self.state().is_file(path@),
    {
        match extract_file_name(&self.notebook_root_dir, path) {
            Ok(file_name) => position(&self.files, &file_name).is_some(),
            Err(_) => false,
        }
    }

    /// Whether `path` is the root directory.
    pub fn is_dir(&self, path: &NbPath) -> (r: bool)
        ensures
            r == self.state().is_dir(path@),
    {
        path.equals(&self.notebook_root_dir)
    }
}

impl FileOperations for MockFileSystem {
    closed spec fn state(&self) -> FsState {
        FsState {
            root: self.notebook_root_dir@,
            root_exists: true,
            files: self.files.deep_view(),
            opened: paths_view(self.opened_files@),
            launched: self.editor_commands.deep_view(),
            editors: Set::full(),
        }
    }

    open spec fn conforms(&self) -> bool {
        true
    }

    open spec fn reliable(&self) -> bool {
        true
    }

    fn get_files(&self, dir: &NbPath) -> (r: Result<Vec<String>, StorageError>) {
        if dir.equals(&self.notebook_root_dir) {
            return Ok(visible_entries(&self.files));
        }
        Err(StorageError::DirectoryNotFound)
    }

    fn delete_file(&mut self, path: &NbPath) -> (r: Result<(), StorageError>) {
        let file_name = extract_file_name(&self.notebook_root_dir, path)?;
        match position(&self.files, &file_name) {
            Some(file_index) => {
                let ghost before = self.files.deep_view();
                let _ = self.files.remove(file_index);
                assert(self.files.deep_view() =~= before.remove(file_index as int));
                Ok(())
            },
            None => Err(StorageError::NotFound),
        }
    }

    fn create_file(&mut self, path: &NbPath) -> (r: Result<(), StorageError>) {
        let file_name = extract_file_name(&self.notebook_root_dir, path)?;
        if position(&self.files, &file_name).is_some() {
            return Err(StorageError::AlreadyExists);
        }
        let ghost before = self.files.deep_view();
        let ghost name = file_name@;
        self.files.push(file_name);
        assert(self.files.deep_view() =~= before.push(name));
        Ok(())
    }

    fn create_dir(&mut self, path: &NbPath) -> (r: Result<(), StorageError>) {
        if path.equals(&self.notebook_root_dir) {
            return Ok(());
        }
        Err(StorageError::Unsupported)
    }

    fn open_file(&mut self, editor_command: &str, path: &NbPath) -> (r: Result<(), StorageError>) {
        if !self.is_file(path) {
            return Err(StorageError::NotAFile);
        }
        let ghost paths = paths_view(self.opened_files@);
        let ghost commands = self.editor_commands.deep_view();
        self.opened_files.push(path.clone());
        self.editor_commands.push(editor_command.to_owned());
        assert(paths_view(self.opened_files@) =~= paths.push(path@));
        assert(self.editor_commands.deep_view() =~= commands.push(editor_command@));
        Ok(())
    }

    fn path_exists(&self, path: &NbPath) -> (r: Result<bool, StorageError>) {
        if self.is_dir(path) {
            return Ok(true);
        }
        Ok(self.is_file(path))
    }

    fn probe_editor(&self, _editor_command: &str) -> (r: bool) {
        true
    }
}

} // verus!
