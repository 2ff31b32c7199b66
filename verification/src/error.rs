//! What can go wrong, as closed sets of cases. The text of a case is made
//! only where it is asked for.

use vstd::prelude::*;
use vstd::string::StringExecFns;

verus! {

/// A notebook could not be created.
#[derive(Debug, Clone, Copy, PartialEq, Eq)]
pub enum CreationError {
    /// There is a notebook of that name already.
    TodoListAlreadyExists,
}

impl CreationError {
    /// The line shown to the user.
    pub fn to_string(&self) -> (r: String)
        ensures
            r@ == "The Todo List already exists.\n"@,
    {
        "The Todo List already exists.\n".to_owned()
    }
}

/// A notebook could not be opened or removed.
#[derive(Debug, Clone, Copy, PartialEq, Eq)]
pub enum OpenError {
    /// There is no notebook of that name.
    TodoListNotFound,
}

impl OpenError {
    /// The line shown to the user.
    pub fn to_string(&self) -> (r: String)
        ensures
            r@ == "The Todo List does not exists.\n"@,
    {
        "The Todo List does not exists.\n".to_owned()
    }
}

/// A storage operation failed.
#[derive(Debug, PartialEq, Eq)]
pub enum StorageError {
    /// A file was to be created where something exists already.
    AlreadyExists,
    /// A file was to be deleted where there is none.
    NotFound,
    /// Something other than a regular file was to be opened.
    NotAFile,
    /// A directory was to be listed, or filled, that does not exist.
    DirectoryNotFound,
    /// The path does not lie under the root directory.
    OutsideRoot,
    /// The path lies under the root directory, but not directly in it.
    NotDirectChild,
    /// The storage cannot create that directory.
    Unsupported,
    /// Any other failure, with the words of the platform.
    Io(String),
}

/// A [`StorageError`] as contracts see it.
pub enum StorageErrorView {
    AlreadyExists,
    NotFound,
    NotAFile,
    DirectoryNotFound,
    OutsideRoot,
    NotDirectChild,
    Unsupported,
    Io(Seq<char>),
}

impl View for StorageError {
    type V = StorageErrorView;

    open spec fn view(&self) -> StorageErrorView {
        match self {
            StorageError::AlreadyExists => StorageErrorView::AlreadyExists,
            StorageError::NotFound => StorageErrorView::NotFound,
            StorageError::NotAFile => StorageErrorView::NotAFile,
            StorageError::DirectoryNotFound => StorageErrorView::DirectoryNotFound,
            StorageError::OutsideRoot => StorageErrorView::OutsideRoot,
            StorageError::NotDirectChild => StorageErrorView::NotDirectChild,
            StorageError::Unsupported => StorageErrorView::Unsupported,
            StorageError::Io(words) => StorageErrorView::Io(words@),
        }
    }
}

impl StorageErrorView {
    /// The text of the failure.
    pub open spec fn text(self) -> Seq<char> {
        match self {
            StorageErrorView::AlreadyExists => "File already exists"@,
            StorageErrorView::NotFound => "File does not exist"@,
            StorageErrorView::NotAFile => "Can't open because its not a file"@,
            StorageErrorView::DirectoryNotFound => "Directory does not exist"@,
            StorageErrorView::OutsideRoot => "File not in nb root directory"@,
            StorageErrorView::NotDirectChild => "Path does not point to file in nb root directory"@,
            StorageErrorView::Unsupported => "can't create directories in mock fs"@,
            StorageErrorView::Io(words) => words,
        }
    }
}

impl Clone for StorageError {
    fn clone(&self) -> (r: Self)
        ensures
            r@ == self@,
    {
        match self {
            StorageError::AlreadyExists => StorageError::AlreadyExists,
            StorageError::NotFound => StorageError::NotFound,
            StorageError::NotAFile => StorageError::NotAFile,
            StorageError::DirectoryNotFound => StorageError::DirectoryNotFound,
            StorageError::OutsideRoot => StorageError::OutsideRoot,
            StorageError::NotDirectChild => StorageError::NotDirectChild,
            StorageError::Unsupported => StorageError::Unsupported,
            StorageError::Io(words) => StorageError::Io(words.clone()),
        }
    }
}

impl StorageError {
    /// The text of the failure, without a line end.
    pub fn to_string(&self) -> (r: String)
        ensures
            r@ == self@.text(),
    {
        match self {
            StorageError::AlreadyExists => "File already exists".to_owned(),
            StorageError::NotFound => "File does not exist".to_owned(),
            StorageError::NotAFile => "Can't open because its not a file".to_owned(),
            StorageError::DirectoryNotFound => "Directory does not exist".to_owned(),
            StorageError::OutsideRoot => "File not in nb root directory".to_owned(),
            StorageError::NotDirectChild => "Path does not point to file in nb root directory".to_owned(),
            StorageError::Unsupported => "can't create directories in mock fs".to_owned(),
            StorageError::Io(words) => words.clone(),
        }
    }
}

/// A command failed.
#[derive(Debug, PartialEq, Eq)]
pub enum AppError {
    /// A notebook could not be created.
    Creation(CreationError),
    /// A notebook could not be opened or removed.
    Open(OpenError),
    /// The configured editor, named here, cannot be run.
    EditorNotInstalled(String),
    /// The command is none of those that the dispatcher knows. This is a
    /// defect of the caller, not a mistake of the user.
    CommandNotHandled,
    /// The storage failed; the failure is passed on as it came.
    Storage(StorageError),
}

/// An [`AppError`] as contracts see it.
pub enum AppErrorView {
    Creation(CreationError),
    Open(OpenError),
    EditorNotInstalled(Seq<char>),
    CommandNotHandled,
    Storage(StorageErrorView),
}

impl View for AppError {
    type V = AppErrorView;

    open spec fn view(&self) -> AppErrorView {
        match self {
            AppError::Creation(e) => AppErrorView::Creation(*e),
            AppError::Open(e) => AppErrorView::Open(*e),
            AppError::EditorNotInstalled(editor) => AppErrorView::EditorNotInstalled(editor@),
            AppError::CommandNotHandled => AppErrorView::CommandNotHandled,
            AppError::Storage(e) => AppErrorView::Storage(e@),
        }
    }
}

impl AppErrorView {
    /// The line shown to the user.
    pub open spec fn text(self) -> Seq<char> {
        match self {
            AppErrorView::Creation(_) => "The Todo List already exists.\n"@,
            AppErrorView::Open(_) => "The Todo List does not exists.\n"@,
            AppErrorView::EditorNotInstalled(editor) => "The editor "@ + editor
                + " is not installed.\n"@,
            AppErrorView::CommandNotHandled => "Command not handled.\n"@,
            AppErrorView::Storage(e) => e.text() + "\n"@,
        }
    }
}

impl Clone for AppError {
    fn clone(&self) -> (r: Self)
        ensures
            r@ == self@,
    {
        match self {
            AppError::Creation(e) => AppError::Creation(*e),
            AppError::Open(e) => AppError::Open(*e),
            AppError::EditorNotInstalled(editor) => AppError::EditorNotInstalled(editor.clone()),
            AppError::CommandNotHandled => AppError::CommandNotHandled,
            AppError::Storage(e) => AppError::Storage(e.clone()),
        }
    }
}

impl AppError {
    /// The line shown to the user, with its line end.
    pub fn to_string(&self) -> (r: String)
        ensures
            r@ == self@.text(),
    {
        match self {
            AppError::Creation(e) => e.to_string(),
            AppError::Open(e) => e.to_string(),
            AppError::EditorNotInstalled(editor) => {
                let mut line = "The editor ".to_owned();
                line.append(editor.as_str());
                line.append(" is not installed.\n");
                line
            },
            AppError::CommandNotHandled => "Command not handled.\n".to_owned(),
            AppError::Storage(e) => {
                let mut line = e.to_string();
                line.append("\n");
                line
            },
        }
    }
}

} // verus!
