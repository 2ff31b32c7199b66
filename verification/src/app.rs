//! The commands: what each does to a storage and what it answers.

use vstd::prelude::*;

use crate::config::{Config, ConfigView};
use crate::error::{
    AppError, AppErrorView, CreationError, OpenError, StorageError, StorageErrorView,
};
use crate::file_operations::{lemma_entry_name_of_child, visible, FileOperations, FsState};
use crate::message::{Message, MessageView};
use crate::path::NbPath;

verus! {

/// The outcome of a command, as contracts see it.
pub open spec fn outcome_view(r: Result<Message, AppError>) -> Result<MessageView, AppErrorView> {
    match r {
        Ok(m) => Ok(m@),
        Err(e) => Err(e@),
    }
}

/// The outcome of a step that answers nothing, as contracts see it.
pub open spec fn step_view(r: Result<(), AppError>) -> Result<(), AppErrorView> {
    match r {
        Ok(()) => Ok(()),
        Err(e) => Err(e@),
    }
}

/// The storage once the root directory and the default notebook are seen to:
/// the root is there, and the default notebook is added unless it was there.
pub open spec fn checked(c: ConfigView, s: FsState) -> FsState {
    FsState {
        root_exists: true,
        files: if s.files.contains(c.default_notebook) {
            s.files
        } else {
            s.files.push(c.default_notebook)
        },
        ..s
    }
}

/// What the check before every command gives on the storage `s`, and the
/// storage after it: without the editor nothing is touched.
pub open spec fn check_state_spec(c: ConfigView, s: FsState) -> (FsState, Result<
    (),
    AppErrorView,
>) {
    if s.editors.contains(c.editor) {
        (checked(c, s), Ok(()))
    } else {
        (s, Err(AppErrorView::EditorNotInstalled(c.editor)))
    }
}

/// What creating the notebook `name` gives, and the storage after it. A root
/// directory that is not there cannot take a file.
pub open spec fn create_spec(s: FsState, name: Seq<char>) -> (FsState, Result<
    MessageView,
    AppErrorView,
>) {
    if s.has_file(name) {
        (s, Err(AppErrorView::Creation(CreationError::TodoListAlreadyExists)))
    } else if !s.root_exists {
        (s, Err(AppErrorView::Storage(StorageErrorView::DirectoryNotFound)))
    } else {
        (FsState { files: s.files.push(name), ..s }, Ok(MessageView::CreatedTodoList))
    }
}

/// What opening the notebook `name` gives, and the storage after it: the
/// configured editor is run on the notebook's path.
pub open spec fn open_spec(c: ConfigView, s: FsState, name: Seq<char>) -> (FsState, Result<
    MessageView,
    AppErrorView,
>) {
    if s.has_file(name) {
        (
            FsState {
                opened: s.opened.push(s.entry_path(name)),
                launched: s.launched.push(c.editor),
                ..s
            },
            Ok(MessageView::EmptyMessage),
        )
    } else {
        (s, Err(AppErrorView::Open(OpenError::TodoListNotFound)))
    }
}

/// What removing the notebook `name` gives, and the storage after it.
pub open spec fn remove_spec(s: FsState, name: Seq<char>) -> (FsState, Result<
    MessageView,
    AppErrorView,
>) {
    if s.has_file(name) {
        (FsState { files: s.files.remove_value(name), ..s }, Ok(MessageView::DeletedTodoList))
    } else {
        (s, Err(AppErrorView::Open(OpenError::TodoListNotFound)))
    }
}

/// What listing the notebooks gives: the names in the root directory that
/// are not hidden.
pub open spec fn list_spec(s: FsState) -> Result<MessageView, AppErrorView> {
    if s.root_exists {
        Ok(MessageView::ListOfTodoLists(visible(s.files)))
    } else {
        Err(AppErrorView::Storage(StorageErrorView::DirectoryNotFound))
    }
}

/// What seeing to the default notebook gives, and the storage after it.
pub open spec fn default_spec(c: ConfigView, s: FsState) -> (FsState, Result<(), AppErrorView>) {
    if s.has_file(c.default_notebook) {
        (s, Ok(()))
    } else if !s.root_exists {
        (s, Err(AppErrorView::Storage(StorageErrorView::DirectoryNotFound)))
    } else {
        (FsState { files: s.files.push(c.default_notebook), ..s }, Ok(()))
    }
}

/// The notebook that `open` is about: the one named, or else the default
/// one.
pub open spec fn target(c: ConfigView, name: Option<Seq<char>>) -> Seq<char> {
    match name {
        Some(n) => n,
        None => c.default_notebook,
    }
}

/// What the command `command` gives on a storage that passed the check, and
/// the storage after it. `open` without a name is about the default
/// notebook; `new` and `remove` without a name are not handled, like a
/// command of another name.
pub open spec fn dispatch_spec(
    c: ConfigView,
    s: FsState,
    command: Seq<char>,
    name: Option<Seq<char>>,
) -> (FsState, Result<MessageView, AppErrorView>) {
    if command == "list"@ {
        (s, list_spec(s))
    } else if command == "open"@ {
        open_spec(c, s, target(c, name))
    } else if command == "new"@ && name is Some {
        create_spec(s, name->0)
    } else if command == "remove"@ && name is Some {
        remove_spec(s, name->0)
    } else {
        (s, Err(AppErrorView::CommandNotHandled))
    }
}

/// What the command `command` gives on the storage `s`, and the storage
/// after it: first the check, then the command itself.
pub open spec fn handle_spec(
    c: ConfigView,
    s: FsState,
    command: Seq<char>,
    name: Option<Seq<char>>,
) -> (FsState, Result<MessageView, AppErrorView>) {
    match check_state_spec(c, s).1 {
        Err(e) => (s, Err(e)),
        Ok(()) => dispatch_spec(c, checked(c, s), command, name),
    }
}

/// What holds of the outcome of `command` on any storage at all: the answer
/// is of the command's kind, and a failure is one that the command can have,
/// or the storage's own.
pub open spec fn fits_command(
    c: ConfigView,
    command: Seq<char>,
    name: Option<Seq<char>>,
    r: Result<MessageView, AppErrorView>,
) -> bool {
    match r {
        Ok(MessageView::ListOfTodoLists(_)) => command == "list"@,
        Ok(MessageView::CreatedTodoList) => command == "new"@,
        Ok(MessageView::EmptyMessage) => command == "open"@,
        Ok(MessageView::DeletedTodoList) => command == "remove"@,
        Err(AppErrorView::Creation(_)) => command == "new"@,
        Err(AppErrorView::Open(_)) => command == "open"@ || command == "remove"@,
        Err(AppErrorView::EditorNotInstalled(editor)) => editor == c.editor,
        Err(AppErrorView::CommandNotHandled) => command != "list"@ && command != "open"@ && (
        name is None || (command != "new"@ && command != "remove"@)),
        Err(AppErrorView::Storage(_)) => true,
    }
}

/// Whether `r` passes on a failure of the platform.
pub open spec fn passes_fault<T>(r: Result<T, AppErrorView>) -> bool {
    match r {
        Err(AppErrorView::Storage(StorageErrorView::Io(_))) => true,
        _ => false,
    }
}

/// Whether a command, or a step of one, kept to what is said of it. Either it
/// answered `r` and left `after` as `model` has them; or it passed on a
/// failure of the platform, which a reliable storage never reports, and left
/// the storage `halted`: in one of the states that the caller names.
pub open spec fn ends_as<T>(
    reliable: bool,
    model: (FsState, Result<T, AppErrorView>),
    after: FsState,
    r: Result<T, AppErrorView>,
    halted: bool,
) -> bool {
    (after, r) == model || (!reliable && passes_fault(r) && halted)
}

/// What the check leaves where the platform fails in its course: the storage
/// as it was, or with the root directory created and nothing else.
pub open spec fn check_halted(s: FsState, after: FsState) -> bool {
    after == s || after == (FsState { root_exists: true, ..s })
}

/// What a command leaves where the platform fails in its course: what the
/// check leaves where it fails, or what it leaves where it succeeds. The
/// operation of the command itself has then changed nothing.
pub open spec fn command_halted(c: ConfigView, s: FsState, after: FsState) -> bool {
    check_halted(s, after) || after == checked(c, s)
}

/// The name given with a command, as contracts see it.
pub open spec fn name_view(name: Option<&str>) -> Option<Seq<char>> {
    match name {
        Some(n) => Some(n@),
        None => None,
    }
}

/// Whether two texts are the same.
fn same_text(a: &str, b: &str) -> (r: bool)
    ensures
        r == (a@ == b@),
{
    a.to_owned() == b.to_owned()
}

/// Lets a command go on only where the storage found nothing: something
/// found is a notebook that exists already, and a failure of the storage is
/// passed on as it came.
pub fn must_be_absent(found: Result<bool, StorageError>) -> (r: Result<(), AppError>)
    ensures
        match found {
            Ok(false) => r is Ok,
            Ok(true) => r == Err::<(), AppError>(
                AppError::Creation(CreationError::TodoListAlreadyExists),
            ),
            Err(e) => r == Err::<(), AppError>(AppError::Storage(e)),
        },
{
    match found {
        Ok(false) => Ok(()),
        Ok(true) => Err(AppError::Creation(CreationError::TodoListAlreadyExists)),
        Err(e) => Err(AppError::Storage(e)),
    }
}

/// Lets a command go on only where the storage found something: nothing
/// found is a notebook that does not exist, and a failure of the storage is
/// passed on as it came.
pub fn must_be_present(found: Result<bool, StorageError>) -> (r: Result<(), AppError>)
    ensures
        match found {
            Ok(true) => r is Ok,
            Ok(false) => r == Err::<(), AppError>(AppError::Open(OpenError::TodoListNotFound)),
            Err(e) => r == Err::<(), AppError>(AppError::Storage(e)),
        },
{
    match found {
        Ok(true) => Ok(()),
        Ok(false) => Err(AppError::Open(OpenError::TodoListNotFound)),
        Err(e) => Err(AppError::Storage(e)),
    }
}

/// The answer of a command whose one operation on the storage ended with
/// `done`: `message` where it went well, else its failure as it came.
pub fn answer(done: Result<(), StorageError>, message: Message) -> (r: Result<Message, AppError>)
    ensures
        match done {
            Ok(()) => r == Ok::<Message, AppError>(message),
            Err(e) => r == Err::<Message, AppError>(AppError::Storage(e)),
        },
{
    match done {
        Ok(()) => Ok(message),
        Err(e) => Err(AppError::Storage(e)),
    }
}

/// The command handler of one installation.
#[derive(Debug)]
pub struct App {
    config: Config,
}

impl View for App {
    type V = ConfigView;

    closed spec fn view(&self) -> ConfigView {
        self.config@
    }
}

impl App {
    /// The handler for the installation that `config` describes.
    pub fn new(config: Config) -> (r: Self)
        ensures
            r@ == config@,
    {
        App { config }
    }

    /// The settings.
    pub fn config(&self) -> (r: &Config)
        ensures
            r@ == self@,
    {
        &self.config
    }

    /// Whether `fs` is a storage that the contracts bind, rooted where the
    /// settings say.
    pub open spec fn governs<FS: FileOperations>(&self, fs: &FS) -> bool {
        fs.conforms() && fs.state().root == self@.nb_root_dir
    }

    /// Whether `after` is the storage `before` some operations later: bound
    /// like it, and reliable if it was.
    pub open spec fn governs_on<FS: FileOperations>(&self, before: &FS, after: &FS) -> bool {
        self.governs(after) && after.reliable() == before.reliable()
    }

    /// The path of the notebook `name`: the file of that name in the root
    /// directory. This is the path that the commands hand to the storage.
    pub fn todo_list_path(&self, name: &str) -> (r: NbPath)
        ensures
            r@ == self@.nb_root_dir.push(name@),
    {
        self.config.nb_root_dir.join(name)
    }

    /// Sees that the configured editor can be run.
    pub fn check_editor<FS: FileOperations>(&self, fs: &FS) -> (r: Result<(), AppError>)
        ensures
            r matches Err(e) ==> e@ == AppErrorView::EditorNotInstalled(self@.editor),
            fs.conforms() ==> (r is Ok <==> fs.state().editors.contains(self@.editor)),
    {
        if fs.probe_editor(self.config.editor.as_str()) {
            Ok(())
        } else {
            Err(AppError::EditorNotInstalled(self.config.editor.clone()))
        }
    }

    /// Sees that the root directory is there: creates it unless it exists.
    pub fn create_todo_list_dir<FS: FileOperations>(&self, fs: &mut FS) -> (r: Result<
        (),
        AppError,
    >)
        ensures
            r matches Err(e) ==> e is Storage,
            self.governs(old(fs)) ==> self.governs_on(old(fs), final(fs)) && ends_as(
                old(fs).reliable(),
                (FsState { root_exists: true, ..old(fs).state() }, Ok::<(), AppErrorView>(())),
                final(fs).state(),
                step_view(r),
                final(fs).state() == old(fs).state(),
            ),
    {
        match fs.path_exists(&self.config.nb_root_dir) {
            Err(e) => Err(AppError::Storage(e)),
            Ok(true) => Ok(()),
            Ok(false) => match fs.create_dir(&self.config.nb_root_dir) {
                Err(e) => Err(AppError::Storage(e)),
                Ok(()) => Ok(()),
            },
        }
    }

    /// Sees that the default notebook is there: creates it, empty, unless it
    /// exists.
    pub fn create_default_todo_list<FS: FileOperations>(&self, fs: &mut FS) -> (r: Result<
        (),
        AppError,
    >)
        ensures
            r matches Err(e) ==> e is Storage,
            self.governs(old(fs)) ==> self.governs_on(old(fs), final(fs)) && ends_as(
                old(fs).reliable(),
                default_spec(self@, old(fs).state()),
                final(fs).state(),
                step_view(r),
                final(fs).state() == old(fs).state(),
            ),
    {
        let path = self.todo_list_path(self.config.default_notebook.as_str());
        proof {
            lemma_entry_name_of_child(
                self@.nb_root_dir,
                self@.default_notebook,
            );
        }
        match fs.path_exists(&path) {
            Err(e) => Err(AppError::Storage(e)),
            Ok(true) => Ok(()),
            Ok(false) => match fs.create_file(&path) {
                Err(e) => Err(AppError::Storage(e)),
                Ok(()) => Ok(()),
            },
        }
    }

    /// The check before every command: the editor can be run, the root
    /// directory is there, the default notebook is there. What an earlier
    /// step created stays when a later one fails.
    pub fn check_state<FS: FileOperations>(&self, fs: &mut FS) -> (r: Result<(), AppError>)
        ensures
            r matches Err(e) ==> e is Storage || e@ == AppErrorView::EditorNotInstalled(
                self@.editor,
            ),
            self.governs(old(fs)) ==> self.governs_on(old(fs), final(fs)) && ends_as(
                old(fs).reliable(),
                check_state_spec(self@, old(fs).state()),
                final(fs).state(),
                step_view(r),
                check_halted(old(fs).state(), final(fs).state()),
            ),
    {
        self.check_editor(fs)?;
        self.create_todo_list_dir(fs)?;
        self.create_default_todo_list(fs)
    }

    /// Creates the notebook `name`, empty, unless there is one already.
    pub fn create_todo_list<FS: FileOperations>(&self, fs: &mut FS, name: &str) -> (r: Result<
        Message,
        AppError,
    >)
        ensures
            match r {
                Ok(m) => m is CreatedTodoList,
                Err(e) => e is Storage || e == AppError::Creation(
                    CreationError::TodoListAlreadyExists,
                ),
            },
            self.governs(old(fs)) ==> self.governs_on(old(fs), final(fs)) && ends_as(
                old(fs).reliable(),
                create_spec(old(fs).state(), name@),
                final(fs).state(),
                outcome_view(r),
                final(fs).state() == old(fs).state(),
            ),
    {
        let todo_list_path = self.todo_list_path(name);
        proof {
            lemma_entry_name_of_child(self@.nb_root_dir, name@);
        }
        must_be_absent(fs.path_exists(&todo_list_path))?;
        answer(fs.create_file(&todo_list_path), Message::CreatedTodoList)
    }

    /// Lists the notebooks.
    pub fn list_todo_lists<FS: FileOperations>(&self, fs: &FS) -> (r: Result<Message, AppError>)
        ensures
            match r {
                Ok(m) => m is ListOfTodoLists,
                Err(e) => e is Storage,
            },
            self.governs(fs) ==> ends_as(
                fs.reliable(),
                (fs.state(), list_spec(fs.state())),
                fs.state(),
                outcome_view(r),
                true,
            ),
    {
        match fs.get_files(&self.config.nb_root_dir) {
            Err(e) => Err(AppError::Storage(e)),
            Ok(files) => Ok(Message::ListOfTodoLists(files)),
        }
    }

    /// Opens the notebook `name` in the configured editor, if there is one
    /// of that name.
    pub fn open_todo_list<FS: FileOperations>(&self, fs: &mut FS, name: &str) -> (r: Result<
        Message,
        AppError,
    >)
        ensures
            match r {
                Ok(m) => m is EmptyMessage,
                Err(e) => e is Storage || e == AppError::Open(OpenError::TodoListNotFound),
            },
            self.governs(old(fs)) ==> self.governs_on(old(fs), final(fs)) && ends_as(
                old(fs).reliable(),
                open_spec(self@, old(fs).state(), name@),
                final(fs).state(),
                outcome_view(r),
                final(fs).state() == old(fs).state(),
            ),
    {
        let todo_list_path = self.todo_list_path(name);
        proof {
            lemma_entry_name_of_child(self@.nb_root_dir, name@);
        }
        must_be_present(fs.path_exists(&todo_list_path))?;
        answer(
            fs.open_file(self.config.editor.as_str(), &todo_list_path),
            Message::EmptyMessage,
        )
    }

    /// Deletes the notebook `name`, if there is one of that name.
    pub fn remove_todo_list<FS: FileOperations>(&self, fs: &mut FS, name: &str) -> (r: Result<
        Message,
        AppError,
    >)
        ensures
            match r {
                Ok(m) => m is DeletedTodoList,
                Err(e) => e is Storage || e == AppError::Open(OpenError::TodoListNotFound),
            },
            self.governs(old(fs)) ==> self.governs_on(old(fs), final(fs)) && ends_as(
                old(fs).reliable(),
                remove_spec(old(fs).state(), name@),
                final(fs).state(),
                outcome_view(r),
                final(fs).state() == old(fs).state(),
            ),
    {
        let todo_list_path = self.todo_list_path(name);
        proof {
            lemma_entry_name_of_child(self@.nb_root_dir, name@);
        }
        must_be_present(fs.path_exists(&todo_list_path))?;
        answer(fs.delete_file(&todo_list_path), Message::DeletedTodoList)
    }

    /// Handles one command: the check first, then the one operation that
    /// `command` names, on the notebook `name` or, for `open` without a name,
    /// on the default notebook.
    ///
    /// A command that is none of `list`, `new`, `open` and `remove` is not
    /// handled, nor is `new` or `remove` without a name; the check has run by
    /// then.
    pub fn handle_command<FS: FileOperations>(
        &self,
        fs: &mut FS,
        command: &str,
        name: Option<&str>,
    ) -> (r: Result<Message, AppError>)
        ensures
            fits_command(self@, command@, name_view(name), outcome_view(r)),
            self.governs(old(fs)) ==> self.governs_on(old(fs), final(fs)) && ends_as(
                old(fs).reliable(),
                handle_spec(self@, old(fs).state(), command@, name_view(name)),
                final(fs).state(),
                outcome_view(r),
                command_halted(self@, old(fs).state(), final(fs).state()),
            ),
    {
        self.check_state(fs)?;
        if same_text(command, "list") {
            self.list_todo_lists(fs)
        } else if same_text(command, "open") {
            match name {
                Some(n) => self.open_todo_list(fs, n),
                None => self.open_todo_list(fs, self.config.default_notebook.as_str()),
            }
        } else if same_text(command, "new") {
            match name {
                Some(n) => self.create_todo_list(fs, n),
                None => Err(AppError::CommandNotHandled),
            }
        } else if same_text(command, "remove") {
            match name {
                Some(n) => self.remove_todo_list(fs, n),
                None => Err(AppError::CommandNotHandled),
            }
        } else {
            Err(AppError::CommandNotHandled)
        }
    }
}

} // verus!
