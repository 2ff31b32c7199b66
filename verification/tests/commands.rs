use nb::app::{answer, must_be_absent, must_be_present, App};
use nb::config::Config;
use nb::error::{AppError, CreationError, OpenError, StorageError};
use nb::file_operations::FileOperations;
use nb::message::Message;
use nb::mock_fs::MockFileSystem;
use nb::path::NbPath;
use nb::utils::list_notebooks;

fn root() -> NbPath {
    NbPath::new(vec!["/".to_string(), "home".to_string(), "me".to_string(), ".nb".to_string()])
}

fn names(names: &[&str]) -> Vec<String> {
    names.iter().map(|n| n.to_string()).collect()
}

fn config() -> Config {
    Config { nb_root_dir: root(), default_notebook: "nb".to_string(), editor: "nvim".to_string() }
}

fn setup(notebooks: &[&str]) -> (App, MockFileSystem) {
    (App::new(config()), MockFileSystem::new(root(), names(notebooks)))
}

fn listed(app: &App, fs: &mut MockFileSystem) -> Vec<String> {
    match app.handle_command(fs, "list", None) {
        Ok(Message::ListOfTodoLists(names)) => names,
        other => panic!("{:?}", other),
    }
}

#[test]
fn app_keeps_its_settings() {
    let app = App::new(config());
    assert_eq!(app.config(), &config());
}

#[test]
fn new_creates_a_notebook_that_then_exists_and_is_listed_once() {
    let (app, mut fs) = setup(&["nb"]);
    assert_eq!(app.handle_command(&mut fs, "new", Some("project")), Ok(Message::CreatedTodoList));
    assert_eq!(fs.path_exists(&root().join("project")), Ok(true));
    let names = listed(&app, &mut fs);
    assert_eq!(names.iter().filter(|n| n.as_str() == "project").count(), 1);
    assert_eq!(names, vec!["nb".to_string(), "project".to_string()]);
}

#[test]
fn new_on_an_existing_notebook_fails_and_changes_nothing() {
    let (app, mut fs) = setup(&["nb", "project"]);
    assert_eq!(
        app.handle_command(&mut fs, "new", Some("project")),
        Err(AppError::Creation(CreationError::TodoListAlreadyExists))
    );
    assert_eq!(listed(&app, &mut fs), names(&["nb", "project"]));
    assert!(fs.opened_files().is_empty());
}

#[test]
fn new_of_the_default_notebook_finds_it_created_by_the_check() {
    let (app, mut fs) = setup(&[]);
    assert_eq!(
        app.handle_command(&mut fs, "new", Some("nb")),
        Err(AppError::Creation(CreationError::TodoListAlreadyExists))
    );
    assert_eq!(listed(&app, &mut fs), names(&["nb"]));
}

#[test]
fn new_of_a_hidden_name_creates_what_no_listing_shows() {
    let (app, mut fs) = setup(&["nb"]);
    assert_eq!(app.handle_command(&mut fs, "new", Some(".draft")), Ok(Message::CreatedTodoList));
    assert_eq!(fs.path_exists(&root().join(".draft")), Ok(true));
    assert_eq!(listed(&app, &mut fs), names(&["nb"]));
}

#[test]
fn open_and_remove_of_an_absent_notebook_fail_and_do_nothing() {
    let (app, mut fs) = setup(&["nb", "ideas"]);
    assert_eq!(
        app.handle_command(&mut fs, "open", Some("project")),
        Err(AppError::Open(OpenError::TodoListNotFound))
    );
    assert_eq!(
        app.handle_command(&mut fs, "remove", Some("project")),
        Err(AppError::Open(OpenError::TodoListNotFound))
    );
    assert!(fs.opened_files().is_empty());
    assert_eq!(listed(&app, &mut fs), names(&["nb", "ideas"]));
}

#[test]
fn check_twice_is_check_once() {
    let (app, mut once) = setup(&["ideas"]);
    let (_, mut twice) = setup(&["ideas"]);
    assert_eq!(app.check_state(&mut once), Ok(()));
    assert_eq!(app.check_state(&mut twice), Ok(()));
    assert_eq!(app.check_state(&mut twice), Ok(()));
    assert_eq!(once.get_files(&root()), Ok(names(&["ideas", "nb"])));
    assert_eq!(twice.get_files(&root()), once.get_files(&root()));
    assert_eq!(twice.opened_files(), once.opened_files());
}

#[test]
fn check_creates_the_default_notebook_only_where_it_is_missing() {
    let (app, mut fs) = setup(&["nb", "ideas"]);
    assert_eq!(app.check_state(&mut fs), Ok(()));
    assert_eq!(fs.get_files(&root()), Ok(names(&["nb", "ideas"])));
}

#[test]
fn steps_of_the_check_one_by_one() {
    let (app, mut fs) = setup(&[]);
    assert_eq!(app.check_editor(&fs), Ok(()));
    assert_eq!(app.create_todo_list_dir(&mut fs), Ok(()));
    assert_eq!(fs.get_files(&root()), Ok(Vec::new()));
    assert_eq!(app.create_default_todo_list(&mut fs), Ok(()));
    assert_eq!(fs.get_files(&root()), Ok(names(&["nb"])));
    assert_eq!(app.create_default_todo_list(&mut fs), Ok(()));
    assert_eq!(fs.get_files(&root()), Ok(names(&["nb"])));
}

#[test]
fn listing_an_empty_root_is_empty_and_no_error() {
    let (app, fs) = setup(&[]);
    assert_eq!(list_notebooks(&config(), &fs), Ok(Vec::new()));
    assert_eq!(app.list_todo_lists(&fs), Ok(Message::ListOfTodoLists(Vec::new())));
}

#[test]
fn list_command_creates_the_default_notebook_first() {
    let (app, mut fs) = setup(&[]);
    assert_eq!(
        app.handle_command(&mut fs, "list", None),
        Ok(Message::ListOfTodoLists(names(&["nb"])))
    );
    assert_eq!(fs.path_exists(&root().join("nb")), Ok(true));
}

#[test]
fn list_keeps_the_order_of_the_storage() {
    let (app, mut fs) = setup(&["zeta", "alpha", "nb", ".hidden", "mid"]);
    assert_eq!(listed(&app, &mut fs), names(&["zeta", "alpha", "nb", "mid"]));
    assert_eq!(list_notebooks(&config(), &fs), Ok(names(&["zeta", "alpha", "nb", "mid"])));
}

#[test]
fn remove_deletes_the_notebook_and_a_listing_no_longer_shows_it() {
    let (app, mut fs) = setup(&["nb", "project"]);
    assert_eq!(
        app.handle_command(&mut fs, "remove", Some("project")),
        Ok(Message::DeletedTodoList)
    );
    let names = listed(&app, &mut fs);
    assert!(!names.contains(&"project".to_string()));
    assert_eq!(names, vec!["nb".to_string()]);
    assert_eq!(fs.path_exists(&root().join("project")), Ok(false));
}

#[test]
fn open_without_a_name_opens_the_default_notebook() {
    let (app, mut fs) = setup(&["nb"]);
    assert_eq!(app.handle_command(&mut fs, "open", None), Ok(Message::EmptyMessage));
    assert_eq!(fs.opened_files(), &vec![root().join("nb")]);
    assert_eq!(fs.editor_commands(), &vec!["nvim".to_string()]);
}

#[test]
fn open_with_a_name_opens_that_notebook() {
    let (app, mut fs) = setup(&["nb", "my_notebook"]);
    assert_eq!(app.handle_command(&mut fs, "open", Some("my_notebook")), Ok(Message::EmptyMessage));
    assert_eq!(fs.opened_files(), &vec![root().join("my_notebook")]);
    assert_eq!(listed(&app, &mut fs), names(&["nb", "my_notebook"]));
}

#[test]
fn unknown_command_is_not_handled() {
    let (app, mut fs) = setup(&["nb"]);
    for command in ["test", "--test", "-t", " ", "", "ls", "rm", "List", "completions"] {
        assert_eq!(
            app.handle_command(&mut fs, command, None),
            Err(AppError::CommandNotHandled),
            "{:?}",
            command
        );
        assert_eq!(
            app.handle_command(&mut fs, command, Some("nb")),
            Err(AppError::CommandNotHandled),
            "{:?}",
            command
        );
    }
    assert_eq!(fs.get_files(&root()), Ok(names(&["nb"])));
    assert!(fs.opened_files().is_empty());
}

#[test]
fn unknown_command_still_runs_the_check() {
    let (app, mut fs) = setup(&[]);
    assert_eq!(app.handle_command(&mut fs, "status", None), Err(AppError::CommandNotHandled));
    assert_eq!(fs.get_files(&root()), Ok(names(&["nb"])));
}

#[test]
fn new_and_remove_without_a_name_are_not_handled() {
    let (app, mut fs) = setup(&["nb", "ideas"]);
    assert_eq!(app.handle_command(&mut fs, "new", None), Err(AppError::CommandNotHandled));
    assert_eq!(app.handle_command(&mut fs, "remove", None), Err(AppError::CommandNotHandled));
    assert_eq!(fs.get_files(&root()), Ok(names(&["nb", "ideas"])));
}

#[test]
fn operations_without_the_check() {
    let (app, mut fs) = setup(&[]);
    assert_eq!(app.create_todo_list(&mut fs, "a"), Ok(Message::CreatedTodoList));
    assert_eq!(
        app.create_todo_list(&mut fs, "a"),
        Err(AppError::Creation(CreationError::TodoListAlreadyExists))
    );
    assert_eq!(app.open_todo_list(&mut fs, "a"), Ok(Message::EmptyMessage));
    assert_eq!(app.open_todo_list(&mut fs, "b"), Err(AppError::Open(OpenError::TodoListNotFound)));
    assert_eq!(app.remove_todo_list(&mut fs, "a"), Ok(Message::DeletedTodoList));
    assert_eq!(
        app.remove_todo_list(&mut fs, "a"),
        Err(AppError::Open(OpenError::TodoListNotFound))
    );
    assert_eq!(app.list_todo_lists(&fs), Ok(Message::ListOfTodoLists(Vec::new())));
    assert_eq!(fs.opened_files(), &vec![root().join("a")]);
}

#[test]
fn storage_rooted_elsewhere_passes_its_failures_on() {
    let other = NbPath::new(vec!["/".to_string(), "srv".to_string()]);
    let app = App::new(config());
    let mut fs = MockFileSystem::new(other.clone(), names(&["nb"]));
    assert_eq!(
        app.handle_command(&mut fs, "list", None),
        Err(AppError::Storage(StorageError::Unsupported))
    );
    assert_eq!(
        app.create_todo_list(&mut fs, "x"),
        Err(AppError::Storage(StorageError::OutsideRoot))
    );
    assert_eq!(
        app.list_todo_lists(&fs),
        Err(AppError::Storage(StorageError::DirectoryNotFound))
    );
    assert_eq!(fs.get_files(&other), Ok(names(&["nb"])));
}

#[test]
fn decisions_on_what_the_storage_found() {
    assert_eq!(must_be_absent(Ok(false)), Ok(()));
    assert_eq!(
        must_be_absent(Ok(true)),
        Err(AppError::Creation(CreationError::TodoListAlreadyExists))
    );
    assert_eq!(
        must_be_absent(Err(StorageError::Io("denied".to_string()))),
        Err(AppError::Storage(StorageError::Io("denied".to_string())))
    );
    assert_eq!(must_be_present(Ok(true)), Ok(()));
    assert_eq!(must_be_present(Ok(false)), Err(AppError::Open(OpenError::TodoListNotFound)));
    assert_eq!(
        must_be_present(Err(StorageError::NotAFile)),
        Err(AppError::Storage(StorageError::NotAFile))
    );
    assert_eq!(answer(Ok(()), Message::DeletedTodoList), Ok(Message::DeletedTodoList));
    assert_eq!(
        answer(Err(StorageError::NotFound), Message::DeletedTodoList),
        Err(AppError::Storage(StorageError::NotFound))
    );
}

#[test]
fn notebook_path_is_the_name_in_the_root() {
    let app = App::new(config());
    assert_eq!(app.todo_list_path("project"), root().join("project"));
    assert_eq!(
        app.todo_list_path("nb").components(),
        &vec!["/".to_string(), "home".to_string(), "me".to_string(), ".nb".to_string(), "nb".to_string()]
    );
}
