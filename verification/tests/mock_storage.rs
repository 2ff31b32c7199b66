use nb::error::StorageError;
use nb::file_operations::{name_is_hidden, visible_entries, FileOperations};
use nb::mock_fs::{extract_file_name, position, MockFileSystem};
use nb::path::NbPath;

fn path(parts: &[&str]) -> NbPath {
    NbPath::new(parts.iter().map(|p| p.to_string()).collect())
}

fn names(names: &[&str]) -> Vec<String> {
    names.iter().map(|n| n.to_string()).collect()
}

fn root() -> NbPath {
    path(&["/", "home", "me", ".nb"])
}

#[test]
fn file_name_of_a_direct_child() {
    assert_eq!(extract_file_name(&root(), &root().join("project")), Ok("project".to_string()));
    assert_eq!(extract_file_name(&path(&[]), &path(&["x"])), Ok("x".to_string()));
}

#[test]
fn file_name_outside_the_root() {
    assert_eq!(
        extract_file_name(&root(), &path(&["/", "home", "you", ".nb", "project"])),
        Err(StorageError::OutsideRoot)
    );
    assert_eq!(extract_file_name(&root(), &path(&["/", "home"])), Err(StorageError::OutsideRoot));
    assert_eq!(extract_file_name(&root(), &path(&[])), Err(StorageError::OutsideRoot));
}

#[test]
fn file_name_not_directly_in_the_root() {
    assert_eq!(extract_file_name(&root(), &root()), Err(StorageError::NotDirectChild));
    assert_eq!(
        extract_file_name(&root(), &root().join("a").join("b")),
        Err(StorageError::NotDirectChild)
    );
}

#[test]
fn position_is_the_first_occurrence() {
    let v = names(&["a", "b", "a"]);
    assert_eq!(position(&v, &"a".to_string()), Some(0));
    assert_eq!(position(&v, &"b".to_string()), Some(1));
    assert_eq!(position(&v, &"c".to_string()), None);
    assert_eq!(position(&Vec::new(), &"a".to_string()), None);
}

#[test]
fn hidden_names_begin_with_a_dot() {
    assert!(name_is_hidden(".git"));
    assert!(name_is_hidden("."));
    assert!(!name_is_hidden("a.b"));
    assert!(!name_is_hidden(""));
    assert_eq!(visible_entries(&names(&[".a", "b", "c.d", ".e", "f"])), names(&["b", "c.d", "f"]));
    assert_eq!(visible_entries(&names(&[".a"])), names(&[]));
    assert_eq!(visible_entries(&names(&[])), names(&[]));
}

#[test]
fn new_mock_holds_what_it_was_given() {
    let fs = MockFileSystem::new(root(), names(&["nb", "project"]));
    assert_eq!(fs.get_files(&root()), Ok(names(&["nb", "project"])));
    assert!(fs.opened_files().is_empty());
    assert!(fs.is_dir(&root()));
    assert!(!fs.is_dir(&root().join("nb")));
    assert!(fs.is_file(&root().join("nb")));
    assert!(!fs.is_file(&root()));
    assert!(!fs.is_file(&root().join("other")));
    assert!(!fs.is_file(&path(&["/", "nb"])));
}

#[test]
fn listing_an_empty_root_gives_nothing() {
    let fs = MockFileSystem::new(root(), Vec::new());
    assert_eq!(fs.get_files(&root()), Ok(Vec::new()));
}

#[test]
fn listing_leaves_hidden_files_out() {
    let fs = MockFileSystem::new(root(), names(&[".git", "nb", ".cache"]));
    assert_eq!(fs.get_files(&root()), Ok(names(&["nb"])));
    assert_eq!(fs.path_exists(&root().join(".git")), Ok(true));
}

#[test]
fn listing_another_directory_fails() {
    let fs = MockFileSystem::new(root(), names(&["nb"]));
    assert_eq!(fs.get_files(&path(&["/", "home"])), Err(StorageError::DirectoryNotFound));
    assert_eq!(fs.get_files(&root().join("nb")), Err(StorageError::DirectoryNotFound));
}

#[test]
fn exists_knows_the_root_and_its_files() {
    let fs = MockFileSystem::new(root(), names(&["nb"]));
    assert_eq!(fs.path_exists(&root()), Ok(true));
    assert_eq!(fs.path_exists(&root().join("nb")), Ok(true));
    assert_eq!(fs.path_exists(&root().join("project")), Ok(false));
    assert_eq!(fs.path_exists(&path(&["/", "home"])), Ok(false));
    assert_eq!(fs.path_exists(&root().join("nb").join("x")), Ok(false));
}

#[test]
fn created_file_exists_and_is_listed_last() {
    let mut fs = MockFileSystem::new(root(), names(&["nb"]));
    assert_eq!(fs.create_file(&root().join("project")), Ok(()));
    assert_eq!(fs.path_exists(&root().join("project")), Ok(true));
    assert_eq!(fs.get_files(&root()), Ok(names(&["nb", "project"])));
}

#[test]
fn creating_what_exists_fails_and_adds_nothing() {
    let mut fs = MockFileSystem::new(root(), names(&["nb"]));
    assert_eq!(fs.create_file(&root().join("nb")), Err(StorageError::AlreadyExists));
    assert_eq!(fs.get_files(&root()), Ok(names(&["nb"])));
}

#[test]
fn creating_outside_the_root_fails() {
    let mut fs = MockFileSystem::new(root(), Vec::new());
    assert_eq!(fs.create_file(&path(&["/", "tmp", "x"])), Err(StorageError::OutsideRoot));
    assert_eq!(fs.create_file(&root()), Err(StorageError::NotDirectChild));
    assert_eq!(fs.create_file(&root().join("a").join("b")), Err(StorageError::NotDirectChild));
    assert_eq!(fs.get_files(&root()), Ok(Vec::new()));
}

#[test]
fn deleted_file_is_gone() {
    let mut fs = MockFileSystem::new(root(), names(&["nb", "project", "ideas"]));
    assert_eq!(fs.delete_file(&root().join("project")), Ok(()));
    assert_eq!(fs.path_exists(&root().join("project")), Ok(false));
    assert_eq!(fs.get_files(&root()), Ok(names(&["nb", "ideas"])));
}

#[test]
fn deleting_what_is_not_there_fails() {
    let mut fs = MockFileSystem::new(root(), names(&["nb"]));
    assert_eq!(fs.delete_file(&root().join("project")), Err(StorageError::NotFound));
    assert_eq!(fs.delete_file(&path(&["/", "nb"])), Err(StorageError::OutsideRoot));
    assert_eq!(fs.delete_file(&root()), Err(StorageError::NotDirectChild));
    assert_eq!(fs.get_files(&root()), Ok(names(&["nb"])));
}

#[test]
fn deleting_takes_the_first_of_two() {
    let mut fs = MockFileSystem::new(root(), names(&["a", "b", "a"]));
    assert_eq!(fs.delete_file(&root().join("a")), Ok(()));
    assert_eq!(fs.get_files(&root()), Ok(names(&["b", "a"])));
}

#[test]
fn root_directory_is_created_idempotently() {
    let mut fs = MockFileSystem::new(root(), names(&["nb"]));
    assert_eq!(fs.create_dir(&root()), Ok(()));
    assert_eq!(fs.create_dir(&root()), Ok(()));
    assert_eq!(fs.get_files(&root()), Ok(names(&["nb"])));
}

#[test]
fn no_other_directory_can_be_created() {
    let mut fs = MockFileSystem::new(root(), Vec::new());
    assert_eq!(fs.create_dir(&path(&["/", "tmp"])), Err(StorageError::Unsupported));
    assert_eq!(fs.create_dir(&root().join("sub")), Err(StorageError::Unsupported));
    assert_eq!(fs.path_exists(&root().join("sub")), Ok(false));
}

#[test]
fn opened_files_are_recorded_in_order() {
    let mut fs = MockFileSystem::new(root(), names(&["nb", "project"]));
    assert_eq!(fs.open_file("nvim", &root().join("project")), Ok(()));
    assert_eq!(fs.open_file("vi", &root().join("nb")), Ok(()));
    assert_eq!(fs.open_file("vi", &root().join("nb")), Ok(()));
    assert_eq!(
        fs.opened_files(),
        &vec![root().join("project"), root().join("nb"), root().join("nb")]
    );
    assert_eq!(fs.editor_commands(), &names(&["nvim", "vi", "vi"]));
}

#[test]
fn only_files_can_be_opened() {
    let mut fs = MockFileSystem::new(root(), names(&["nb"]));
    assert_eq!(fs.open_file("nvim", &root()), Err(StorageError::NotAFile));
    assert_eq!(fs.open_file("nvim", &root().join("project")), Err(StorageError::NotAFile));
    assert_eq!(fs.open_file("nvim", &path(&["/", "etc", "passwd"])), Err(StorageError::NotAFile));
    assert!(fs.opened_files().is_empty());
    assert!(fs.editor_commands().is_empty());
}

#[test]
fn every_editor_runs_on_the_mock() {
    let fs = MockFileSystem::new(root(), Vec::new());
    assert!(fs.probe_editor("nvim"));
    assert!(fs.probe_editor(""));
}
