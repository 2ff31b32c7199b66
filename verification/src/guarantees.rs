//! What the commands guarantee, stated over [`handle_spec`] and proved.
//!
//! [`App::handle_command`] gives exactly what `handle_spec` says on every
//! reliable storage that it governs, so each statement here holds of the
//! commands as they run on such a storage. On one that is not reliable a
//! command may instead pass on a failure of the platform.
//!
//! [`handle_spec`]: crate::app::handle_spec
//! [`App::handle_command`]: crate::app::App::handle_command

use vstd::prelude::*;

use crate::app::{check_state_spec, checked, handle_spec, list_spec};
use crate::config::ConfigView;
use crate::error::{AppErrorView, CreationError, OpenError, StorageErrorView};
use crate::file_operations::{is_hidden, lemma_entry_name_of_child, visible, FsState};
use crate::message::MessageView;

verus! {

/// The four command names are four different texts.
pub proof fn lemma_command_names_differ()
    ensures
        "list"@ != "new"@,
        "list"@ != "open"@,
        "list"@ != "remove"@,
        "new"@ != "open"@,
        "new"@ != "remove"@,
        "open"@ != "remove"@,
{
    reveal_strlit("list");
    reveal_strlit("new");
    reveal_strlit("open");
    reveal_strlit("remove");
    assert("list"@[0] != "open"@[0]);
    assert("new"@.len() != "remove"@.len());
}

/// The check before a command keeps a well-formed storage well-formed.
pub proof fn lemma_checked_wf(c: ConfigView, s: FsState)
    requires
        s.wf(),
    ensures
        checked(c, s).wf(),
        checked(c, s).has_file(c.default_notebook),
        forall|n: Seq<char>| n != c.default_notebook ==> (checked(c, s).has_file(n) <==> s.has_file(n)),
        s.has_file(c.default_notebook) ==> checked(c, s) == s,
{
    let t = checked(c, s);
    if !s.files.contains(c.default_notebook) {
        let i = s.files.len() as int;
        assert(t.files[i] == c.default_notebook);
        assert forall|n: Seq<char>| n != c.default_notebook implies (t.files.contains(n)
            <==> s.files.contains(n)) by {
            if t.files.contains(n) {
                let j = choose|j: int| 0 <= j < t.files.len() && t.files[j] == n;
                assert(s.files[j] == n);
            }
            if s.files.contains(n) {
                let j = choose|j: int| 0 <= j < s.files.len() && s.files[j] == n;
                assert(t.files[j] == n);
            }
        }
    }
}

/// A command keeps a well-formed storage well-formed.
pub proof fn lemma_handle_keeps_wf(
    c: ConfigView,
    s: FsState,
    command: Seq<char>,
    name: Option<Seq<char>>,
)
    requires
        s.wf(),
    ensures
        handle_spec(c, s, command, name).0.wf(),
        handle_spec(c, s, command, name).0.root == s.root,
{
    lemma_checked_wf(c, s);
    let t = checked(c, s);
    let after = handle_spec(c, s, command, name).0;
    let n = name->0;
    if name is Some && after.files == t.files.remove_value(n) && t.files.contains(n) {
        t.files.index_of_first_ensures(n);
        let i = t.files.index_of_first(n)->0;
        assert forall|a: int, b: int|
            0 <= a < after.files.len() && 0 <= b < after.files.len() && a != b implies after.files[a]
            != after.files[b] by {
            let a0 = if a < i { a } else { a + 1 };
            let b0 = if b < i { b } else { b + 1 };
            assert(after.files[a] == t.files[a0]);
            assert(after.files[b] == t.files[b0]);
        }
    }
}

/// A notebook that was not there is created by `new`: it exists afterwards,
/// and a listing shows it exactly once.
///
/// Two names are left out. The default notebook is created by the check that
/// runs first, so `new` then finds it there. A hidden name is created, but no
/// listing shows it.
pub proof fn lemma_new_creates_once(c: ConfigView, s: FsState, n: Seq<char>)
    requires
        s.wf(),
        s.root == c.nb_root_dir,
        s.editors.contains(c.editor),
        !s.has_file(n),
        n != c.default_notebook,
    ensures
        ({
            let (s1, r1) = handle_spec(c, s, "new"@, Some(n));
            let (s2, r2) = handle_spec(c, s1, "list"@, None);
            &&& r1 == Ok::<MessageView, AppErrorView>(MessageView::CreatedTodoList)
            &&& s1.path_exists(s1.entry_path(n))
            &&& s1.files.to_multiset().count(n) == 1
            &&& s2 == s1
            &&& r2 matches Ok(MessageView::ListOfTodoLists(names)) && names == visible(s1.files)
                && (!is_hidden(n) ==> names.to_multiset().count(n) == 1)
        }),
{
    broadcast use vstd::seq_lib::group_to_multiset_ensures;

    lemma_command_names_differ();
    lemma_checked_wf(c, s);
    let t = checked(c, s);
    let s1 = handle_spec(c, s, "new"@, Some(n)).0;
    assert(s1.files == t.files.push(n));
    lemma_entry_name_of_child(s1.root, n);
    assert(s1.files[t.files.len() as int] == n);
    assert(s1.has_file(c.default_notebook)) by {
        let j = choose|j: int| 0 <= j < t.files.len() && t.files[j] == c.default_notebook;
        assert(s1.files[j] == c.default_notebook);
    }
    assert(checked(c, s1) == s1);
    let shown = |name: Seq<char>| !is_hidden(name);
    t.files.lemma_filter_push(n, shown);
    if !is_hidden(n) {
        if visible(t.files).contains(n) {
            t.files.lemma_filter_contains_rev(shown, n);
        }
    }
}

/// `new` on a notebook that is there fails, and creates nothing: no second
/// file of that name, and nothing but what the check before it saw to.
pub proof fn lemma_new_refuses_existing(c: ConfigView, s: FsState, n: Seq<char>)
    requires
        s.wf(),
        s.root == c.nb_root_dir,
        s.editors.contains(c.editor),
        s.has_file(n),
    ensures
        ({
            let (s1, r1) = handle_spec(c, s, "new"@, Some(n));
            &&& r1 == Err::<MessageView, AppErrorView>(
                AppErrorView::Creation(CreationError::TodoListAlreadyExists),
            )
            &&& s1 == checked(c, s)
            &&& s1.files.to_multiset().count(n) == 1
            &&& s.has_file(c.default_notebook) ==> s1 == s
        }),
{
    lemma_command_names_differ();
    lemma_checked_wf(c, s);
    let t = checked(c, s);
    assert(t.has_file(n));
    t.files.lemma_multiset_has_no_duplicates();
    t.files.to_multiset_ensures();
}

/// `open` and `remove` on a notebook that is not there fail; no editor is
/// run and no file is deleted.
///
/// The default notebook is left out: the check that runs first creates it,
/// so it is never absent when the command itself runs.
pub proof fn lemma_absent_not_found(c: ConfigView, s: FsState, n: Seq<char>)
    requires
        s.wf(),
        s.root == c.nb_root_dir,
        s.editors.contains(c.editor),
        !s.has_file(n),
        n != c.default_notebook,
    ensures
        ({
            let (s1, r1) = handle_spec(c, s, "open"@, Some(n));
            let (s2, r2) = handle_spec(c, s, "remove"@, Some(n));
            &&& r1 == Err::<MessageView, AppErrorView>(
                AppErrorView::Open(OpenError::TodoListNotFound),
            )
            &&& r2 == r1
            &&& s1 == checked(c, s)
            &&& s2 == checked(c, s)
            &&& s1.opened == s.opened
            &&& s1.launched == s.launched
            &&& forall|m: Seq<char>| s.has_file(m) ==> s2.has_file(m)
        }),
{
    lemma_command_names_differ();
    lemma_checked_wf(c, s);
}

/// The check before a command, run twice, leaves what it leaves when run
/// once, and answers the same.
pub proof fn lemma_check_idempotent(c: ConfigView, s: FsState)
    ensures
        check_state_spec(c, check_state_spec(c, s).0) == check_state_spec(c, s),
{
    let t = checked(c, s);
    if !s.files.contains(c.default_notebook) {
        assert(t.files[s.files.len() as int] == c.default_notebook);
    }
}

/// Listing a root directory that holds nothing gives no name, and no
/// failure.
pub proof fn lemma_list_empty_root(s: FsState)
    requires
        s.root_exists,
        s.files.len() == 0,
    ensures
        s.list(s.root) == Ok::<Seq<Seq<char>>, StorageErrorView>(Seq::empty()),
        list_spec(s) == Ok::<MessageView, AppErrorView>(
            MessageView::ListOfTodoLists(Seq::empty()),
        ),
{
    reveal(Seq::filter);
    assert(visible(s.files) =~= Seq::empty());
}

/// `list` on a storage whose root directory is not there creates the root
/// directory and the default notebook, and lists that notebook alone unless
/// it is hidden.
pub proof fn lemma_list_from_nothing(c: ConfigView, s: FsState)
    requires
        s.wf(),
        s.root == c.nb_root_dir,
        s.editors.contains(c.editor),
        !s.root_exists,
        !is_hidden(c.default_notebook),
    ensures
        ({
            let (s1, r1) = handle_spec(c, s, "list"@, None);
            &&& s1.root_exists
            &&& s1.files == seq![c.default_notebook]
            &&& r1 == Ok::<MessageView, AppErrorView>(
                MessageView::ListOfTodoLists(seq![c.default_notebook]),
            )
        }),
{
    let t = checked(c, s);
    assert(t.files =~= seq![c.default_notebook]);
    let shown = |name: Seq<char>| !is_hidden(name);
    lemma_list_empty_root(FsState { root_exists: true, ..s });
    s.files.lemma_filter_push(c.default_notebook, shown);
    assert(visible(t.files) =~= seq![c.default_notebook]);
}

/// `remove` on a notebook that is there deletes it: it is gone afterwards,
/// and every other notebook stays.
pub proof fn lemma_remove_deletes(c: ConfigView, s: FsState, n: Seq<char>)
    requires
        s.wf(),
        s.root == c.nb_root_dir,
        s.editors.contains(c.editor),
        s.has_file(n),
    ensures
        ({
            let (s1, r1) = handle_spec(c, s, "remove"@, Some(n));
            &&& r1 == Ok::<MessageView, AppErrorView>(MessageView::DeletedTodoList)
            &&& !s1.has_file(n)
            &&& forall|m: Seq<char>| m != n ==> (s1.has_file(m) <==> checked(c, s).has_file(m))
            &&& s1.opened == s.opened
        }),
{
    lemma_command_names_differ();
    lemma_checked_wf(c, s);
    let t = checked(c, s);
    assert(t.has_file(n));
    let s1 = handle_spec(c, s, "remove"@, Some(n)).0;
    t.files.index_of_first_ensures(n);
    let i = t.files.index_of_first(n)->0;
    assert(s1.files == t.files.remove(i));
    assert forall|m: Seq<char>| s1.files.contains(m) implies t.files.contains(m) && m != n by {
        let j = choose|j: int| 0 <= j < s1.files.len() && s1.files[j] == m;
        let j0 = if j < i { j } else { j + 1 };
        assert(t.files[j0] == m);
    }
    assert forall|m: Seq<char>| m != n && t.files.contains(m) implies s1.files.contains(m) by {
        let j = choose|j: int| 0 <= j < t.files.len() && t.files[j] == m;
        let j1 = if j < i { j } else { j - 1 };
        assert(s1.files[j1] == m);
    }
}

/// `open` on a notebook that is there runs the configured editor on its
/// path, once, and changes no file.
pub proof fn lemma_open_records_path(c: ConfigView, s: FsState, n: Seq<char>)
    requires
        s.wf(),
        s.root == c.nb_root_dir,
        s.editors.contains(c.editor),
        s.has_file(n),
    ensures
        ({
            let (s1, r1) = handle_spec(c, s, "open"@, Some(n));
            &&& r1 == Ok::<MessageView, AppErrorView>(MessageView::EmptyMessage)
            &&& s1.opened == s.opened.push(c.nb_root_dir.push(n))
            &&& s1.launched == s.launched.push(c.editor)
            &&& s1.files == checked(c, s).files
        }),
{
    lemma_command_names_differ();
    lemma_checked_wf(c, s);
}

} // verus!
