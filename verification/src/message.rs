//! What a command answers when it succeeds.

use vstd::prelude::*;
use vstd::string::StringExecFns;

verus! {

/// The answer of a command that succeeded.
#[derive(Debug, PartialEq, Eq)]
pub enum Message {
    /// The names of the notebooks, in the order the storage gave them.
    ListOfTodoLists(Vec<String>),
    /// A notebook was created.
    CreatedTodoList,
    /// A notebook was deleted.
    DeletedTodoList,
    /// Nothing to say.
    EmptyMessage,
}

/// A [`Message`] as contracts see it.
pub enum MessageView {
    ListOfTodoLists(Seq<Seq<char>>),
    CreatedTodoList,
    DeletedTodoList,
    EmptyMessage,
}

impl View for Message {
    type V = MessageView;

    open spec fn view(&self) -> MessageView {
        match self {
            Message::ListOfTodoLists(names) => MessageView::ListOfTodoLists(names.deep_view()),
            Message::CreatedTodoList => MessageView::CreatedTodoList,
            Message::DeletedTodoList => MessageView::DeletedTodoList,
            Message::EmptyMessage => MessageView::EmptyMessage,
        }
    }
}

/// The names one to a line, each line with its line end.
pub open spec fn lines(names: Seq<Seq<char>>) -> Seq<char>
    decreases names.len(),
{
    if names.len() == 0 {
        Seq::empty()
    } else {
        lines(names.drop_last()) + names.last() + "\n"@
    }
}

impl MessageView {
    /// The text shown to the user: a line for each listed name, one fixed
    /// line for a creation or a deletion, and nothing for the empty message.
    pub open spec fn text(self) -> Seq<char> {
        match self {
            MessageView::ListOfTodoLists(names) => lines(names),
            MessageView::CreatedTodoList => "Created Todo List\n"@,
            MessageView::DeletedTodoList => "Deleted Todo List\n"@,
            MessageView::EmptyMessage => Seq::empty(),
        }
    }
}

impl Clone for Message {
    fn clone(&self) -> (r: Self)
        ensures
            r@ == self@,
    {
        match self {
            Message::ListOfTodoLists(names) => Message::ListOfTodoLists(names.clone()),
            Message::CreatedTodoList => Message::CreatedTodoList,
            Message::DeletedTodoList => Message::DeletedTodoList,
            Message::EmptyMessage => Message::EmptyMessage,
        }
    }
}

impl Message {
    /// The text shown to the user.
    pub fn to_string(&self) -> (r: String)
        ensures
            r@ == self@.text(),
    {
        match self {
            Message::CreatedTodoList => "Created Todo List\n".to_owned(),
            Message::DeletedTodoList => "Deleted Todo List\n".to_owned(),
            Message::EmptyMessage => String::new(),
            Message::ListOfTodoLists(names) => {
                let mut text = String::new();
                let mut i: usize = 0;
                while i < names.len()
                    invariant
                        i <= names.len(),
                        text@ == lines(names.deep_view().take(i as int)),
                    decreases names.len() - i,
                {
                    proof {
                        let done = names.deep_view().take(i as int);
                        let next = names.deep_view().take(i + 1);
                        assert(next.drop_last() =~= done);
                        assert(next.last() == names[i as int]@);
                    }
                    text.append(names[i].as_str());
                    text.append("\n");
                    i += 1;
                }
                assert(names.deep_view().take(i as int) =~= names.deep_view());
                text
            },
        }
    }
}

} // verus!
