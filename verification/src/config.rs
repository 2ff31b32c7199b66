//! The settings of one installation.

use vstd::prelude::*;

use crate::name::{is_valid_name, is_whitespace, valid_name};
use crate::path::NbPath;

verus! {

/// Where the notebooks are, which one is opened when none is named, and the
/// editor that opens them.
#[derive(Debug, PartialEq, Eq)]
pub struct Config {
    /// The root directory: every notebook is a file directly in it.
    pub nb_root_dir: NbPath,
    /// The name of the notebook that is opened when none is named.
    pub default_notebook: String,
    /// The command that runs the editor.
    pub editor: String,
}

/// A [`Config`] as contracts see it.
pub struct ConfigView {
    pub nb_root_dir: Seq<Seq<char>>,
    pub default_notebook: Seq<char>,
    pub editor: Seq<char>,
}

impl View for Config {
    type V = ConfigView;

    open spec fn view(&self) -> ConfigView {
        ConfigView {
            nb_root_dir: self.nb_root_dir@,
            default_notebook: self.default_notebook@,
            editor: self.editor@,
        }
    }
}

impl Clone for Config {
    fn clone(&self) -> (r: Self)
        ensures
            r@ == self@,
    {
        Config {
            nb_root_dir: self.nb_root_dir.clone(),
            default_notebook: self.default_notebook.clone(),
            editor: self.editor.clone(),
        }
    }
}

impl Config {
    /// The default notebook must be one that can exist.
    pub open spec fn wf(&self) -> bool {
        valid_name(self.default_notebook@)
    }

    /// Whether the settings are in order.
    pub fn is_valid(&self) -> (r: bool)
        ensures
            r == self.wf(),
    {
        is_valid_name(self.default_notebook.as_str())
    }

    /// The settings of a user who has chosen none, given the user's home
    /// directory: the notebooks in `.todo` there, `todo` the default one,
    /// `nvim` the editor.
    pub fn default_in(home: &NbPath) -> (r: Config)
        ensures
            r@ == (ConfigView {
                nb_root_dir: home@.push(".todo"@),
                default_notebook: "todo"@,
                editor: "nvim"@,
            }),
            r.wf(),
    {
        let r = Config {
            nb_root_dir: home.join(".todo"),
            default_notebook: "todo".to_owned(),
            editor: "nvim".to_owned(),
        };
        proof {
            reveal_strlit("todo");
            assert(!is_whitespace("todo"@[0]));
        }
        r
    }

    /// Where the settings file of a user lies, given the user's home
    /// directory.
    pub fn file_in(home: &NbPath) -> (r: NbPath)
        ensures
            r@ == home@.push(".config"@).push("todo"@).push("todo.toml"@),
    {
        home.join(".config").join("todo").join("todo.toml")
    }
}

} // verus!
