//! Helpers shared by the front end.

use vstd::prelude::*;

use crate::config::Config;
use crate::error::StorageError;
use crate::file_operations::{keeps_to, names_view, FileOperations};

verus! {

/// The names of the notebooks in the configured root directory, as the
/// storage lists them: hidden files left out, nothing created.
pub fn list_notebooks<FS: FileOperations>(config: &Config, fs: &FS) -> (r: Result<
    Vec<String>,
    StorageError,
>)
    ensures
        fs.conforms() ==> keeps_to(
            fs.reliable(),
            fs.state(),
            (fs.state(), fs.state().list(config@.nb_root_dir)),
            fs.state(),
            names_view(r),
        ),
{
    let nb_dir = &config.nb_root_dir;
    fs.get_files(nb_dir)
}

} // verus!
