//! Application-wide configuration: where the local database lives.

use std::path::PathBuf;
use vstd::prelude::*;

verus! {

/// A file-system path of the standard library.
#[verifier::external_type_specification]
#[verifier::external_body]
pub struct ExPathBuf(std::path::PathBuf);

/// The path that `Path::join` gives for a base and one more component.
pub uninterp spec fn joined(base: &PathBuf, component: Seq<char>) -> PathBuf;

/// `PathBuf`'s `Clone`: a path equal to the one given.
#[verifier::external_body]
fn copy_of_path(path: &PathBuf) -> (copy: PathBuf)
    ensures
        copy == *path,
{
    path.clone()
}

/// `Path::join`: the base with the component adjoined.
#[verifier::external_body]
fn join(base: &PathBuf, component: &str) -> (path: PathBuf)
    ensures
        path == joined(base, component@),
{
    base.join(component)
}

/// Directory of the application below the user's configuration directory.
pub open spec fn app_directory() -> Seq<char> {
    "oxidize-mail"@
}

/// File name of the database inside the application's directory.
pub open spec fn database_file() -> Seq<char> {
    "oxidize.db"@
}

/// Where the database lives.
pub struct AppConfig {
    db_conn_string: PathBuf,
}

impl AppConfig {
    /// The path of the database, as a model value.
    pub closed spec fn db(&self) -> PathBuf {
        self.db_conn_string
    }

    /// A configuration for the database at `conn_str`.
    pub fn new(conn_str: PathBuf) -> (config: AppConfig)
        ensures
            config.db() == conn_str,
    {
        AppConfig { db_conn_string: conn_str }
    }

    /// The standard configuration for a user whose configuration directory
    /// is `config_dir`: the database file inside the application's directory
    /// below it.
    pub fn in_config_dir(config_dir: PathBuf) -> (config: AppConfig)
        ensures
            config.db() == joined(&joined(&config_dir, app_directory()), database_file()),
    {
        let directory = join(&config_dir, "oxidize-mail");
        AppConfig { db_conn_string: join(&directory, "oxidize.db") }
    }

    /// The path of the database.
    pub fn get_db(&self) -> (path: PathBuf)
        ensures
            path == self.db(),
    {
        copy_of_path(&self.db_conn_string)
    }
}

} // verus!
