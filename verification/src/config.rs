//! Where the log database lives.
use vstd::prelude::*;

verus! {

/// The database file under the user's home directory, relative to it.
pub open spec fn default_db_file() -> Seq<char> {
    "/.config/livelog/logs.sqlite"@
}

/// The location of the log database: the `DATABASE_URL` variable when a
/// `.env` file was loaded and the variable is set, else `logs.sqlite` under
/// `.config/livelog` in the user's home directory. `env_loaded` tells whether
/// a `.env` file was loaded, `database_url` is the variable's value when it is
/// set, and `home_dir` is the home directory as text, when it has one.
pub fn get_db_path(env_loaded: bool, database_url: Option<String>, home_dir: Option<String>) -> (path: String)
    requires
        (env_loaded && database_url is Some) || home_dir is Some,
    ensures
        path@ == if env_loaded && database_url is Some {
            database_url->0@
        } else {
            home_dir->0@ + default_db_file()
        },
{
    if env_loaded {
        if let Some(url) = database_url {
            return url;
        }
    }
    let home = home_dir.unwrap();
    home.concat("/.config/livelog/logs.sqlite")
}

} // verus!
