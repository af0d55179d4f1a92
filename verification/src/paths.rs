//! Where the configuration file lies.

use vstd::prelude::*;

verus! {

/// The path that `std::path::Path::join` makes of a path and a component, by
/// the path rules of the platform that the crate is built for. Nothing more
/// is said of it here than that it depends on the two alone.
pub uninterp spec fn joined(base: Seq<char>, component: Seq<char>) -> Seq<char>;

/// Trusted, not proved: calls `std::path::Path::join` on `base` with
/// `component`. The contract claims only that the result is the path named
/// `joined` of the two texts. Both are valid UTF-8, so the result is too and
/// the conversion back to a `String` changes nothing.
#[verifier::external_body]
fn join(base: &str, component: &str) -> (path: String)
    ensures
        path@ == joined(base@, component@),
{
    std::path::Path::new(base).join(component).to_string_lossy().into_owned()
}

/// Trusted, not proved: calls `home::home_dir`, which asks the environment
/// and the operating system for the home directory of the current user.
/// Nothing is claimed of the result. A home directory whose path is not
/// valid UTF-8 is given as `None`, like a missing one.
#[verifier::external_body]
fn home_directory() -> (home: Option<String>) {
    match home::home_dir() {
        Some(dir) => dir.into_os_string().into_string().ok(),
        None => None,
    }
}

/// The directory of the configuration file for a home directory:
/// `.config/topaz` below it.
pub open spec fn config_dir_path(home: Seq<char>) -> Seq<char> {
    joined(joined(home, ".config"@), "topaz"@)
}

/// The configuration file for a home directory: `topaz.conf` in the
/// directory of `config_dir_path`.
pub open spec fn config_file_path(home: Seq<char>) -> Seq<char> {
    joined(config_dir_path(home), "topaz.conf"@)
}

/// The directory that holds the configuration file of the user whose home
/// directory is `home`.
pub fn config_dir_under(home: &str) -> (dir: String)
    ensures
        dir@ == config_dir_path(home@),
{
    let dot_config = join(home, ".config");
    join(dot_config.as_str(), "topaz")
}

/// The configuration file of the user whose home directory is `home`.
pub fn config_file_under(home: &str) -> (file: String)
    ensures
        file@ == config_file_path(home@),
{
    let dir = config_dir_under(home);
    join(dir.as_str(), "topaz.conf")
}

/// The configuration file for a home directory that may be unknown.
pub fn config_file_for(home: Option<String>) -> (file: Option<String>)
    ensures
        match home {
            Some(h) => file matches Some(f) && f@ == config_file_path(h@),
            None => file is None,
        },
{
    match home {
        Some(h) => Some(config_file_under(h.as_str())),
        None => None,
    }
}

/// The configuration file of the current user, or `None` where the home
/// directory cannot be told.
pub fn locate_config_file() -> (file: Option<String>)
    ensures
        file matches Some(f) ==> exists|home: Seq<char>| f@ == #[trigger] config_file_path(home),
{
    config_file_for(home_directory())
}

} // verus!
