//! Resolving the watched directory: the one the user gave, or the
//! platform's music folder under the home directory.

use vstd::prelude::*;

verus! {

/// Relies on dirs::home_dir: it returns the platform home directory, a
/// value of the environment about which nothing further can be promised.
/// The path is handed on as a plain string.
#[verifier::external_body]
fn home_dir_string() -> (r: Option<String>)
{
    dirs::home_dir().map(|p| p.to_string_lossy().into_owned())
}

/// The music folder under a home directory: `<home>/Music`, or `None`
/// when no home directory was found.
pub fn music_dir_under(home: Option<String>) -> (r: Option<String>)
    ensures
        match home {
            Some(h) => r matches Some(d) && d@ == h@ + "/Music"@,
            None => r is None,
        },
{
    match home {
        Some(h) => Some(h.concat("/Music")),
        None => None,
    }
}

/// The default watched directory: the `Music` folder under the platform
/// home directory, or `None` when no home directory can be found.
pub fn get_default_directory() -> (r: Option<String>)
    ensures
        match r {
            Some(d) => exists|home: Seq<char>| d@ == home + "/Music"@,
            None => true,
        },
{
    music_dir_under(home_dir_string())
}

/// The directory the player watches: the one given on the command line
/// when there is one, else the default music directory, else none — a
/// fatal startup condition.
pub fn resolve_directory(provided: Option<String>) -> (r: Option<String>)
    ensures
        provided is Some ==> r == provided,
        provided is None ==> match r {
            Some(d) => exists|home: Seq<char>| d@ == home + "/Music"@,
            None => true,
        },
{
    match provided {
        Some(d) => Some(d),
        None => get_default_directory(),
    }
}

} // verus!
