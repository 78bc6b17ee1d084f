//! The verified core of a live development server for a module bundler.
//!
//! The server builds a project, serves what the build wrote, watches the
//! files the build depends on and rebuilds when they change.  The compiler,
//! the file-system watcher and the HTTP framework are outside collaborators;
//! this library holds the decisions that surround them: the order in which a
//! build cycle pauses, compiles and rearms, the lookup of an asset in the
//! output store, and the shape of the HTTP answers.

use vstd::prelude::*;

pub mod asset;
pub mod dev_routes;
pub mod order;
pub mod watcher;

verus! {

/// Why a configuration variable could not be read as text.
#[derive(Debug, Clone, Copy, PartialEq, Eq, Structural)]
pub enum VarError {
    /// The variable is not set.
    NotPresent,
    /// The variable is set, but its value is not valid Unicode.
    NotUnicode,
}

/// The address the server listens on where the configuration gives none.
pub open spec fn default_address() -> Seq<char> {
    "127.0.0.1:3000"@
}

/// The value of a configuration variable, or `default` where the variable
/// is not set or is set to nothing.
///
/// `value` is what reading the variable gave.  A value that is not empty is
/// handed on as it is, and so is every error but [`VarError::NotPresent`].
pub fn env(value: Result<String, VarError>, default: &str) -> (result: Result<String, VarError>)
    ensures
        match value {
            Ok(text) => result matches Ok(given) && given@ == if text@.len() == 0 {
                default@
            } else {
                text@
            },
            Err(VarError::NotPresent) => result matches Ok(given) && given@ == default@,
            Err(VarError::NotUnicode) => result == Err::<String, VarError>(VarError::NotUnicode),
        },
{
    match value {
        Ok(text) => {
            if text.as_str().is_empty() {
                Ok(default.to_owned())
            } else {
                Ok(text)
            }
        },
        Err(VarError::NotPresent) => Ok(default.to_owned()),
        Err(error) => Err(error),
    }
}

/// The address to listen on, in the form `host:port`.
///
/// `value` is what reading the variable that selects the address gave.
/// Where it is not set, or set to nothing, the address is the loopback
/// address on the default port.
pub fn listen_address(value: Result<String, VarError>) -> (result: Result<String, VarError>)
    ensures
        match value {
            Ok(text) => result matches Ok(given) && given@ == if text@.len() == 0 {
                default_address()
            } else {
                text@
            },
            Err(VarError::NotPresent) => result matches Ok(given) && given@ == default_address(),
            Err(VarError::NotUnicode) => result == Err::<String, VarError>(VarError::NotUnicode),
        },
{
    env(value, "127.0.0.1:3000")
}

} // verus!
