//! Error type for profile lookup, variable expansion and launch planning.

use vstd::prelude::*;

verus! {

/// Failure of a launch attempt. Every variant is fatal to the invocation.
#[derive(Debug)]
pub enum RunError {
    /// No profile is registered under the attempted path.
    NoProfile(String),
    /// A shell variable in a profile value could not be expanded; the string
    /// is the expander's own description of the failure.
    Expand(String),
    /// The per-user cache directory, which holds the entrypoint script,
    /// could not be located.
    NoCacheDir,
}

impl RunError {
    /// User-facing message for this error.
    pub fn message(&self) -> (r: String)
        ensures
            self matches RunError::NoProfile(p) ==> r@ == "no profile: "@ + p@,
            self matches RunError::Expand(m) ==> r@ == m@,
            self matches RunError::NoCacheDir ==> r@ == (
            "can't locate cache dir (do you need to define the HOME environment variable?)"@),
    {
        match self {
            RunError::NoProfile(p) => {
                let mut r = "no profile: ".to_owned();
                r.append(p.as_str());
                r
            },
            RunError::Expand(m) => m.clone(),
            RunError::NoCacheDir => {
                "can't locate cache dir (do you need to define the HOME environment variable?)".to_owned()
            },
        }
    }
}

} // verus!
