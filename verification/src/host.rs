//! Trusted wrappers around host-dependent calls: shell-variable expansion,
//! path canonicalization, per-user directories, process identity and
//! terminal detection. Each result depends on the environment, the
//! filesystem or the process, so the contracts state only what holds of
//! every outcome.

use vstd::prelude::*;

verus! {

/// Whether a string contains no expansion markers: no `$` anywhere and no
/// leading `~`.
pub open spec fn no_expansion_markers(s: Seq<char>) -> bool {
    (forall|i: int| 0 <= i < s.len() ==> s[i] != '$') && (s.len() == 0 || s[0] != '~')
}

/// Relies on shellexpand::full: tilde and environment-variable expansion in
/// the system context. A string without a `$` and without a leading `~`
/// contains nothing to expand and comes back unchanged; otherwise the result
/// depends on the environment. On failure the error's description is
/// returned.
#[verifier::external_body]
pub(crate) fn expand_full(s: &String) -> (r: Result<String, String>)
    ensures
        no_expansion_markers(s@) ==> r is Ok,
        r matches Ok(o) ==> (no_expansion_markers(s@) ==> o@ == s@),
{
    match shellexpand::full(s.as_str()) {
        Ok(expanded) => Ok(expanded.to_string()),
        Err(err) => Err(format!("{}", err)),
    }
}

/// Relies on std::path::Path::canonicalize: the canonical absolute form of
/// an existing path, `None` where the path cannot be resolved or is not
/// valid unicode. The result depends on the filesystem.
#[verifier::external_body]
pub(crate) fn canonicalize_path(s: &String) -> (r: Option<String>)
{
    match std::path::Path::new(s.as_str()).canonicalize() {
        Ok(path) => path.to_str().map(|p| p.to_owned()),
        Err(_) => None,
    }
}

/// Relies on dirs::config_dir: the per-user configuration directory, `None`
/// where it cannot be located or is not valid unicode. The result depends on
/// the environment.
#[verifier::external_body]
pub(crate) fn config_dir() -> (r: Option<String>)
{
    dirs::config_dir().and_then(|p| p.to_str().map(|s| s.to_owned()))
}

/// Relies on dirs::cache_dir: the per-user cache directory, `None` where it
/// cannot be located or is not valid unicode. The result depends on the
/// environment.
#[verifier::external_body]
pub(crate) fn cache_dir() -> (r: Option<String>)
{
    dirs::cache_dir().and_then(|p| p.to_str().map(|s| s.to_owned()))
}

/// Relies on users::get_effective_uid: the effective user id of this
/// process.
#[verifier::external_body]
pub(crate) fn effective_uid() -> (r: u32)
{
    users::get_effective_uid()
}

/// Relies on users::get_effective_gid: the effective group id of this
/// process.
#[verifier::external_body]
pub(crate) fn effective_gid() -> (r: u32)
{
    users::get_effective_gid()
}

/// Relies on crossterm::tty::IsTty: whether standard input is attached to a
/// terminal.
#[verifier::external_body]
pub(crate) fn stdin_is_tty() -> (r: bool)
{
    crossterm::tty::IsTty::is_tty(&std::io::stdin())
}

} // verus!
