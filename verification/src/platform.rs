//! Resolution against the live platform.
//!
//! The platform's per-user data directory depends on the environment the
//! process runs in, so nothing certain can be promised of it; the
//! functions here state what holds of the resolution whatever the
//! platform answered.

use vstd::prelude::*;
use crate::config::{fallback_spec, resolve_spec, resolve_notes_root, default_notes_dir};
use crate::errors::NoteError;
use crate::text::trim_spec;
use crate::views::{opt_as_str, opt_view, res_view};

verus! {

/// Relies on dirs::data_dir for the platform's per-user data directory.
/// Its answer depends on the environment (on Linux, `XDG_DATA_HOME` or
/// the home directory), so no ensures pins it down.
#[verifier::external_body]
fn platform_data_dir() -> (r: Option<String>)
{
    dirs::data_dir().map(|p| p.to_string_lossy().into_owned())
}

/// Resolves the active notes root from the sidecar text and the live
/// platform data directory.
///
/// A sidecar value with non-empty trimmed text decides the result by
/// itself; otherwise the result is the fallback for whatever data
/// directory the platform reported, and the only possible error is
/// `ConfigurationError`.
pub fn resolve_notes_root_live(sidecar: Option<&str>) -> (r: Result<String, NoteError>)
    ensures
        exists|d: Option<Seq<char>>| res_view(r) == resolve_spec(opt_view(sidecar), d),
        (match opt_view(sidecar) {
            Some(s) => trim_spec(s).len() > 0 ==> res_view(r) == Ok::<Seq<char>, NoteError>(
                trim_spec(s),
            ),
            None => true,
        }),
        r is Err ==> r == Err::<String, NoteError>(NoteError::ConfigurationError),
{
    let data_dir = platform_data_dir();
    let ghost d = opt_view(data_dir);
    let r = resolve_notes_root(sidecar, opt_as_str(&data_dir));
    proof {
        assert(res_view(r) == resolve_spec(opt_view(sidecar), d));
    }
    r
}

/// The notes directory used when no override is configured, for the live
/// platform: the data directory the platform reported joined with the
/// fixed subfolder, or `ConfigurationError` when it reported none.
pub fn default_notes_dir_live() -> (r: Result<String, NoteError>)
    ensures
        exists|d: Option<Seq<char>>| res_view(r) == fallback_spec(d),
        r is Err ==> r == Err::<String, NoteError>(NoteError::ConfigurationError),
{
    let data_dir = platform_data_dir();
    let ghost d = opt_view(data_dir);
    let r = default_notes_dir(opt_as_str(&data_dir));
    proof {
        assert(res_view(r) == fallback_spec(d));
    }
    r
}

} // verus!
