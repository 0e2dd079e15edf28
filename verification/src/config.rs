//! Resolution of the active notes root directory.
//!
//! The root is re-resolved on every operation from two inputs: the text of
//! the sidecar configuration file (if that file exists) and the platform's
//! per-user data directory (if the platform defines one). A sidecar value
//! whose trimmed text is non-empty overrides the platform default; a
//! missing or blank sidecar is treated as "no override", never as an
//! error.

use vstd::prelude::*;
use crate::errors::NoteError;
use crate::paths::{join_spec, join_path};
use crate::text::{trim, trim_spec};
use crate::views::{opt_view, res_view};

verus! {

/// The fixed subfolder under the platform data directory that holds the
/// notes when no override is configured.
pub open spec fn default_root_spec(data_dir: Seq<char>) -> Seq<char> {
    join_spec(data_dir, "minnote"@)
}

/// The root used when the sidecar configuration gives no override: the
/// platform data directory joined with the fixed subfolder, or a
/// configuration error when the platform defines no such directory.
pub open spec fn fallback_spec(data_dir: Option<Seq<char>>) -> Result<Seq<char>, NoteError> {
    match data_dir {
        Some(d) => Ok(default_root_spec(d)),
        None => Err(NoteError::ConfigurationError),
    }
}

/// The active notes root: the trimmed sidecar text when it is non-empty,
/// otherwise the fallback root.
pub open spec fn resolve_spec(
    sidecar: Option<Seq<char>>,
    data_dir: Option<Seq<char>>,
) -> Result<Seq<char>, NoteError> {
    match sidecar {
        Some(s) => if trim_spec(s).len() > 0 {
            Ok(trim_spec(s))
        } else {
            fallback_spec(data_dir)
        },
        None => fallback_spec(data_dir),
    }
}

/// The name of the sidecar configuration file, relative to the process
/// working directory.
pub fn sidecar_file_name() -> (r: String)
    ensures
        r@ == "notes_dir.txt"@,
{
    String::from_str("notes_dir.txt")
}

/// Resolves the active notes root from the sidecar text and the platform
/// data directory.
///
/// `sidecar` is the contents of the sidecar configuration file, or `None`
/// when that file is absent or unreadable; `data_dir` is the platform's
/// per-user data directory, or `None` when the platform defines none.
pub fn resolve_notes_root(sidecar: Option<&str>, data_dir: Option<&str>) -> (r: Result<
    String,
    NoteError,
>)
    ensures
        res_view(r) == resolve_spec(opt_view(sidecar), opt_view(data_dir)),
{
    if let Some(s) = sidecar {
        let t = trim(s);
        if t.unicode_len() > 0 {
            return Ok(String::from_str(t));
        }
    }
    default_notes_dir(data_dir)
}

/// The notes directory used when no override is configured.
///
/// This is also the directory that the "open in system file browser"
/// action targets: that action does not honour the sidecar override, an
/// asymmetry kept from the behaviour it models.
pub fn default_notes_dir(data_dir: Option<&str>) -> (r: Result<String, NoteError>)
    ensures
        res_view(r) == fallback_spec(opt_view(data_dir)),
{
    match data_dir {
        Some(d) => Ok(join_path(d, "minnote")),
        None => Err(NoteError::ConfigurationError),
    }
}

} // verus!
