//! The laws that relate the library's operations to one another.

use vstd::prelude::*;
use crate::config::{default_root_spec, resolve_spec};
use crate::errors::NoteError;
use crate::paths::join_spec;
use crate::store::load_spec;
use crate::text::trim_spec;

verus! {

/// Saving a note and then loading the same relative path yields exactly
/// the saved content: on any store state whose root resolves, recording
/// `content` under `rel` and loading `rel` back, with the configuration
/// unchanged in between, gives `content`.
pub proof fn lemma_save_then_load_round_trip(
    files: Map<Seq<char>, Seq<char>>,
    sidecar: Option<Seq<char>>,
    data_dir: Option<Seq<char>>,
    rel: Seq<char>,
    content: Seq<char>,
)
    requires
        resolve_spec(sidecar, data_dir) is Ok,
    ensures
        load_spec(
            files.insert(join_spec(resolve_spec(sidecar, data_dir)->Ok_0, rel), content),
            sidecar,
            data_dir,
            Some(rel),
        ) == Ok::<Seq<char>, NoteError>(content),
{
}

/// Persisting a notes root and then resolving returns that root: for any
/// already-trimmed, non-empty directory text `dir`, a sidecar holding
/// exactly `dir` resolves to `dir`, whatever the platform reports.
pub proof fn lemma_persist_then_resolve(dir: Seq<char>, data_dir: Option<Seq<char>>)
    requires
        trim_spec(dir) == dir,
        dir.len() > 0,
    ensures
        resolve_spec(Some(dir), data_dir) == Ok::<Seq<char>, NoteError>(dir),
{
}

/// With the sidecar absent, resolution returns the platform data
/// directory joined with the fixed subfolder, deterministically for a
/// given platform.
pub proof fn lemma_resolve_without_sidecar(data_dir: Seq<char>)
    ensures
        resolve_spec(None, Some(data_dir)) == Ok::<Seq<char>, NoteError>(
            default_root_spec(data_dir),
        ),
{
}

/// A sidecar whose text is blank after trimming resolves exactly as an
/// absent sidecar does: blankness means "no override", never an error.
pub proof fn lemma_resolve_blank_sidecar(sidecar: Seq<char>, data_dir: Option<Seq<char>>)
    requires
        trim_spec(sidecar).len() == 0,
    ensures
        resolve_spec(Some(sidecar), data_dir) == resolve_spec(None, data_dir),
{
}

/// Saving the same content under the same path twice is idempotent: the
/// second save changes nothing in the stored files.
pub proof fn lemma_save_idempotent(
    files: Map<Seq<char>, Seq<char>>,
    root: Seq<char>,
    rel: Seq<char>,
    content: Seq<char>,
)
    ensures
        files.insert(join_spec(root, rel), content).insert(join_spec(root, rel), content)
            == files.insert(join_spec(root, rel), content),
{
    assert(files.insert(join_spec(root, rel), content).insert(join_spec(root, rel), content)
        =~= files.insert(join_spec(root, rel), content));
}

} // verus!
