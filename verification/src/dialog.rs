//! Classification of native picker outcomes.
//!
//! The native file and folder pickers deliver their result through a
//! one-shot completion callback. The host adapts that callback into a
//! single received event; this module gives the event its meaning.

use vstd::prelude::*;
use crate::errors::NoteError;
use crate::views::res_view;

verus! {

/// What a single run of a native picker dialog delivered.
pub enum DialogEvent {
    /// The user selected this path.
    Selected(String),
    /// The user dismissed the dialog without a selection.
    Dismissed,
    /// The completion channel closed before any selection arrived, for
    /// example because the host window was destroyed mid-dialog.
    Closed,
}

/// The result of a file-picker run: the selected path, or `Cancelled`
/// when the dialog was dismissed, or `DialogError` when the picker
/// subsystem failed.
pub fn pick_file_outcome(event: DialogEvent) -> (r: Result<String, NoteError>)
    ensures
        (match event {
            DialogEvent::Selected(p) => res_view(r) == Ok::<Seq<char>, NoteError>(p@),
            DialogEvent::Dismissed => res_view(r) == Err::<Seq<char>, NoteError>(
                NoteError::Cancelled,
            ),
            DialogEvent::Closed => res_view(r) == Err::<Seq<char>, NoteError>(
                NoteError::DialogError,
            ),
        }),
{
    match event {
        DialogEvent::Selected(p) => Ok(p),
        DialogEvent::Dismissed => Err(NoteError::Cancelled),
        DialogEvent::Closed => Err(NoteError::DialogError),
    }
}

} // verus!
