//! The note store: a root-configurable map from note paths to contents.
//!
//! A `NoteStore` models the file-system state the library's operations
//! depend on: the note files already written (as a map from absolute path
//! to content), the sidecar configuration text, and the platform data
//! directory. Every operation re-resolves the root from the configuration
//! fields, as the file-backed operations do from disk.

use vstd::prelude::*;
use crate::config::{resolve_spec, resolve_notes_root};
use crate::dialog::DialogEvent;
use crate::errors::NoteError;
use crate::paths::{join_spec, join_path};
use crate::views::{opt_as_str, opt_view, res_view};

verus! {

/// The map that a sequence of path/content entries denotes, later entries
/// overriding earlier ones.
pub open spec fn entries_map(s: Seq<(String, String)>) -> Map<Seq<char>, Seq<char>>
    decreases s.len(),
{
    if s.len() == 0 {
        Map::empty()
    } else {
        entries_map(s.drop_last()).insert(s.last().0@, s.last().1@)
    }
}

/// An entry sequence whose suffix from `i` on never mentions the key `k`
/// denotes, at `k`, the same thing as its prefix up to `i`.
proof fn lemma_entries_map_prefix(s: Seq<(String, String)>, i: int, k: Seq<char>)
    requires
        0 <= i <= s.len(),
        forall|j: int| i <= j < s.len() ==> s[j].0@ != k,
    ensures
        entries_map(s).contains_key(k) == entries_map(s.subrange(0, i)).contains_key(k),
        entries_map(s).contains_key(k) ==> entries_map(s)[k] == entries_map(s.subrange(0, i))[k],
    decreases s.len() - i,
{
    if i == s.len() {
        assert(s.subrange(0, i) =~= s);
    } else {
        lemma_entries_map_prefix(s, i + 1, k);
        assert(s.subrange(0, i + 1).drop_last() =~= s.subrange(0, i));
        assert(s.subrange(0, i + 1).last() == s[i]);
    }
}

/// The result that loading a note yields on a given store state: an empty
/// content when no path is supplied, else the stored content of the
/// composed path under the resolved root, a missing note or a failed
/// resolution each reported as the corresponding error.
pub open spec fn load_spec(
    files: Map<Seq<char>, Seq<char>>,
    sidecar: Option<Seq<char>>,
    data_dir: Option<Seq<char>>,
    rel: Option<Seq<char>>,
) -> Result<Seq<char>, NoteError> {
    match rel {
        None => Ok(Seq::empty()),
        Some(p) => match resolve_spec(sidecar, data_dir) {
            Ok(root) => if files.contains_key(join_spec(root, p)) {
                Ok(files[join_spec(root, p)])
            } else {
                Err(NoteError::IoError)
            },
            Err(e) => Err(e),
        },
    }
}

/// The note files under a root directory, together with the configuration
/// that selects that root.
pub struct NoteStore {
    files: Vec<(String, String)>,
    sidecar: Option<String>,
    data_dir: Option<String>,
}

impl NoteStore {
    /// The note files already written, as a map from absolute path to
    /// content.
    pub closed spec fn files_view(&self) -> Map<Seq<char>, Seq<char>> {
        entries_map(self.files@)
    }

    /// The contents of the sidecar configuration file, or `None` when the
    /// file is absent.
    pub closed spec fn sidecar_view(&self) -> Option<Seq<char>> {
        opt_view(self.sidecar)
    }

    /// The platform's per-user data directory, or `None` when the
    /// platform defines none.
    pub closed spec fn data_dir_view(&self) -> Option<Seq<char>> {
        opt_view(self.data_dir)
    }

    /// A store with no notes written yet, under the given configuration.
    pub fn new(sidecar: Option<String>, data_dir: Option<String>) -> (r: NoteStore)
        ensures
            r.files_view() == Map::<Seq<char>, Seq<char>>::empty(),
            r.sidecar_view() == opt_view(sidecar),
            r.data_dir_view() == opt_view(data_dir),
    {
        NoteStore { files: Vec::new(), sidecar, data_dir }
    }

    /// The stored content of the note at the absolute path `key`, if any.
    fn get_file(&self, key: &String) -> (r: Option<String>)
        ensures
            (match r {
                Some(c) => self.files_view().contains_key(key@) && c@ == self.files_view()[key@],
                None => !self.files_view().contains_key(key@),
            }),
    {
        let mut i: usize = self.files.len();
        while i > 0
            invariant
                i <= self.files.len(),
                forall|j: int| i <= j < self.files@.len() ==> self.files@[j].0@ != key@,
            decreases i,
        {
            i = i - 1;
            if self.files[i].0 == *key {
                proof {
                    lemma_entries_map_prefix(self.files@, i + 1, key@);
                    assert(self.files@.subrange(0, i + 1).drop_last() =~= self.files@.subrange(
                        0,
                        i as int,
                    ));
                    assert(self.files@.subrange(0, i + 1).last() == self.files@[i as int]);
                }
                return Some(self.files[i].1.clone());
            }
        }
        proof {
            lemma_entries_map_prefix(self.files@, 0, key@);
            assert(self.files@.subrange(0, 0) =~= Seq::<(String, String)>::empty());
        }
        None
    }

    /// Records `content` as the note at the absolute path `key`,
    /// overwriting any previous content in full.
    fn set_file(&mut self, key: String, content: String)
        ensures
            final(self).files_view() == old(self).files_view().insert(key@, content@),
            final(self).sidecar_view() == old(self).sidecar_view(),
            final(self).data_dir_view() == old(self).data_dir_view(),
    {
        let ghost before = self.files@;
        self.files.push((key, content));
        proof {
            assert(self.files@.drop_last() =~= before);
        }
    }

    /// The active notes root directory under this configuration.
    pub fn get_notes_directory(&self) -> (r: Result<String, NoteError>)
        ensures
            res_view(r) == resolve_spec(self.sidecar_view(), self.data_dir_view()),
    {
        resolve_notes_root(opt_as_str(&self.sidecar), opt_as_str(&self.data_dir))
    }

    /// Overwrites the sidecar configuration with exactly `dir`, with no
    /// trimming and no check that the directory exists.
    pub fn persist_notes_root(&mut self, dir: &str)
        ensures
            final(self).sidecar_view() == Some(dir@),
            final(self).files_view() == old(self).files_view(),
            final(self).data_dir_view() == old(self).data_dir_view(),
    {
        self.sidecar = Some(String::from_str(dir));
    }

    /// Saves `content` as the note at the relative path `rel` under the
    /// resolved root, overwriting any previous content in full; succeeds
    /// exactly when the root resolves.
    pub fn save_note(&mut self, rel: &str, content: &str) -> (r: Result<(), NoteError>)
        ensures
            final(self).sidecar_view() == old(self).sidecar_view(),
            final(self).data_dir_view() == old(self).data_dir_view(),
            (match resolve_spec(old(self).sidecar_view(), old(self).data_dir_view()) {
                Ok(root) => r == Ok::<(), NoteError>(()) && final(self).files_view() == old(
                    self,
                ).files_view().insert(join_spec(root, rel@), content@),
                Err(e) => r == Err::<(), NoteError>(e) && final(self).files_view() == old(
                    self,
                ).files_view(),
            }),
    {
        let root = match self.get_notes_directory() {
            Ok(root) => root,
            Err(e) => {
                return Err(e);
            },
        };
        let full = join_path(root.as_str(), rel);
        self.set_file(full, String::from_str(content));
        Ok(())
    }

    /// Loads the note at the relative path `rel` under the resolved root;
    /// with no path supplied, yields an empty content and never an error.
    pub fn load_note(&self, rel: Option<&str>) -> (r: Result<String, NoteError>)
        ensures
            res_view(r) == load_spec(
                self.files_view(),
                self.sidecar_view(),
                self.data_dir_view(),
                opt_view(rel),
            ),
    {
        let p = match rel {
            Some(p) => p,
            None => {
                return Ok(String::new());
            },
        };
        let root = match self.get_notes_directory() {
            Ok(root) => root,
            Err(e) => {
                return Err(e);
            },
        };
        let full = join_path(root.as_str(), p);
        match self.get_file(&full) {
            Some(content) => Ok(content),
            None => Err(NoteError::IoError),
        }
    }

    /// Applies the outcome of the directory picker: a selected directory
    /// is persisted as the new notes root and returned, a dismissal or a
    /// picker failure leaves the configuration unchanged and reports the
    /// corresponding error.
    pub fn select_notes_directory(&mut self, event: DialogEvent) -> (r: Result<String, NoteError>)
        ensures
            final(self).files_view() == old(self).files_view(),
            final(self).data_dir_view() == old(self).data_dir_view(),
            (match event {
                DialogEvent::Selected(p) => res_view(r) == Ok::<Seq<char>, NoteError>(p@)
                    && final(self).sidecar_view() == Some(p@),
                DialogEvent::Dismissed => res_view(r) == Err::<Seq<char>, NoteError>(
                    NoteError::Cancelled,
                ) && final(self).sidecar_view() == old(self).sidecar_view(),
                DialogEvent::Closed => res_view(r) == Err::<Seq<char>, NoteError>(
                    NoteError::DialogError,
                ) && final(self).sidecar_view() == old(self).sidecar_view(),
            }),
    {
        match event {
            DialogEvent::Selected(p) => {
                self.persist_notes_root(p.as_str());
                Ok(p)
            },
            DialogEvent::Dismissed => Err(NoteError::Cancelled),
            DialogEvent::Closed => Err(NoteError::DialogError),
        }
    }
}

} // verus!
