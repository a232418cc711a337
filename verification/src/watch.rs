//! Which filesystem notifications become change events.

use vstd::prelude::*;
use crate::ignore::texts;

verus! {

/// The kind of a raw filesystem notification.
#[derive(Debug, Clone, Copy, PartialEq, Eq, Structural)]
pub enum RawKind {
    Access,
    Create,
    /// A change of content or metadata in place.
    Modify,
    /// A change of name: the file was moved from or to this path.
    Rename,
    Remove,
    Other,
}

/// The kind of a change that is forwarded.
#[derive(Debug, Clone, Copy, PartialEq, Eq, Structural)]
pub enum ChangeKind {
    Created,
    Modified,
}

/// A path named by a notification, and whether a regular file stands there.
#[derive(Debug, Clone, PartialEq, Eq)]
pub struct Candidate {
    pub path: String,
    pub is_file: bool,
}

/// A change to forward to the debouncer.
#[derive(Debug, Clone, PartialEq, Eq)]
pub struct ChangeEvent {
    pub absolute_path: String,
    pub kind: ChangeKind,
}

/// The change that a raw kind stands for: only creations and modifications
/// are surfaced; removals and renames are dropped.
pub open spec fn surfaced_spec(kind: RawKind) -> Option<ChangeKind> {
    match kind {
        RawKind::Create => Some(ChangeKind::Created),
        RawKind::Modify => Some(ChangeKind::Modified),
        _ => None,
    }
}

/// The change that a raw kind stands for, if it is surfaced at all.
pub fn surfaced_kind(kind: RawKind) -> (r: Option<ChangeKind>)
    ensures
        r == surfaced_spec(kind),
{
    match kind {
        RawKind::Create => Some(ChangeKind::Created),
        RawKind::Modify => Some(ChangeKind::Modified),
        _ => None,
    }
}

/// The paths of the regular files among the candidates, in order.
pub open spec fn files_of(candidates: Seq<Candidate>) -> Seq<Seq<char>>
    decreases candidates.len(),
{
    if candidates.len() == 0 {
        Seq::empty()
    } else if candidates.last().is_file {
        files_of(candidates.drop_last()).push(candidates.last().path@)
    } else {
        files_of(candidates.drop_last())
    }
}

/// The paths of the regular files among the candidates, in order:
/// directories and whatever else is no regular file are left out.
pub fn regular_files(candidates: &Vec<Candidate>) -> (r: Vec<String>)
    ensures
        texts(r@) == files_of(candidates@),
{
    let mut files: Vec<String> = Vec::new();
    let mut i: usize = 0;
    while i < candidates.len()
        invariant
            i <= candidates.len(),
            texts(files@) == files_of(candidates@.take(i as int)),
        decreases candidates.len() - i,
    {
        assert(candidates@.take(i as int + 1).drop_last() =~= candidates@.take(i as int));
        let ghost before = texts(files@);
        if candidates[i].is_file {
            files.push(candidates[i].path.clone());
            assert(texts(files@) =~= before.push(candidates@[i as int].path@));
        }
        i += 1;
    }
    assert(candidates@.take(i as int) =~= candidates@);
    files
}

/// The change events of one notification: one for each regular file among
/// its paths, in order, where the kind is surfaced; none otherwise.
pub fn change_events(kind: RawKind, candidates: &Vec<Candidate>) -> (r: Vec<ChangeEvent>)
    ensures
        surfaced_spec(kind) is None ==> r@.len() == 0,
        surfaced_spec(kind) matches Some(change) ==> {
            &&& r@.len() == files_of(candidates@).len()
            &&& forall|i: int|
                0 <= i < r@.len() ==> (#[trigger] r@[i]).kind == change && r@[i].absolute_path@
                    == files_of(candidates@)[i]
        },
{
    let mut events: Vec<ChangeEvent> = Vec::new();
    let change = match surfaced_kind(kind) {
        Some(change) => change,
        None => {
            return events;
        },
    };
    let files = regular_files(candidates);
    let mut i: usize = 0;
    while i < files.len()
        invariant
            i <= files.len(),
            texts(files@) == files_of(candidates@),
            events@.len() == i,
            forall|k: int|
                0 <= k < i ==> (#[trigger] events@[k]).kind == change && events@[k].absolute_path@
                    == files_of(candidates@)[k],
        decreases files.len() - i,
    {
        assert(texts(files@)[i as int] == files@[i as int]@);
        events.push(ChangeEvent { absolute_path: files[i].clone(), kind: change });
        i += 1;
    }
    events
}

} // verus!
