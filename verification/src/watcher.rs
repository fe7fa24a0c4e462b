//! Decisions of the event source and the bootstrap scan.
//!
//! The live event source receives filesystem notifications and must decide
//! which reported paths enter the pipeline: only creation events count, and
//! only paths observed to denote regular files. The bootstrap scan applies
//! the same regular-file rule to a directory listing taken at startup. The
//! observations (event kind, per-path file check) come from the driver; the
//! selection itself is decided here, order kept.

use vstd::prelude::*;

verus! {

/// The kind of a filesystem notification, as the pipeline distinguishes
/// them.
#[derive(Clone, Copy)]
pub enum FsEventKind {
    /// Something was created.
    Create,
    /// Something was modified.
    Modify,
    /// Something was removed.
    Remove,
    /// Something was accessed.
    Access,
    /// Anything else the notification layer reports.
    Other,
}

/// A path as the driver observed it: its text and whether it denoted a
/// regular file at observation time.
pub struct ObservedPath {
    /// The observed path.
    pub path: String,
    /// Whether the path denoted a regular file when observed.
    pub is_regular_file: bool,
}

/// The paths of the regular-file entries, in order.
pub open spec fn spec_regular_paths(entries: Seq<ObservedPath>) -> Seq<Seq<char>>
    decreases entries.len(),
{
    if entries.len() == 0 {
        Seq::empty()
    } else {
        (if entries.first().is_regular_file {
            seq![entries.first().path@]
        } else {
            Seq::empty()
        }) + spec_regular_paths(entries.drop_first())
    }
}

proof fn lemma_regular_paths_snoc(entries: Seq<ObservedPath>, entry: ObservedPath)
    ensures
        spec_regular_paths(entries.push(entry)) == spec_regular_paths(entries) + (
        if entry.is_regular_file {
            seq![entry.path@]
        } else {
            Seq::<Seq<char>>::empty()
        }),
    decreases entries.len(),
{
    let tail = if entry.is_regular_file {
        seq![entry.path@]
    } else {
        Seq::<Seq<char>>::empty()
    };
    if entries.len() == 0 {
        assert(entries.push(entry).first() == entry);
        assert(entries.push(entry).drop_first() =~= Seq::<ObservedPath>::empty());
        assert(spec_regular_paths(Seq::<ObservedPath>::empty()) =~= Seq::<Seq<char>>::empty());
        assert(spec_regular_paths(entries.push(entry)) =~= spec_regular_paths(entries) + tail);
    } else {
        assert(entries.push(entry).first() == entries.first());
        assert(entries.push(entry).drop_first() =~= entries.drop_first().push(entry));
        lemma_regular_paths_snoc(entries.drop_first(), entry);
        assert(spec_regular_paths(entries.push(entry)) =~= spec_regular_paths(entries) + tail);
    }
}

/// Keep the entries that denoted regular files, in order: the bootstrap
/// scan's selection from a directory listing.
pub fn select_regular_files(entries: &Vec<ObservedPath>) -> (r: Vec<String>)
    ensures
        r.deep_view() == spec_regular_paths(entries@),
{
    let mut r: Vec<String> = Vec::new();
    let mut i: usize = 0;
    proof {
        assert(entries@.take(0) =~= Seq::<ObservedPath>::empty());
        assert(r.deep_view() =~= spec_regular_paths(entries@.take(0)));
    }
    while i < entries.len()
        invariant
            i <= entries@.len(),
            r.deep_view() == spec_regular_paths(entries@.take(i as int)),
        decreases entries@.len() - i,
    {
        proof {
            assert(entries@.take(i as int + 1) =~= entries@.take(i as int).push(
                entries@[i as int],
            ));
            lemma_regular_paths_snoc(entries@.take(i as int), entries@[i as int]);
        }
        if entries[i].is_regular_file {
            let ghost before = r.deep_view();
            r.push(entries[i].path.clone());
            assert(r.deep_view() =~= before.push(entries@[i as int].path@));
        }
        assert(r.deep_view() =~= spec_regular_paths(entries@.take(i as int + 1)));
        i = i + 1;
    }
    proof {
        assert(entries@.take(entries@.len() as int) =~= entries@);
    }
    r
}

/// Decide which of a notification's paths enter the pipeline: only a
/// creation event feeds it, and of its paths only those that denoted
/// regular files, in order. Every other event contributes nothing.
pub fn creation_event_paths(kind: FsEventKind, paths: &Vec<ObservedPath>) -> (r: Vec<String>)
    ensures
        kind is Create ==> r.deep_view() == spec_regular_paths(paths@),
        !(kind is Create) ==> r@ == Seq::<String>::empty(),
{
    match kind {
        FsEventKind::Create => select_regular_files(paths),
        _ => Vec::new(),
    }
}

} // verus!
