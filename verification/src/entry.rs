//! What the evaluator is told of the world: the entry under test, the clock,
//! and the reference files looked up so far.

use vstd::prelude::*;
use crate::ast::FileType;

verus! {

/// A point in time, counted from the Unix epoch: `secs` whole seconds and
/// `nanos` nanoseconds more. A time before the epoch has negative `secs`.
#[derive(Debug, Clone, Copy, PartialEq, Eq)]
pub struct Timestamp {
    pub secs: i64,
    pub nanos: u32,
}

impl Timestamp {
    /// The nanoseconds from the epoch to this point.
    pub open spec fn total_nanos(self) -> int {
        self.secs * 1_000_000_000 + self.nanos
    }

    /// The nanoseconds from the epoch to this point.
    pub fn nanos_since_epoch(&self) -> (total: i128)
        ensures
            total == self.total_nanos(),
    {
        (self.secs as i128) * 1_000_000_000 + (self.nanos as i128)
    }

    /// The point that lies `secs` seconds and `nanos` nanoseconds after the
    /// epoch; `None` where the seconds do not fit.
    pub fn after_epoch(secs: u64, nanos: u32) -> (point: Option<Timestamp>)
        ensures
            match point {
                Some(t) => t.total_nanos() == secs * 1_000_000_000 + nanos,
                None => secs > i64::MAX,
            },
    {
        if secs > i64::MAX as u64 {
            None
        } else {
            Some(Timestamp { secs: secs as i64, nanos })
        }
    }

    /// The point that lies `secs` seconds and `nanos` nanoseconds before the
    /// epoch; `None` where the seconds do not fit.
    pub fn before_epoch(secs: u64, nanos: u32) -> (point: Option<Timestamp>)
        ensures
            match point {
                Some(t) => t.total_nanos() == -(secs * 1_000_000_000 + nanos),
                None => secs + nanos / 1_000_000_000 >= i64::MAX,
            },
    {
        let whole: u128 = (secs as u128) + ((nanos / 1_000_000_000) as u128);
        let part: u32 = nanos % 1_000_000_000;
        if whole >= i64::MAX as u128 {
            None
        } else if part == 0 {
            Some(Timestamp { secs: -(whole as i64), nanos: 0 })
        } else {
            Some(Timestamp { secs: -(whole as i64) - 1, nanos: 1_000_000_000 - part })
        }
    }

    /// Whether this point lies after `other`.
    pub fn is_after(&self, other: &Timestamp) -> (later: bool)
        ensures
            later == (self.total_nanos() > other.total_nanos()),
    {
        self.nanos_since_epoch() > other.nanos_since_epoch()
    }
}

/// The three times that an entry records.
#[derive(Debug, Clone, Copy, PartialEq, Eq)]
pub enum TimeKind {
    Accessed,
    Created,
    Modified,
}

/// Who owns an entry, and its mode bits; known on Unix hosts only.
#[derive(Debug, Clone, Copy, PartialEq, Eq)]
pub struct Ownership {
    pub uid: u32,
    pub gid: u32,
    pub mode: u32,
}

/// What the filesystem reports of one entry. A field is `None` where the
/// host does not record it.
#[derive(Debug, Clone, Copy, PartialEq, Eq)]
pub struct Metadata {
    /// The length in bytes.
    pub len: u64,
    /// The kind of entry, where it is one of those that `-type` knows.
    pub file_type: Option<FileType>,
    pub accessed: Option<Timestamp>,
    pub created: Option<Timestamp>,
    pub modified: Option<Timestamp>,
    pub owner: Option<Ownership>,
}

impl Metadata {
    /// The time of the given kind.
    pub open spec fn stamp(self, kind: TimeKind) -> Option<Timestamp> {
        match kind {
            TimeKind::Accessed => self.accessed,
            TimeKind::Created => self.created,
            TimeKind::Modified => self.modified,
        }
    }

    /// The time of the given kind.
    pub fn time(&self, kind: TimeKind) -> (stamp: Option<Timestamp>)
        ensures
            stamp == self.stamp(kind),
    {
        match kind {
            TimeKind::Accessed => self.accessed,
            TimeKind::Created => self.created,
            TimeKind::Modified => self.modified,
        }
    }
}

/// One candidate entry, as the directory walker hands it over.
#[derive(Debug, Clone, PartialEq, Eq)]
pub struct Entry {
    /// The whole path.
    pub path: String,
    /// The last component of the path.
    pub file_name: String,
    /// The entry's metadata; `None` where it could not be read.
    pub metadata: Option<Metadata>,
    /// The name of the owning user; `None` where it could not be resolved.
    pub user_name: Option<String>,
    /// The name of the owning group; `None` where it could not be resolved.
    pub group_name: Option<String>,
}

/// What an [`Entry`] says.
pub struct EntryView {
    pub path: Seq<char>,
    pub file_name: Seq<char>,
    pub metadata: Option<Metadata>,
    pub user_name: Option<Seq<char>>,
    pub group_name: Option<Seq<char>>,
}

/// What an optional string says.
pub open spec fn text_of(s: Option<String>) -> Option<Seq<char>> {
    match s {
        Some(s) => Some(s@),
        None => None,
    }
}

impl View for Entry {
    type V = EntryView;

    open spec fn view(&self) -> EntryView {
        EntryView {
            path: self.path@,
            file_name: self.file_name@,
            metadata: self.metadata,
            user_name: text_of(self.user_name),
            group_name: text_of(self.group_name),
        }
    }
}

/// The answer to one lookup of a reference file: its metadata, or `None`
/// where the file could not be read.
#[derive(Debug, Clone, PartialEq, Eq)]
pub struct Reference {
    pub path: String,
    pub metadata: Option<Metadata>,
}

/// What a [`Reference`] says.
pub struct ReferenceView {
    pub path: Seq<char>,
    pub metadata: Option<Metadata>,
}

impl View for Reference {
    type V = ReferenceView;

    open spec fn view(&self) -> ReferenceView {
        ReferenceView { path: self.path@, metadata: self.metadata }
    }
}

/// The state of the world around the entry: the time of the evaluation and
/// the reference files looked up so far.
#[derive(Debug, Clone, PartialEq, Eq)]
pub struct Context {
    pub now: Timestamp,
    pub references: Vec<Reference>,
}

/// What a [`Context`] says.
pub struct ContextView {
    pub now: Timestamp,
    pub references: Seq<ReferenceView>,
}

/// The views of a list of answers, in order.
pub open spec fn reference_views(references: Seq<Reference>) -> Seq<ReferenceView> {
    references.map_values(|r: Reference| r@)
}

impl View for Context {
    type V = ContextView;

    open spec fn view(&self) -> ContextView {
        ContextView { now: self.now, references: reference_views(self.references@) }
    }
}

/// The first answer among `references` to a lookup of `path`, if there is
/// one.
pub open spec fn answer(references: Seq<ReferenceView>, path: Seq<char>) -> Option<
    Option<Metadata>,
>
    decreases references.len(),
{
    if references.len() == 0 {
        None
    } else if references[0].path == path {
        Some(references[0].metadata)
    } else {
        answer(references.skip(1), path)
    }
}

/// The metadata of the reference file `path`, as far as `references` tell:
/// `None` where the file was not looked up or could not be read.
pub open spec fn reference_metadata(references: Seq<ReferenceView>, path: Seq<char>) -> Option<
    Metadata,
> {
    match answer(references, path) {
        Some(found) => found,
        None => None,
    }
}

impl Context {
    /// A context at time `now` in which no reference file has been looked up.
    pub fn new(now: Timestamp) -> (ctx: Context)
        ensures
            ctx@.now == now,
            ctx@.references.len() == 0,
    {
        Context { now, references: Vec::new() }
    }

    /// Records the answer to a lookup of `path`. An earlier answer for the
    /// same path stays the one that counts.
    pub fn record(&mut self, path: String, metadata: Option<Metadata>)
        ensures
            final(self)@.now == old(self)@.now,
            final(self)@.references == old(self)@.references.push(
                ReferenceView { path: path@, metadata },
            ),
    {
        let ghost before = self.references@;
        self.references.push(Reference { path, metadata });
        assert(reference_views(self.references@) =~= reference_views(before).push(
            ReferenceView { path: path@, metadata },
        ));
    }

    /// The first answer recorded for `path`, if there is one.
    pub fn find(&self, path: &String) -> (found: Option<Option<Metadata>>)
        ensures
            found == answer(self@.references, path@),
    {
        let ghost all = self@.references;
        let mut i: usize = 0;
        assert(all.skip(0) =~= all);
        while i < self.references.len()
            invariant
                i <= self.references.len(),
                all == reference_views(self.references@),
                answer(all, path@) == answer(all.skip(i as int), path@),
            decreases self.references.len() - i,
        {
            assert(all.skip(i as int)[0] == self.references[i as int]@);
            assert(all.skip(i as int).skip(1) =~= all.skip(i + 1));
            if self.references[i].path == *path {
                return Some(self.references[i].metadata);
            }
            i = i + 1;
        }
        None
    }
}

} // verus!
