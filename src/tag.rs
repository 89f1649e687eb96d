//! Tags and their resolution to the segments they were bound to.
use vstd::prelude::*;
use crate::path::Segment;

verus! {

/// Where in the program text a query was made.
#[derive(Clone, Copy, Debug, PartialEq, Eq, Structural)]
pub struct SourceRange {
    pub start: usize,
    pub end: usize,
    pub module_id: usize,
}

/// A symbolic name for a segment.
#[derive(Clone, Debug, PartialEq, Eq)]
pub struct TagIdentifier {
    pub value: String,
}

/// What a tag was bound to: `path` is the segment, or `None` where the bound
/// value has no geometric path.
#[derive(Clone, Debug)]
pub struct TagEntry {
    pub name: String,
    pub path: Option<Segment>,
}

/// The tag bindings a query may consult. Where a name is bound more than once,
/// the first binding counts.
#[derive(Clone, Debug)]
pub struct TagEnvironment {
    pub entries: Vec<TagEntry>,
}

/// Why a query failed.
#[derive(Clone, Debug, PartialEq, Eq)]
pub enum SegmentError {
    /// The tag has no binding.
    UnresolvedTag { tag: String, source_range: SourceRange },
    /// The tag is bound to a value without a geometric path.
    NotASegment { tag: String, source_range: SourceRange },
    /// A query on the last segment of a sketch that has none.
    EmptySketch { source_range: SourceRange },
}

/// The binding of `name` in `entries`: `None` where it has none, else what the
/// first entry of that name holds.
pub open spec fn binding_of(entries: Seq<TagEntry>, name: Seq<char>) -> Option<Option<Segment>>
    decreases entries.len(),
{
    if entries.len() == 0 {
        None
    } else if entries[0].name@ == name {
        Some(entries[0].path)
    } else {
        binding_of(entries.drop_first(), name)
    }
}

/// The outcome of resolving `tag` in `env` for a query at `range`.
pub open spec fn resolution(env: TagEnvironment, tag: TagIdentifier, range: SourceRange) -> Result<
    Segment,
    SegmentError,
> {
    match binding_of(env.entries@, tag.value@) {
        None => Err(SegmentError::UnresolvedTag { tag: tag.value, source_range: range }),
        Some(None) => Err(SegmentError::NotASegment { tag: tag.value, source_range: range }),
        Some(Some(s)) => Ok(s),
    }
}

impl TagIdentifier {
    pub fn new(value: String) -> (r: TagIdentifier)
        ensures
            r.value == value,
    {
        TagIdentifier { value }
    }
}

impl TagEnvironment {
    pub fn new() -> (r: TagEnvironment)
        ensures
            r.entries@ == Seq::<TagEntry>::empty(),
    {
        TagEnvironment { entries: Vec::new() }
    }

    /// Records a binding of `name`, after those already there.
    pub fn bind(&mut self, name: String, path: Option<Segment>)
        ensures
            final(self).entries@ == old(self).entries@.push(TagEntry { name, path }),
    {
        self.entries.push(TagEntry { name, path });
    }

    /// Resolves `tag` to the segment it was bound to, failing with
    /// `UnresolvedTag` where it has no binding and with `NotASegment` where the
    /// bound value has no path; both carry the tag's name and `range`.
    pub fn resolve(&self, tag: &TagIdentifier, range: SourceRange) -> (r: Result<Segment, SegmentError>)
        ensures
            r == resolution(*self, *tag, range),
    {
        let n = self.entries.len();
        let mut i: usize = 0;
        assert(self.entries@.subrange(0, n as int) =~= self.entries@);
        while i < n
            invariant
                n == self.entries@.len(),
                i <= n,
                binding_of(self.entries@, tag.value@) == binding_of(
                    self.entries@.subrange(i as int, n as int),
                    tag.value@,
                ),
            decreases n - i,
        {
            assert(self.entries@.subrange(i as int, n as int).drop_first() =~= self.entries@.subrange(
                i + 1,
                n as int,
            ));
            if self.entries[i].name == tag.value {
                return match self.entries[i].path {
                    Some(s) => Ok(s),
                    None => Err(
                        SegmentError::NotASegment { tag: tag.value.clone(), source_range: range },
                    ),
                };
            }
            i = i + 1;
        }
        Err(SegmentError::UnresolvedTag { tag: tag.value.clone(), source_range: range })
    }
}

} // verus!
