//! The ordered part list that finalizes a backend multipart transfer.
//!
//! Chunks are accepted in any order; the backend wants its parts in
//! ascending order, numbered from 1. Chunk `i` becomes part `i + 1`.

use vstd::prelude::*;
use vstd::string::StringExecFns;
use crate::errors::{AppError, ErrorView};
use crate::models::{chunk_views, ChunkView, UploadChunkRecord};
use crate::text::{decimal, push_decimal};

verus! {

/// One entry of the part list handed to the backend's finalize call.
#[derive(Debug, PartialEq, Eq)]
pub struct PartDescriptor {
    /// One-based backend part number.
    pub part_number: u16,
    /// Integrity tag the backend returned for the part.
    pub etag: String,
}

/// View of a part descriptor.
pub struct PartView {
    pub part_number: u16,
    pub etag: Seq<char>,
}

impl View for PartDescriptor {
    type V = PartView;

    open spec fn view(&self) -> PartView {
        PartView { part_number: self.part_number, etag: self.etag@ }
    }
}

/// Views of a sequence of part descriptors.
pub open spec fn part_views(s: Seq<PartDescriptor>) -> Seq<PartView> {
    s.map_values(|p: PartDescriptor| p@)
}

/// `x` placed into `s` after every record whose index is not larger.
pub open spec fn insert_by_index(s: Seq<ChunkView>, x: ChunkView) -> Seq<ChunkView>
    decreases s.len(),
{
    if s.len() == 0 {
        seq![x]
    } else if s.last().index <= x.index {
        s.push(x)
    } else {
        insert_by_index(s.drop_last(), x).push(s.last())
    }
}

/// The records of `s` in ascending order of chunk index; records with equal
/// indices keep their relative order.
pub open spec fn sort_by_index(s: Seq<ChunkView>) -> Seq<ChunkView>
    decreases s.len(),
{
    if s.len() == 0 {
        s
    } else {
        insert_by_index(sort_by_index(s.drop_last()), s.last())
    }
}

/// The part that a chunk record becomes, or why it cannot become one.
pub open spec fn part_of(c: ChunkView) -> Result<PartView, ErrorView> {
    match c.tag {
        None => Err(
            ErrorView::ValidationError { message: "Missing ETag for chunk "@ + decimal(c.index as nat) },
        ),
        Some(t) => if c.index == u16::MAX {
            Err(ErrorView::InvalidChunkIndex { index: c.index })
        } else {
            Ok(PartView { part_number: (c.index + 1) as u16, etag: t })
        },
    }
}

/// The parts of `s`, in the order of `s`, or the error of its first record
/// that cannot become a part.
pub open spec fn parts_of(s: Seq<ChunkView>) -> Result<Seq<PartView>, ErrorView>
    decreases s.len(),
{
    if s.len() == 0 {
        Ok(Seq::empty())
    } else {
        match parts_of(s.drop_last()) {
            Err(e) => Err(e),
            Ok(ps) => match part_of(s.last()) {
                Err(e) => Err(e),
                Ok(p) => Ok(ps.push(p)),
            },
        }
    }
}

/// The part list that finalizes a transfer whose acknowledged chunks are `s`.
pub open spec fn completion_parts(s: Seq<ChunkView>) -> Result<Seq<PartView>, ErrorView> {
    parts_of(sort_by_index(s))
}

proof fn lemma_insert_by_index_at(s: Seq<ChunkView>, x: ChunkView, p: int)
    requires
        0 <= p <= s.len(),
        forall|k: int| p <= k < s.len() ==> s[k].index > x.index,
        p == 0 || s[p - 1].index <= x.index,
    ensures
        insert_by_index(s, x) == s.insert(p, x),
    decreases s.len(),
{
    if s.len() == 0 {
        assert(s.insert(p, x) =~= seq![x]);
    } else if s.last().index <= x.index {
        assert(p == s.len());
        assert(s.insert(p, x) =~= s.push(x));
    } else {
        lemma_insert_by_index_at(s.drop_last(), x, p);
        assert(s.drop_last().insert(p, x).push(s.last()) =~= s.insert(p, x));
    }
}

/// The chunk records in ascending order of chunk index.
pub fn sort_chunks_by_index(chunks: &[UploadChunkRecord]) -> (r: Vec<UploadChunkRecord>)
    ensures
        chunk_views(r@) == sort_by_index(chunk_views(chunks@)),
{
    let mut out: Vec<UploadChunkRecord> = Vec::new();
    let mut i: usize = 0;
    assert(chunk_views(chunks@.subrange(0, 0)) =~= Seq::<ChunkView>::empty());
    assert(chunk_views(out@) =~= Seq::<ChunkView>::empty());
    while i < chunks.len()
        invariant
            i <= chunks@.len(),
            chunk_views(out@) == sort_by_index(chunk_views(chunks@.subrange(0, i as int))),
        decreases chunks.len() - i,
    {
        let c = chunks[i].duplicate();
        let mut p: usize = out.len();
        while p > 0 && out[p - 1].chunk_index > c.chunk_index
            invariant
                p <= out@.len(),
                forall|k: int| p <= k < out@.len() ==> out@[k].chunk_index > c.chunk_index,
            decreases p,
        {
            p -= 1;
        }
        proof {
            let ov = chunk_views(out@);
            assert forall|k: int| p <= k < ov.len() implies ov[k].index > c@.index by {}
            lemma_insert_by_index_at(ov, c@, p as int);
            let v = chunk_views(chunks@.subrange(0, i + 1));
            assert(v.drop_last() =~= chunk_views(chunks@.subrange(0, i as int)));
            assert(v.last() == chunks@[i as int]@);
        }
        let ghost before = out@;
        out.insert(p, c);
        proof {
            assert(chunk_views(out@) =~= chunk_views(before).insert(p as int, c@));
        }
        i += 1;
    }
    assert(chunks@.subrange(0, i as int) =~= chunks@);
    out
}

/// The part descriptors of `chunks`, in the order given: chunk `i` becomes
/// part `i + 1` with the chunk's tag. Fails on the first chunk without a
/// tag, or whose index has no part number.
pub fn collect_part_descriptors(chunks: &[UploadChunkRecord]) -> (r: Result<Vec<PartDescriptor>, AppError>)
    ensures
        match r {
            Ok(ps) => parts_of(chunk_views(chunks@)) == Ok::<Seq<PartView>, ErrorView>(part_views(ps@)),
            Err(e) => parts_of(chunk_views(chunks@)) == Err::<Seq<PartView>, ErrorView>(e@),
        },
{
    let mut parts: Vec<PartDescriptor> = Vec::new();
    let mut i: usize = 0;
    assert(chunk_views(chunks@.subrange(0, 0)) =~= Seq::<ChunkView>::empty());
    assert(part_views(parts@) =~= Seq::<PartView>::empty());
    while i < chunks.len()
        invariant
            i <= chunks@.len(),
            parts_of(chunk_views(chunks@.subrange(0, i as int)))
                == Ok::<Seq<PartView>, ErrorView>(part_views(parts@)),
        decreases chunks.len() - i,
    {
        let chunk = &chunks[i];
        proof {
            let v = chunk_views(chunks@.subrange(0, i + 1));
            assert(v.drop_last() =~= chunk_views(chunks@.subrange(0, i as int)));
            assert(v.last() == chunks@[i as int]@);
            assert(chunk_views(chunks@).subrange(0, i + 1) =~= v);
        }
        match &chunk.etag {
            None => {
                let mut message = String::from_str("Missing ETag for chunk ");
                push_decimal(&mut message, chunk.chunk_index as u64);
                let e = AppError::ValidationError { message };
                proof {
                    let v = chunk_views(chunks@.subrange(0, i + 1));
                    assert(part_of(v.last()) == Err::<PartView, ErrorView>(e@));
                    assert(parts_of(v) == Err::<Seq<PartView>, ErrorView>(e@));
                    lemma_parts_of_prefix_error(chunk_views(chunks@), i as int + 1, e@);
                }
                return Err(e);
            },
            Some(tag) => {
                if chunk.chunk_index == u16::MAX {
                    let e = AppError::InvalidChunkIndex { index: chunk.chunk_index };
                    proof {
                        let v = chunk_views(chunks@.subrange(0, i + 1));
                        assert(part_of(v.last()) == Err::<PartView, ErrorView>(e@));
                        assert(parts_of(v) == Err::<Seq<PartView>, ErrorView>(e@));
                        lemma_parts_of_prefix_error(chunk_views(chunks@), i as int + 1, e@);
                    }
                    return Err(e);
                }
                let ghost before = parts@;
                parts.push(PartDescriptor { part_number: chunk.chunk_index + 1, etag: tag.clone() });
                proof {
                    assert(part_views(parts@) =~= part_views(before).push(parts@.last()@));
                }
            },
        }
        i += 1;
    }
    assert(chunks@.subrange(0, i as int) =~= chunks@);
    Ok(parts)
}

/// Once a prefix of `s` fails to become parts, all of `s` fails the same way.
proof fn lemma_parts_of_prefix_error(s: Seq<ChunkView>, n: int, e: ErrorView)
    requires
        0 <= n <= s.len(),
        parts_of(s.subrange(0, n)) == Err::<Seq<PartView>, ErrorView>(e),
    ensures
        parts_of(s) == Err::<Seq<PartView>, ErrorView>(e),
    decreases s.len() - n,
{
    if n == s.len() {
        assert(s.subrange(0, n) =~= s);
    } else {
        assert(s.subrange(0, n + 1).drop_last() =~= s.subrange(0, n));
        lemma_parts_of_prefix_error(s, n + 1, e);
    }
}

} // verus!
