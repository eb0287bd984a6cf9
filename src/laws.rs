//! Properties of the session state machine that relate several steps.

use vstd::prelude::*;
use crate::config::ConfigView;
use crate::coordinator::{
    cancel_error, cancelled, chunk_applied, chunk_failure, complete_error,
    complete_failure, completed,
};
use crate::errors::ErrorView;
use crate::models::{
    is_terminal, next_version, transition_allowed, unique_indices, ChunkView, SessionView,
    UploadStatus,
};
use crate::parts::{completion_parts, insert_by_index, parts_of, sort_by_index};

verus! {

/// The records of `s` are in strictly ascending order of chunk index.
pub open spec fn strictly_ascending(s: Seq<ChunkView>) -> bool {
    forall|i: int, j: int| 0 <= i < j < s.len() ==> #[trigger] s[i].index < #[trigger] s[j].index
}

/// Every successful step moves the status along the state machine and
/// advances the record's version, and no step changes a terminal session:
/// chunks and completion are refused on a completed or cancelled session,
/// cancellation is refused on a completed one, and cancelling a cancelled
/// session leaves it as it is.
pub proof fn lemma_status_follows_state_machine(
    s: SessionView,
    c: ConfigView,
    index: u16,
    size: u64,
    uploaded: Result<Seq<char>, Seq<char>>,
    finalized: Result<(), Seq<char>>,
    now: i64,
)
    ensures
        chunk_failure(s, index, size, uploaded, c) is None ==> transition_allowed(
            s.status,
            chunk_applied(s, index, size, uploaded->Ok_0, now).status,
        ),
        chunk_applied(s, index, size, uploaded->Ok_0, now).version == next_version(s.version),
        complete_failure(s, finalized) is None ==> transition_allowed(s.status, completed(s, now).status),
        completed(s, now).version == next_version(s.version),
        s.status != UploadStatus::Cancelled ==> cancelled(s, now).version == next_version(s.version),
        cancel_error(Some(s), s.upload_id) is None ==> transition_allowed(
            s.status,
            cancelled(s, now).status,
        ),
        is_terminal(s.status) ==> chunk_failure(s, index, size, uploaded, c) is Some,
        is_terminal(s.status) ==> complete_failure(s, finalized) is Some,
        s.status == UploadStatus::Completed ==> cancel_error(Some(s), s.upload_id) is Some,
        s.status == UploadStatus::Cancelled ==> cancelled(s, now) == s,
{
}

/// Submitting the same chunk index of a session twice: once the first
/// submission was accepted, the second is refused with
/// `ChunkAlreadyUploaded` whatever the backend would answer, so the step
/// leaves the stored record unchanged.
pub proof fn lemma_duplicate_chunk_rejected(
    s: SessionView,
    c: ConfigView,
    index: u16,
    size: u64,
    tag: Seq<char>,
    now: i64,
    second_upload: Result<Seq<char>, Seq<char>>,
)
    requires
        chunk_failure(s, index, size, Ok(tag), c) is None,
    ensures
        chunk_failure(chunk_applied(s, index, size, tag, now), index, size, second_upload, c) == Some(
            ErrorView::ChunkAlreadyUploaded { upload_id: s.upload_id, index },
        ),
{
    let t = chunk_applied(s, index, size, tag, now);
    assert(t.chunks[t.chunks.len() - 1].index == index);
}

/// A failed finalize call leaves the session as it was, and a retry on a
/// session with the same chunks asks the backend for the same ordered part
/// list.
pub proof fn lemma_complete_retry_same_request(
    s: SessionView,
    retry: SessionView,
    message: Seq<char>,
)
    requires
        complete_error(Some(s), s.upload_id) is None,
        retry.chunks == s.chunks,
    ensures
        complete_failure(s, Err(message)) == Some(
            ErrorView::R2Error { message: "Failed to finalize multipart upload: "@ + message },
        ),
        completion_parts(retry.chunks) == completion_parts(s.chunks),
        completion_parts(s.chunks) is Ok,
{
}

proof fn lemma_insert_contents(s: Seq<ChunkView>, x: ChunkView)
    ensures
        insert_by_index(s, x).len() == s.len() + 1,
        forall|y: ChunkView| #[trigger] insert_by_index(s, x).contains(y) <==> (s.contains(y) || y == x),
    decreases s.len(),
{
    let r = insert_by_index(s, x);
    if s.len() == 0 {
        assert(r =~= seq![x]);
        assert(r[0] == x);
    } else if s.last().index <= x.index {
        assert forall|y: ChunkView| r.contains(y) <==> (s.contains(y) || y == x) by {
            if s.contains(y) {
                let k = choose|k: int| 0 <= k < s.len() && s[k] == y;
                assert(r[k] == y);
            }
            if y == x {
                assert(r[s.len() as int] == y);
            }
        }
    } else {
        let d = s.drop_last();
        lemma_insert_contents(d, x);
        let ri = insert_by_index(d, x);
        assert forall|y: ChunkView| r.contains(y) <==> (s.contains(y) || y == x) by {
            if r.contains(y) {
                let k = choose|k: int| 0 <= k < r.len() && r[k] == y;
                if k < ri.len() {
                    assert(ri.contains(y));
                    if d.contains(y) {
                        let m = choose|m: int| 0 <= m < d.len() && d[m] == y;
                        assert(s[m] == y);
                    }
                } else {
                    assert(s[s.len() - 1] == y);
                }
            }
            if s.contains(y) {
                let k = choose|k: int| 0 <= k < s.len() && s[k] == y;
                if k < s.len() - 1 {
                    assert(d[k] == y);
                    assert(ri.contains(y));
                    let m = choose|m: int| 0 <= m < ri.len() && ri[m] == y;
                    assert(r[m] == y);
                } else {
                    assert(r[r.len() - 1] == y);
                }
            }
            if y == x {
                assert(ri.contains(y));
                let m = choose|m: int| 0 <= m < ri.len() && ri[m] == y;
                assert(r[m] == y);
            }
        }
    }
}

proof fn lemma_sort_contents(s: Seq<ChunkView>)
    ensures
        sort_by_index(s).len() == s.len(),
        forall|y: ChunkView| #[trigger] sort_by_index(s).contains(y) <==> s.contains(y),
    decreases s.len(),
{
    if s.len() > 0 {
        let d = s.drop_last();
        lemma_sort_contents(d);
        lemma_insert_contents(sort_by_index(d), s.last());
        assert forall|y: ChunkView| sort_by_index(s).contains(y) <==> s.contains(y) by {
            if d.contains(y) {
                let m = choose|m: int| 0 <= m < d.len() && d[m] == y;
                assert(s[m] == y);
            }
            if s.contains(y) {
                let k = choose|k: int| 0 <= k < s.len() && s[k] == y;
                if k < s.len() - 1 {
                    assert(d[k] == y);
                }
            }
        }
    }
}

proof fn lemma_insert_ascending(s: Seq<ChunkView>, x: ChunkView)
    requires
        strictly_ascending(s),
        forall|k: int| 0 <= k < s.len() ==> (#[trigger] s[k]).index != x.index,
    ensures
        strictly_ascending(insert_by_index(s, x)),
    decreases s.len(),
{
    let r = insert_by_index(s, x);
    if s.len() == 0 {
        assert(r =~= seq![x]);
    } else if s.last().index <= x.index {
        assert(s[s.len() - 1].index != x.index);
    } else {
        let d = s.drop_last();
        assert forall|k: int| 0 <= k < d.len() implies (#[trigger] d[k]).index != x.index by {
            assert(d[k] == s[k]);
        }
        lemma_insert_ascending(d, x);
        lemma_insert_contents(d, x);
        let ri = insert_by_index(d, x);
        assert forall|i: int, j: int| 0 <= i < j < r.len() implies #[trigger] r[i].index
            < #[trigger] r[j].index by {
            if j == r.len() - 1 {
                assert(ri.contains(r[i]));
                if d.contains(r[i]) {
                    let m = choose|m: int| 0 <= m < d.len() && d[m] == r[i];
                    assert(s[m] == r[i]);
                }
            } else {
                assert(r[i] == ri[i] && r[j] == ri[j]);
            }
        }
    }
}

proof fn lemma_sort_ascending(s: Seq<ChunkView>)
    requires
        unique_indices(s),
    ensures
        strictly_ascending(sort_by_index(s)),
    decreases s.len(),
{
    if s.len() > 0 {
        let d = s.drop_last();
        assert forall|i: int, j: int|
            0 <= i < d.len() && 0 <= j < d.len() && i != j implies #[trigger] d[i].index
            != #[trigger] d[j].index by {
            assert(d[i] == s[i] && d[j] == s[j]);
        }
        lemma_sort_ascending(d);
        lemma_sort_contents(d);
        let sd = sort_by_index(d);
        assert forall|k: int| 0 <= k < sd.len() implies (#[trigger] sd[k]).index != s.last().index by {
            assert(sd.contains(sd[k]));
            let m = choose|m: int| 0 <= m < d.len() && d[m] == sd[k];
            assert(s[m] == sd[k]);
            assert(s[s.len() - 1] == s.last());
        }
        lemma_insert_ascending(sd, s.last());
    }
}

proof fn lemma_ascending_same_contents_equal(a: Seq<ChunkView>, b: Seq<ChunkView>)
    requires
        strictly_ascending(a),
        strictly_ascending(b),
        forall|y: ChunkView| a.contains(y) <==> b.contains(y),
    ensures
        a == b,
    decreases a.len(),
{
    if a.len() == 0 {
        if b.len() > 0 {
            assert(b.contains(b[0]));
        }
        assert(a =~= b);
    } else {
        if b.len() == 0 {
            assert(a.contains(a[0]));
        }
        assert(a.contains(a[0]) && b.contains(b[0]));
        let i = choose|i: int| 0 <= i < b.len() && b[i] == a[0];
        let j = choose|j: int| 0 <= j < a.len() && a[j] == b[0];
        if i > 0 {
            assert(b[0].index < b[i].index);
            if j > 0 {
                assert(a[0].index < a[j].index);
            }
        }
        if j > 0 {
            assert(a[0].index < a[j].index);
        }
        assert(i == 0);
        let ta = a.drop_first();
        let tb = b.drop_first();
        assert forall|y: ChunkView| ta.contains(y) <==> tb.contains(y) by {
            if ta.contains(y) {
                let k = choose|k: int| 0 <= k < ta.len() && ta[k] == y;
                assert(a[k + 1] == y);
                assert(a.contains(y));
                let m = choose|m: int| 0 <= m < b.len() && b[m] == y;
                assert(a[0].index < a[k + 1].index);
                assert(m != 0);
                assert(tb[m - 1] == y);
            }
            if tb.contains(y) {
                let k = choose|k: int| 0 <= k < tb.len() && tb[k] == y;
                assert(b[k + 1] == y);
                assert(b.contains(y));
                let m = choose|m: int| 0 <= m < a.len() && a[m] == y;
                assert(b[0].index < b[k + 1].index);
                assert(m != 0);
                assert(ta[m - 1] == y);
            }
        }
        assert forall|p: int, q: int| 0 <= p < q < ta.len() implies #[trigger] ta[p].index
            < #[trigger] ta[q].index by {
            assert(ta[p] == a[p + 1] && ta[q] == a[q + 1]);
        }
        assert forall|p: int, q: int| 0 <= p < q < tb.len() implies #[trigger] tb[p].index
            < #[trigger] tb[q].index by {
            assert(tb[p] == b[p + 1] && tb[q] == b[q + 1]);
        }
        lemma_ascending_same_contents_equal(ta, tb);
        assert(a =~= seq![a[0]] + ta);
        assert(b =~= seq![b[0]] + tb);
    }
}

proof fn lemma_parts_shape(s: Seq<ChunkView>)
    ensures
        parts_of(s) matches Ok(ps) ==> {
            &&& ps.len() == s.len()
            &&& forall|i: int| 0 <= i < s.len() ==> (#[trigger] ps[i]).part_number == s[i].index + 1
        },
    decreases s.len(),
{
    if s.len() > 0 {
        lemma_parts_shape(s.drop_last());
        if parts_of(s) is Ok {
            let ps = parts_of(s)->Ok_0;
            let pd = parts_of(s.drop_last())->Ok_0;
            assert forall|i: int| 0 <= i < s.len() implies (#[trigger] ps[i]).part_number == s[i].index
                + 1 by {
                if i < s.len() - 1 {
                    assert(ps[i] == pd[i]);
                    assert(s.drop_last()[i] == s[i]);
                }
            }
        }
    }
}

/// The part list that completion asks for does not depend on the order in
/// which the chunks arrived: two chunk sequences with unique indices and the
/// same records give the same list, in strictly ascending order of index,
/// chunk `i` as part `i + 1`.
pub proof fn lemma_completion_order_ignores_arrival(a: Seq<ChunkView>, b: Seq<ChunkView>)
    requires
        unique_indices(a),
        unique_indices(b),
        forall|y: ChunkView| a.contains(y) <==> b.contains(y),
    ensures
        sort_by_index(a) == sort_by_index(b),
        strictly_ascending(sort_by_index(a)),
        completion_parts(a) == completion_parts(b),
        completion_parts(a) matches Ok(ps) ==> {
            &&& ps.len() == a.len()
            &&& forall|i: int|
                0 <= i < a.len() ==> (#[trigger] ps[i]).part_number == sort_by_index(a)[i].index + 1
        },
{
    lemma_sort_contents(a);
    lemma_sort_contents(b);
    lemma_sort_ascending(a);
    lemma_sort_ascending(b);
    lemma_ascending_same_contents_equal(sort_by_index(a), sort_by_index(b));
    lemma_parts_shape(sort_by_index(a));
}

} // verus!
