//! Keeping the on-screen queue list in step with the job queue.
//!
//! The list widget holds one row per job. Rather than rebuilding it on every
//! refresh (which would restart animations and reload thumbnails), the rows
//! are walked in parallel with the fresh ones and patched: rows of removed
//! jobs are dropped, changed rows are replaced and new jobs are appended.
use vstd::prelude::*;
use crate::progress::PipelineStage;

verus! {

/// What a queue row shows that can change while its job runs.
#[derive(Clone, Copy, Debug, PartialEq, Eq, Structural)]
pub struct QueueRow {
    pub job_id: u64,
    pub stage: PipelineStage,
    /// Progress of the current stage in basis points.
    pub progress_bp: u32,
}

/// One change to the list widget. `Append` and `Replace` carry the position of
/// the fresh row that they write.
#[derive(Clone, Copy, Debug, PartialEq, Eq, Structural)]
pub enum RowEdit {
    /// Append fresh row `k`.
    Append(usize),
    /// Replace the row at `i` by fresh row `k`.
    Replace(usize, usize),
    /// Drop the row at `i`.
    Delete(usize),
}

/// The rows after one edit, writing fresh rows from `fresh`.
pub open spec fn apply_edit(rows: Seq<QueueRow>, e: RowEdit, fresh: Seq<QueueRow>) -> Seq<QueueRow> {
    match e {
        RowEdit::Append(k) => rows.push(fresh[k as int]),
        RowEdit::Replace(i, k) => rows.update(i as int, fresh[k as int]),
        RowEdit::Delete(i) => rows.remove(i as int),
    }
}

/// The rows after a sequence of edits, applied in order.
pub open spec fn apply_edits(rows: Seq<QueueRow>, edits: Seq<RowEdit>, fresh: Seq<QueueRow>) -> Seq<QueueRow>
    decreases edits.len(),
{
    if edits.len() == 0 {
        rows
    } else {
        apply_edit(apply_edits(rows, edits.drop_last(), fresh), edits.last(), fresh)
    }
}

/// Whether edit `e` is a necessary one on `rows` on the way to `fresh`:
/// an append adds the next fresh row at the end; a replace updates a row
/// in place with the fresh row of the same job at the same position, when
/// that row changed; a delete drops a row that has no fresh row at its
/// position or belongs to another job than the fresh row there.
pub open spec fn edit_ok(rows: Seq<QueueRow>, e: RowEdit, fresh: Seq<QueueRow>) -> bool {
    match e {
        RowEdit::Append(k) => k == rows.len() && k < fresh.len(),
        RowEdit::Replace(i, k) => {
            &&& i == k
            &&& i < rows.len()
            &&& k < fresh.len()
            &&& rows[i as int].job_id == fresh[k as int].job_id
            &&& rows[i as int] != fresh[k as int]
        },
        RowEdit::Delete(i) => i < rows.len() && (i >= fresh.len() || rows[i as int].job_id
            != fresh[i as int].job_id),
    }
}

/// Whether every edit, applied in order, is a necessary one.
pub open spec fn edits_ok(rows: Seq<QueueRow>, edits: Seq<RowEdit>, fresh: Seq<QueueRow>) -> bool
    decreases edits.len(),
{
    if edits.len() == 0 {
        true
    } else {
        &&& edits_ok(rows, edits.drop_last(), fresh)
        &&& edit_ok(apply_edits(rows, edits.drop_last(), fresh), edits.last(), fresh)
    }
}

/// The edits that turn the rows on screen into the fresh rows.
///
/// A row whose job is not the one expected at its place belongs to a job
/// that was removed, and is dropped; a row of the right job is replaced
/// only when its stage or progress changed; fresh rows past the end are
/// appended; rows left over at the end are dropped.
pub fn queue_edits(shown: &Vec<QueueRow>, fresh: &Vec<QueueRow>) -> (edits: Vec<RowEdit>)
    ensures
        edits_ok(shown@, edits@, fresh@),
        apply_edits(shown@, edits@, fresh@) == fresh@,
        shown@ == fresh@ ==> edits@.len() == 0,
{
    let mut cur: Vec<QueueRow> = shown.clone();
    let mut edits: Vec<RowEdit> = Vec::new();
    let mut i: usize = 0;
    proof {
        assert(cur@ == shown@);
    }
    while i < fresh.len()
        invariant
            i <= fresh.len(),
            i <= cur.len(),
            cur@.subrange(0, i as int) == fresh@.subrange(0, i as int),
            apply_edits(shown@, edits@, fresh@) == cur@,
            edits_ok(shown@, edits@, fresh@),
            shown@ == fresh@ ==> edits@.len() == 0 && cur@ == shown@,
        decreases 2 * (fresh.len() - i) + (cur.len() - i),
    {
        let ghost before = edits@;
        if i >= cur.len() {
            let row = fresh[i];
            cur.push(row);
            edits.push(RowEdit::Append(i));
            proof {
                assert(edits@.drop_last() == before);
                assert(cur@.subrange(0, i + 1) == fresh@.subrange(0, i + 1));
            }
            i = i + 1;
        } else if cur[i].job_id == fresh[i].job_id {
            let old = cur[i];
            let new = fresh[i];
            if old.stage != new.stage || old.progress_bp != new.progress_bp {
                cur.set(i, new);
                edits.push(RowEdit::Replace(i, i));
                proof {
                    assert(edits@.drop_last() == before);
                }
            } else {
                proof {
                    assert(old == new);
                }
            }
            proof {
                assert(cur@.subrange(0, i + 1) == fresh@.subrange(0, i + 1));
            }
            i = i + 1;
        } else {
            cur.remove(i);
            edits.push(RowEdit::Delete(i));
            proof {
                assert(edits@.drop_last() == before);
                assert(cur@.subrange(0, i as int) == fresh@.subrange(0, i as int));
            }
        }
    }
    while cur.len() > fresh.len()
        invariant
            fresh.len() <= cur.len(),
            cur@.subrange(0, fresh.len() as int) == fresh@,
            apply_edits(shown@, edits@, fresh@) == cur@,
            edits_ok(shown@, edits@, fresh@),
            shown@ == fresh@ ==> edits@.len() == 0 && cur@ == shown@,
        decreases cur.len(),
    {
        let ghost before = edits@;
        let last = cur.len() - 1;
        cur.remove(last);
        edits.push(RowEdit::Delete(last));
        proof {
            assert(edits@.drop_last() == before);
            assert(cur@.subrange(0, fresh.len() as int) == fresh@);
        }
    }
    proof {
        assert(cur@ == fresh@);
    }
    edits
}


/// The position of the first row still waiting to run, if any: the runner
/// takes jobs in queue order and skips finished or failed ones.
pub fn first_queued(rows: &Vec<QueueRow>) -> (r: Option<usize>)
    ensures
        match r {
            Some(k) => {
                &&& k < rows@.len()
                &&& rows@[k as int].stage == PipelineStage::Queued
                &&& forall|j: int| 0 <= j < k ==> rows@[j].stage != PipelineStage::Queued
            },
            None => forall|j: int| 0 <= j < rows@.len() ==> rows@[j].stage != PipelineStage::Queued,
        },
{
    let mut i: usize = 0;
    while i < rows.len()
        invariant
            i <= rows.len(),
            forall|j: int| 0 <= j < i ==> rows@[j].stage != PipelineStage::Queued,
        decreases rows.len() - i,
    {
        if rows[i].stage == PipelineStage::Queued {
            return Some(i);
        }
        i = i + 1;
    }
    None
}

} // verus!
