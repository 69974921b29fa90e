use tendril_core::queue_view::first_queued;
use tendril_core::progress::PipelineStage;
use tendril_core::queue_view::{queue_edits, QueueRow, RowEdit};

fn row(id: u64, stage: PipelineStage, bp: u32) -> QueueRow {
    QueueRow { job_id: id, stage, progress_bp: bp }
}

fn apply(shown: &[QueueRow], edits: &[RowEdit], fresh: &[QueueRow]) -> Vec<QueueRow> {
    let mut v = shown.to_vec();
    for e in edits {
        match *e {
            RowEdit::Append(k) => v.push(fresh[k]),
            RowEdit::Replace(i, k) => v[i] = fresh[k],
            RowEdit::Delete(i) => {
                v.remove(i);
            }
        }
    }
    v
}

#[test]
fn unchanged_rows_need_no_edits() {
    let rows = vec![row(1, PipelineStage::Splitting, 1200), row(2, PipelineStage::Queued, 0)];
    assert!(queue_edits(&rows, &rows).is_empty());
    assert!(queue_edits(&vec![], &vec![]).is_empty());
}

#[test]
fn removed_job_is_dropped_and_changes_are_patched() {
    let shown = vec![
        row(1, PipelineStage::Splitting, 1200),
        row(2, PipelineStage::Queued, 0),
        row(3, PipelineStage::Queued, 0),
    ];
    let fresh = vec![row(1, PipelineStage::Splitting, 3400), row(3, PipelineStage::Queued, 0), row(4, PipelineStage::Queued, 0)];
    let edits = queue_edits(&shown, &fresh);
    assert_eq!(edits, vec![RowEdit::Replace(0, 0), RowEdit::Delete(1), RowEdit::Append(2)]);
    assert_eq!(apply(&shown, &edits, &fresh), fresh);
}

#[test]
fn trailing_rows_are_dropped() {
    let shown = vec![row(1, PipelineStage::Complete, 10000), row(2, PipelineStage::Queued, 0), row(3, PipelineStage::Queued, 0)];
    let fresh = vec![row(1, PipelineStage::Complete, 10000)];
    let edits = queue_edits(&shown, &fresh);
    assert_eq!(edits, vec![RowEdit::Delete(2), RowEdit::Delete(1)]);
    assert_eq!(apply(&shown, &edits, &fresh), fresh);
}

#[test]
fn edits_always_rebuild_the_fresh_rows() {
    let s = |ids: &[u64]| ids.iter().map(|&i| row(i, PipelineStage::Queued, (i * 100) as u32)).collect::<Vec<_>>();
    let cases: [(&[u64], &[u64]); 5] = [
        (&[], &[1, 2]),
        (&[1, 2, 3], &[]),
        (&[1, 2, 3, 4], &[2, 4, 5]),
        (&[5, 6], &[1, 2]),
        (&[1, 3], &[1, 2, 3]),
    ];
    for (a, b) in cases {
        let (shown, fresh) = (s(a), s(b));
        let edits = queue_edits(&shown, &fresh);
        assert_eq!(apply(&shown, &edits, &fresh), fresh, "{a:?} -> {b:?}");
    }
}

#[test]
fn runner_takes_the_first_queued_row() {
    let rows = vec![
        row(1, PipelineStage::Complete, 10000),
        row(2, PipelineStage::Failed, 0),
        row(3, PipelineStage::Queued, 0),
        row(4, PipelineStage::Queued, 0),
    ];
    assert_eq!(first_queued(&rows), Some(2));
    assert_eq!(first_queued(&rows[..2].to_vec()), None);
    assert_eq!(first_queued(&vec![]), None);
}
