use monster_sdk::diff::VecDiff;
use monster_sdk::queue::{DiffQueue, LiveView, QueueOp};

#[test]
fn queue_returns_entries_in_push_order() {
    let mut q = DiffQueue::new();
    assert!(!q.has_pending());
    for i in 0..5u32 {
        q.push(i);
    }
    q.push_batch(vec![10, 11, 12]);
    let mut out = Vec::new();
    while q.has_pending() {
        out.push(q.take_next().unwrap());
    }
    assert_eq!(out, vec![0, 1, 2, 3, 4, 10, 11, 12]);
    assert!(!q.has_pending());
    assert_eq!(q.take_next(), None);
}

#[test]
fn take_on_empty_queue_is_none() {
    let mut q: DiffQueue<u8> = DiffQueue::new();
    assert_eq!(q.take_next(), None);
    assert!(!q.has_pending());
}

#[test]
fn diff_op_codes_follow_declaration_order() {
    let diffs: Vec<VecDiff<u32>> = vec![
        VecDiff::Append { values: vec![1] },
        VecDiff::Clear,
        VecDiff::PushFront { value: 1 },
        VecDiff::PushBack { value: 1 },
        VecDiff::PopFront,
        VecDiff::PopBack,
        VecDiff::Insert { index: 0, value: 1 },
        VecDiff::SetAt { index: 0, value: 1 },
        VecDiff::Remove { index: 0 },
        VecDiff::Truncate { length: 0 },
        VecDiff::Reset { values: vec![] },
    ];
    let ops: Vec<u8> = diffs.iter().map(|d| d.op()).collect();
    assert_eq!(ops, (0..=10).collect::<Vec<u8>>());
}

#[test]
fn truncate_index_is_the_new_length() {
    let mut view = LiveView::open(vec![7u32, 8, 9, 10]);
    view.deliver(vec![VecDiff::Truncate { length: 2 }]);
    let first = view.queue_next().unwrap();
    let mut items = first.items_vec().clone();
    let truncate = view.queue_next().unwrap();
    assert_eq!(truncate.op(), 9);
    let len = truncate.index();
    assert_eq!(len, 2);
    items.truncate(len);
    assert_eq!(items, vec![7, 8]);
}

#[test]
fn index_and_item_fields() {
    let d = VecDiff::Insert { index: 3, value: 42u32 };
    assert_eq!(d.index(), 3);
    assert_eq!(*d.item(), 42);
    let d = VecDiff::SetAt { index: 1, value: 5u32 };
    assert_eq!(d.index(), 1);
    assert_eq!(*d.item(), 5);
    let d: VecDiff<u32> = VecDiff::Remove { index: 4 };
    assert_eq!(d.index(), 4);
    let d = VecDiff::PushBack { value: 9u32 };
    assert_eq!(*d.item(), 9);
    let d = VecDiff::Reset { values: vec![1u32, 2] };
    assert_eq!(d.items_vec(), &vec![1, 2]);
}

#[test]
fn opening_a_view_yields_one_snapshot_diff() {
    let mut view = LiveView::open(vec!["a", "b", "c"]);
    assert!(view.has_queued_item());
    let first = view.queue_next().unwrap();
    assert_eq!(first.op(), 0);
    assert_eq!(first.items_vec(), &vec!["a", "b", "c"]);
    assert!(!view.has_queued_item());
    assert!(view.deliver(vec![VecDiff::PushBack { value: "d" }]));
    let next = view.queue_next().unwrap();
    assert_eq!(next.op(), 3);
    assert_eq!(*next.item(), "d");
}

#[test]
fn batch_keeps_order_and_notifies_once() {
    let mut view: LiveView<u32> = LiveView::open(vec![]);
    view.queue_next();
    let notify = view.deliver(vec![
        VecDiff::PushBack { value: 1 },
        VecDiff::Insert { index: 0, value: 2 },
        VecDiff::Remove { index: 1 },
    ]);
    assert!(notify);
    let ops: Vec<u8> = (0..3).map(|_| view.queue_next().unwrap().op()).collect();
    assert_eq!(ops, vec![3, 6, 8]);
    assert!(!view.has_queued_item());
}

#[test]
fn closed_view_takes_no_more_updates() {
    let mut view = LiveView::open(vec![1u32]);
    view.close();
    assert!(view.is_closed());
    assert!(!view.deliver(vec![VecDiff::PushBack { value: 2 }]));
    assert!(!view.deliver(vec![VecDiff::Clear]));
    assert!(view.has_queued_item());
    assert_eq!(view.queue_next().unwrap().op(), 0);
    assert!(!view.has_queued_item());
}

#[test]
fn interleaved_pushes_and_takes_keep_push_order() {
    let mut q = DiffQueue::new();
    let mut out = Vec::new();
    q.push(1u32);
    q.push(2);
    out.push(q.take_next().unwrap());
    q.push(3);
    out.push(q.take_next().unwrap());
    out.push(q.take_next().unwrap());
    assert!(!q.has_pending());
    assert_eq!(q.take_next(), None);
    q.push(4);
    q.push_batch(vec![5, 6]);
    out.push(q.take_next().unwrap());
    q.push(7);
    while q.has_pending() {
        out.push(q.take_next().unwrap());
    }
    assert_eq!(out, vec![1, 2, 3, 4, 5, 6, 7]);
}

#[test]
fn performed_ops_take_in_push_order() {
    let mut q = DiffQueue::new();
    let taken = q.perform(vec![
        QueueOp::Take,
        QueueOp::Push(1u32),
        QueueOp::Push(2),
        QueueOp::Take,
        QueueOp::Push(3),
        QueueOp::Take,
        QueueOp::Take,
        QueueOp::Take,
        QueueOp::Push(4),
    ]);
    assert_eq!(taken, vec![1, 2, 3]);
    assert!(q.has_pending());
    assert_eq!(q.take_next(), Some(4));
    assert!(!q.has_pending());
}

#[test]
fn empty_view_starts_without_diffs() {
    let mut view: LiveView<u32> = LiveView::empty();
    assert!(!view.has_queued_item());
    assert!(view.queue_next().is_none());
    assert!(view.deliver(vec![VecDiff::Reset { values: vec![1, 2] }]));
    let first = view.queue_next().unwrap();
    assert_eq!(first.op(), 10);
    assert_eq!(first.items_vec(), &vec![1, 2]);
}
