use sorosusu::sequence_buffer::{BufferedTx, SequenceError, SusuContract};

#[test]
fn buffer_executes_in_order_each_once() {
    let mut b = SusuContract::new();
    assert_eq!(b.get_next_sequence(1), 1);
    b.submit_buffered_tx(1, 3, 1, 30);
    b.submit_buffered_tx(1, 1, 1, 10);
    assert_eq!(b.submit_check(1, 1), Some(SequenceError::SequenceAlreadySubmitted));
    assert_eq!(b.submit_check(1, 2), None);
    // 2 is missing: only 1 runs
    let done = b.process_buffered(1, 10);
    assert_eq!(done, vec![BufferedTx { seq: 1, action: 1, amount: 10 }]);
    assert_eq!(b.get_next_sequence(1), 2);
    assert_eq!(b.submit_check(1, 1), Some(SequenceError::SequenceTooOld));
    b.submit_buffered_tx(1, 2, 2, 20);
    b.submit_buffered_tx(1, 4, 1, 40);
    // the batch limit stops after two
    let done = b.process_buffered(1, 2);
    assert_eq!(done.iter().map(|t| t.seq).collect::<Vec<_>>(), vec![2, 3]);
    let done = b.process_buffered(1, 2);
    assert_eq!(done.iter().map(|t| t.seq).collect::<Vec<_>>(), vec![4]);
    assert!(b.pending.is_empty());
    assert_eq!(b.get_next_sequence(1), 5);
}

#[test]
fn buffer_unknown_action_refuses_whole_batch() {
    let mut b = SusuContract::new();
    b.submit_buffered_tx(1, 1, 1, 10);
    b.submit_buffered_tx(1, 2, 7, 10);
    assert_eq!(b.ready_batch(1, 5), Err(SequenceError::UnknownAction));
    assert_eq!(b.ready_batch(1, 1), Ok(vec![BufferedTx { seq: 1, action: 1, amount: 10 }]));
    assert_eq!(b.pending.len(), 2);
    assert_eq!(b.get_next_sequence(1), 1);
    // other members are independent
    b.submit_buffered_tx(2, 1, 2, 5);
    assert_eq!(b.process_buffered(2, 5).len(), 1);
    assert_eq!(b.process_buffered(1, 1).len(), 1);
}
