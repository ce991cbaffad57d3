use copra::channel::{CallError, CallEvent, CallState, InFlightTable};
use copra::table::IdTable;

#[test]
fn id_table_holds_one_value_per_id() {
    let mut table = IdTable::new();
    assert_eq!(table.len(), 0);
    assert_eq!(table.insert(7, "seven"), Ok(()));
    assert_eq!(table.insert(3, "three"), Ok(()));
    assert_eq!(table.insert(7, "again"), Err("again"));
    assert_eq!(table.len(), 2);
    assert!(table.contains(7));
    assert!(!table.contains(8));
    assert_eq!(table.get(7), Some(&"seven"));
    assert_eq!(table.get(8), None);
    assert_eq!(table.remove(7), Some("seven"));
    assert_eq!(table.remove(7), None);
    assert_eq!(table.get(3), Some(&"three"));
    assert_eq!(table.len(), 1);
}

#[test]
fn id_table_removal_keeps_the_others() {
    let mut table = IdTable::new();
    for id in 0..10u64 {
        assert_eq!(table.insert(id, id * 2), Ok(()));
    }
    assert_eq!(table.remove(0), Some(0));
    assert_eq!(table.remove(5), Some(10));
    assert_eq!(table.remove(9), Some(18));
    for id in [1u64, 2, 3, 4, 6, 7, 8] {
        assert_eq!(table.get(id), Some(&(id * 2)));
    }
    assert_eq!(table.len(), 7);
}

#[test]
fn id_table_drain_hands_out_every_entry_once() {
    let mut table = IdTable::new();
    for id in [5u64, 1, 9] {
        table.insert(id, id + 100).unwrap();
    }
    let mut all = table.drain();
    all.sort();
    assert_eq!(all, vec![(1, 101), (5, 105), (9, 109)]);
    assert_eq!(table.len(), 0);
    assert!(table.drain().is_empty());
}

#[test]
fn calls_get_increasing_ids_from_zero() {
    let mut table = InFlightTable::new();
    assert_eq!(table.next_id(), 0);
    assert_eq!(table.begin("a"), Ok(0));
    assert_eq!(table.begin("b"), Ok(1));
    assert_eq!(table.begin("c"), Ok(2));
    assert_eq!(table.next_id(), 3);
    assert_eq!(table.outstanding(), 3);
    assert!(table.is_outstanding(1));
    assert!(!table.is_outstanding(3));
}

#[test]
fn ids_are_not_reused_after_completion() {
    let mut table = InFlightTable::new();
    assert_eq!(table.begin("a"), Ok(0));
    assert_eq!(table.complete(0), Some("a"));
    assert_eq!(table.begin("b"), Ok(1));
    assert_eq!(table.outstanding(), 1);
}

#[test]
fn outstanding_ids_are_pairwise_distinct() {
    let mut table = InFlightTable::new();
    let mut ids = Vec::new();
    for i in 0..200u32 {
        ids.push(table.begin(i).unwrap());
        if i % 3 == 0 {
            let gone = ids.remove(0);
            assert!(table.complete(gone).is_some());
        }
        if i % 7 == 0 && !ids.is_empty() {
            let gone = ids.remove(ids.len() / 2);
            assert!(table.expire(gone).is_some());
        }
    }
    let mut sorted = ids.clone();
    sorted.sort();
    sorted.dedup();
    assert_eq!(sorted.len(), ids.len());
    assert_eq!(table.outstanding(), ids.len());
    for id in ids {
        assert!(table.is_outstanding(id));
    }
}

#[test]
fn response_is_delivered_to_the_slot_of_its_call() {
    let mut table = InFlightTable::new();
    let a = table.begin("slot a").unwrap();
    let b = table.begin("slot b").unwrap();
    assert_eq!(table.complete(b), Some("slot b"));
    assert_eq!(table.complete(a), Some("slot a"));
    assert_eq!(table.outstanding(), 0);
}

#[test]
fn response_for_no_call_is_discarded() {
    let mut table = InFlightTable::new();
    let a = table.begin("a").unwrap();
    assert_eq!(table.complete(99), None);
    assert_eq!(table.complete(a), Some("a"));
    assert_eq!(table.complete(a), None);
}

#[test]
fn responses_in_any_order_reach_their_own_slots() {
    let orders: [[u64; 4]; 5] =
        [[0, 1, 2, 3], [3, 2, 1, 0], [1, 3, 0, 2], [2, 0, 3, 1], [3, 0, 1, 2]];
    for order in orders.iter() {
        let mut table = InFlightTable::new();
        for i in 0..4u64 {
            assert_eq!(table.begin(format!("slot {}", i)), Ok(i));
        }
        for id in order.iter() {
            assert_eq!(table.complete(*id), Some(format!("slot {}", id)));
        }
        assert_eq!(table.outstanding(), 0);
    }
}

#[test]
fn expired_call_hands_out_its_slot_and_swallows_the_late_response() {
    let mut table = InFlightTable::new();
    let id = table.begin("slot").unwrap();
    assert_eq!(table.expire(id), Some(("slot", CallError::Timeout)));
    assert!(!table.is_outstanding(id));
    assert!(table.is_poisoned(id));
    assert_eq!(table.expire(id), None);
    assert_eq!(table.complete(id), None);
    assert!(!table.is_poisoned(id));
}

#[test]
fn cancelled_call_is_abandoned() {
    let mut table = InFlightTable::new();
    let a = table.begin("a").unwrap();
    let b = table.begin("b").unwrap();
    assert_eq!(table.cancel(a), Some("a"));
    assert_eq!(table.cancel(a), None);
    assert_eq!(table.cancel(77), None);
    assert!(table.is_poisoned(a));
    assert!(!table.is_poisoned(77));
    assert_eq!(table.complete(a), None);
    assert_eq!(table.complete(b), Some("b"));
}

#[test]
fn transport_failure_fails_every_call_and_breaks_the_channel() {
    let mut table = InFlightTable::new();
    let a = table.begin("a").unwrap();
    let b = table.begin("b").unwrap();
    let c = table.begin("c").unwrap();
    table.expire(b);
    assert_eq!(table.broken(), None);
    let mut failed = table.fail_all(CallError::Transport);
    failed.sort();
    assert_eq!(failed, vec![(a, "a"), (c, "c")]);
    assert_eq!(table.broken(), Some(CallError::Transport));
    assert_eq!(table.outstanding(), 0);
    assert!(!table.is_poisoned(b));
    assert_eq!(table.begin("d"), Err((CallError::Transport, "d")));
    assert_eq!(table.refusal(), Some(CallError::Transport));
    assert_eq!(table.complete(a), None);
}

#[test]
fn first_cause_of_a_break_stays() {
    let mut table: InFlightTable<u8> = InFlightTable::new();
    assert!(table.fail_all(CallError::ChannelBroken).is_empty());
    assert!(table.fail_all(CallError::Transport).is_empty());
    assert_eq!(table.broken(), Some(CallError::ChannelBroken));
    assert_eq!(table.begin(1), Err((CallError::ChannelBroken, 1)));
}

#[test]
fn call_goes_from_pending_to_completed() {
    let s = CallState::Pending;
    assert!(!s.is_terminal());
    let s = s.on(CallEvent::Sent);
    assert_eq!(s, CallState::AwaitingResponse);
    assert!(!s.is_terminal());
    let s = s.on(CallEvent::Response);
    assert_eq!(s, CallState::Completed);
    assert!(s.is_terminal());
    assert_eq!(s.error(), None);
}

#[test]
fn call_ends_with_the_first_thing_that_ends_it() {
    let waiting = CallState::AwaitingResponse;
    assert_eq!(waiting.on(CallEvent::ConnectionLost), CallState::Failed);
    assert_eq!(waiting.on(CallEvent::DeadlinePassed), CallState::TimedOut);
    assert_eq!(waiting.on(CallEvent::Dropped), CallState::Cancelled);
    assert_eq!(waiting.on(CallEvent::Sent), CallState::AwaitingResponse);
    let pending = CallState::Pending;
    assert_eq!(pending.on(CallEvent::Response), CallState::Pending);
    assert_eq!(pending.on(CallEvent::ConnectionLost), CallState::Failed);
    assert_eq!(pending.on(CallEvent::DeadlinePassed), CallState::TimedOut);
    assert_eq!(pending.on(CallEvent::Dropped), CallState::Cancelled);
    assert_eq!(CallState::Failed.error(), Some(CallError::Transport));
    assert_eq!(CallState::TimedOut.error(), Some(CallError::Timeout));
    assert_eq!(CallState::Cancelled.error(), Some(CallError::Cancelled));
    assert_eq!(CallState::Pending.error(), None);
}

#[test]
fn terminal_states_are_absorbing() {
    let ends = [CallState::Completed, CallState::Failed, CallState::TimedOut, CallState::Cancelled];
    let events = [
        CallEvent::Sent,
        CallEvent::Response,
        CallEvent::ConnectionLost,
        CallEvent::DeadlinePassed,
        CallEvent::Dropped,
    ];
    for end in ends.iter() {
        assert!(end.is_terminal());
        for e in events.iter() {
            assert_eq!(end.on(*e), *end);
            for f in events.iter() {
                assert_eq!(end.on(*e).on(*f), *end);
            }
        }
    }
}
