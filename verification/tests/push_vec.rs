use std::rc::Rc;
use sync_push_vec::sync_push_vec::SyncPushVec;
use sync_push_vec::TryReserveError;

#[test]
fn empty_sequence_is_free() {
    let v = SyncPushVec::<u64>::new();
    let r = v.read();
    assert_eq!(r.len(), 0);
    assert_eq!(r.capacity(), 0);
    assert!(r.get(0).is_none());
}

#[test]
fn scenario_zero_capacity_three_pushes() {
    let mut v = SyncPushVec::<u64>::new();
    v.push(10);
    v.push(20);
    v.push(30);
    assert_eq!(v.len(), 3);
    let r = v.read();
    assert_eq!(r.get(0), Some(&10));
    assert_eq!(r.get(1), Some(&20));
    assert_eq!(r.get(2), Some(&30));
    assert!(r.capacity() >= 3);
}

#[test]
fn scenario_capacity_two_then_growth() {
    let mut v = SyncPushVec::<u64>::with_capacity(2);
    assert_eq!(v.read().capacity(), 2);
    v.push(1);
    v.push(2);
    assert_eq!(v.read().capacity(), 2);
    v.push(3);
    let r = v.read();
    assert!(r.capacity() >= 3);
    assert_eq!(r.get(0), Some(&1));
    assert_eq!(r.get(1), Some(&2));
    assert_eq!(r.get(2), Some(&3));
}

#[test]
fn serialized_pushes_in_order() {
    let mut v = SyncPushVec::<usize>::new();
    for i in 0..100 {
        let idx = v.push(i * 7);
        assert_eq!(idx, i);
    }
    assert_eq!(v.len(), 100);
    let r = v.read();
    for i in 0..100 {
        assert_eq!(r.get(i), Some(&(i * 7)));
    }
    assert!(r.get(100).is_none());
}

#[test]
fn iter_is_a_snapshot_in_index_order() {
    let mut v = SyncPushVec::<u64>::new();
    v.push(4);
    v.push(5);
    v.push(6);
    let r = v.read();
    let s = r.iter();
    assert_eq!(s, &[4, 5, 6]);
    let collected: Vec<u64> = s.iter().copied().collect();
    assert_eq!(collected, vec![4, 5, 6]);
}

#[test]
fn growth_preserves_history_and_is_exact_fit() {
    let mut v = SyncPushVec::<u64>::with_capacity(4);
    v.push(11);
    v.push(22);
    v.push(33);
    v.push(44);
    v.reserve(10);
    let r = v.read();
    assert_eq!(r.capacity(), 14);
    assert_eq!(r.len(), 4);
    assert_eq!(r.get(0), Some(&11));
    assert_eq!(r.get(1), Some(&22));
    assert_eq!(r.get(2), Some(&33));
    assert_eq!(r.get(3), Some(&44));
}

#[test]
fn try_reserve_grows() {
    let mut v = SyncPushVec::<u64>::new();
    assert!(v.try_reserve(8).is_ok());
    assert_eq!(v.read().capacity(), 8);
    assert_eq!(v.len(), 0);
}

#[test]
fn try_reserve_overflow_reported_before_allocating() {
    let mut v = SyncPushVec::<u64>::new();
    v.push(5);
    let e = v.try_reserve(usize::MAX).unwrap_err();
    assert_eq!(e, TryReserveError::CapacityOverflow);
    assert_eq!(v.len(), 1);
    assert_eq!(v.read().capacity(), 1);
    assert_eq!(v.read().get(0), Some(&5));
}

#[test]
fn get_mut_updates_in_place() {
    let mut v = SyncPushVec::<u64>::new();
    v.push(1);
    v.push(2);
    v.push(3);
    *v.get_mut(1).unwrap() = 9;
    assert!(v.get_mut(3).is_none());
    let r = v.read();
    assert_eq!(r.get(1), Some(&9));
    assert_eq!(r.get(0), Some(&1));
    assert_eq!(r.get(2), Some(&3));
}

#[test]
fn interrupted_growth_changes_nothing() {
    let mut v = SyncPushVec::<u64>::with_capacity(3);
    v.push(7);
    v.push(8);
    v.push(9);
    let grew = v.reserve_interrupted(5, 1);
    assert!(!grew);
    assert_eq!(v.len(), 3);
    assert_eq!(v.old.len(), 0);
    let r = v.read();
    assert_eq!(r.capacity(), 3);
    assert_eq!(r.get(0), Some(&7));
    assert_eq!(r.get(1), Some(&8));
    assert_eq!(r.get(2), Some(&9));
    let grew_past_end = v.reserve_interrupted(5, 3);
    assert!(grew_past_end);
    assert_eq!(v.read().capacity(), 8);
    assert_eq!(v.old.len(), 1);
    assert_eq!(v.read().get(2), Some(&9));
}

#[test]
fn interrupted_growth_leaks_nothing() {
    let probe = Rc::new(());
    let mut v = SyncPushVec::<Rc<()>>::with_capacity(2);
    v.push(probe.clone());
    v.push(probe.clone());
    let before = Rc::strong_count(&probe);
    assert_eq!(before, 3);
    let grew = v.reserve_interrupted(4, 1);
    assert!(!grew);
    assert_eq!(Rc::strong_count(&probe), before);
    drop(v);
    assert_eq!(Rc::strong_count(&probe), 1);
}

#[test]
fn teardown_releases_every_pending_table_once() {
    let probe = Rc::new(());
    let mut v = SyncPushVec::<Rc<()>>::new();
    v.push(probe.clone());
    v.push(probe.clone());
    v.push(probe.clone());
    // every push grew the exact-fit table, so three tables were retired and
    // the two non-empty ones still hold clones of their elements
    assert_eq!(v.old.len(), 3);
    assert_eq!(Rc::strong_count(&probe), 7);
    v.teardown();
    assert_eq!(Rc::strong_count(&probe), 1);
    assert_eq!(v.old.len(), 3);
    assert!(v.old.iter().all(|d| d.table.is_none()));
    v.teardown();
    assert_eq!(Rc::strong_count(&probe), 1);
    drop(v);
    assert_eq!(Rc::strong_count(&probe), 1);
}

#[test]
fn drop_with_pending_tables_releases_everything() {
    let probe = Rc::new(());
    let mut v = SyncPushVec::<Rc<()>>::new();
    for _ in 0..5 {
        v.push(probe.clone());
    }
    assert!(v.old.len() >= 4);
    assert!(Rc::strong_count(&probe) > 6);
    drop(v);
    assert_eq!(Rc::strong_count(&probe), 1);
}
