use mutringbuf::model::ring_math::{
    pending_slots, step_backward, step_forward, vacant_slots, window_lengths,
};
use mutringbuf::model::ring_view::wake_target;
use mutringbuf::ring_buffer::storage::heap::get_range_max;
use mutringbuf::ring_buffer::storage::slot_mut;
use mutringbuf::{
    get_page_size_mul, HeapStorage, IterManager, LocalMutRingBuf, MutRB, Role, StackStorage,
    Storage, UnsafeSyncCell,
};

#[test]
fn pending_is_the_walk_to_the_role_ahead() {
    assert_eq!(pending_slots(0, 0, 5), 0);
    assert_eq!(pending_slots(1, 4, 5), 3);
    assert_eq!(pending_slots(4, 1, 5), 2);
    assert_eq!(pending_slots(4, 0, 5), 1);
    assert_eq!(pending_slots(0, 4, 5), 4);
    assert_eq!(pending_slots(0, 0, 1), 0);
}

#[test]
fn one_slot_always_stays_free() {
    assert_eq!(vacant_slots(0, 0, 5), 4);
    assert_eq!(vacant_slots(1, 4, 5), 2);
    assert_eq!(vacant_slots(4, 1, 5), 1);
    assert_eq!(vacant_slots(3, 4, 5), 0);
    assert_eq!(vacant_slots(4, 0, 5), 0);
    assert_eq!(vacant_slots(0, 0, 1), 0);
}

#[test]
fn steps_wrap_around() {
    assert_eq!(step_forward(0, 0, 5), 0);
    assert_eq!(step_forward(3, 1, 5), 4);
    assert_eq!(step_forward(3, 2, 5), 0);
    assert_eq!(step_forward(4, 4, 5), 3);
    assert_eq!(step_forward(2, 5, 5), 2);
    assert_eq!(step_forward(usize::MAX - 1, usize::MAX, usize::MAX), usize::MAX - 1);
    assert_eq!(step_backward(0, 0, 5), 0);
    assert_eq!(step_backward(0, 1, 5), 4);
    assert_eq!(step_backward(3, 3, 5), 0);
    assert_eq!(step_backward(1, 4, 5), 2);
    assert_eq!(step_backward(2, 5, 5), 2);
}

#[test]
fn a_window_is_a_head_and_a_tail() {
    assert_eq!(window_lengths(0, 0, 5), (0, 0));
    assert_eq!(window_lengths(1, 4, 5), (4, 0));
    assert_eq!(window_lengths(4, 4, 5), (1, 3));
    assert_eq!(window_lengths(4, 1, 5), (1, 0));
    assert_eq!(window_lengths(2, 5, 5), (3, 2));
}

#[test]
fn page_size_multiples() {
    assert_eq!(get_page_size_mul(0, 4096), 0);
    assert_eq!(get_page_size_mul(1, 4096), 4096);
    assert_eq!(get_page_size_mul(4096, 4096), 4096);
    assert_eq!(get_page_size_mul(4097, 4096), 8192);
    assert_eq!(get_page_size_mul(10, 3), 12);
    assert_eq!(get_page_size_mul(7, 1), 7);
    assert_eq!(get_range_max(17), 17);
}

#[test]
fn the_role_behind_is_woken() {
    assert_eq!(wake_target(Role::Producer, true), Role::Worker);
    assert_eq!(wake_target(Role::Producer, false), Role::Consumer);
    assert_eq!(wake_target(Role::Worker, true), Role::Consumer);
    assert_eq!(wake_target(Role::Consumer, true), Role::Producer);
    assert_eq!(wake_target(Role::Consumer, false), Role::Producer);
}

#[test]
fn a_slot_holds_a_value_or_is_zeroed() {
    let mut cell = UnsafeSyncCell::new(5u32);
    assert!(!cell.check_zeroed());
    assert_eq!(*cell.inner_ref(), 5);
    assert_eq!(cell.inner_duplicate(), 5);
    *cell.inner_ref_mut() += 1;
    assert_eq!(cell.take_inner(), 6);
    assert!(cell.check_zeroed());
    cell.write(9);
    assert!(!cell.check_zeroed());
    assert_eq!(*cell.inner_ref(), 9);
    cell.write(10);
    assert_eq!(cell.take_inner(), 10);

    let zeroed = UnsafeSyncCell::<String>::new_zeroed();
    assert!(zeroed.check_zeroed());
    assert!(zeroed.clone().check_zeroed());
    let filled: UnsafeSyncCell<String> = UnsafeSyncCell::from(String::from("a"));
    assert_eq!(filled.clone().take_inner(), "a");
    let default: UnsafeSyncCell<u8> = Default::default();
    assert_eq!(*default.inner_ref(), 0);
}

#[test]
fn storage_keeps_its_slots_in_order() {
    let mut heap = HeapStorage::from(vec![1u8, 2, 3]);
    assert_eq!(heap.len(), 3);
    assert_eq!(*heap.as_slice()[2].inner_ref(), 3);
    heap.as_mut_slice()[0].write(7);
    assert_eq!(*slot_mut(heap.as_mut_slice(), 0).inner_ref(), 7);
    let zeroed = HeapStorage::<String>::new_zeroed(4);
    assert_eq!(zeroed.len(), 4);
    assert!(zeroed.as_slice().iter().all(|c| c.check_zeroed()));
    let cells = HeapStorage::new(vec![UnsafeSyncCell::new(1u8), UnsafeSyncCell::new_zeroed()]);
    assert_eq!(cells.len(), 2);
    assert!(cells.as_slice()[1].check_zeroed());

    let mut stack = StackStorage::from([String::from("a"), String::from("b")]);
    assert_eq!(stack.len(), 2);
    assert_eq!(stack.as_slice()[0].inner_ref(), "a");
    assert_eq!(stack.as_mut_slice()[1].take_inner(), "b");
    let zeroed = StackStorage::<String, 3>::new_zeroed();
    assert_eq!(zeroed.len(), 3);
    assert!(zeroed.as_slice().iter().all(|c| c.check_zeroed()));
    let cells = StackStorage::new([UnsafeSyncCell::new(1u8), UnsafeSyncCell::new_zeroed()]);
    assert!(!cells.as_slice()[0].check_zeroed());
    assert!(cells.as_slice()[1].check_zeroed());
}

#[test]
fn a_buffer_publishes_what_it_is_told() {
    let mut buf = LocalMutRingBuf::_from(HeapStorage::from(vec![0u8; 4]));
    assert_eq!((buf.prod_index(), buf.work_index(), buf.cons_index()), (0, 0, 0));
    assert_eq!(buf.alive_iters(), 0);
    assert_eq!(buf.inner_len(), 4);
    buf.set_alive_iters(3);
    assert_eq!(buf.alive_iters(), 3);
    assert!(buf.has_worker());
    assert!(buf.is_alive(Role::Worker));
    buf.set_prod_index(3);
    buf.set_work_index(2);
    buf.set_cons_index(1);
    assert_eq!((buf.prod_index(), buf.work_index(), buf.cons_index()), (3, 2, 1));
    assert_eq!(buf.drop_iter(Role::Worker), 3);
    assert!(!buf.is_alive(Role::Worker));
    assert!(buf.is_alive(Role::Producer));
    assert_eq!(buf.drop_iter(Role::Producer), 2);
    assert_eq!(buf.drop_iter(Role::Consumer), 1);
    assert_eq!(buf.alive_iters(), 0);
    buf.acquire_fence();
    buf.set_alive_iters(2);
    assert!(!buf.has_worker());
    assert!(!buf.is_alive(Role::Worker));
    assert!(buf.is_alive(Role::Consumer));
}
