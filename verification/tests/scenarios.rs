use mutringbuf::{HeapSplit, LocalHeapRB, MRBIterator, MutRB, UnsafeSyncCell};
use std::rc::Rc;

fn lens(pair: (&[UnsafeSyncCell<i32>], &[UnsafeSyncCell<i32>])) -> (usize, usize) {
    (pair.0.len(), pair.1.len())
}

#[test]
fn five_slots_hold_four_items() {
    let (mut buf, mut prod, mut cons) = LocalHeapRB::from(vec![0i32; 5]).split();

    for i in 0..4 {
        assert!(prod.push(&mut buf, i).is_ok());
    }
    assert!(prod.push(&mut buf, 4).is_err());
    for i in 0..4 {
        assert_eq!(cons.pop(&mut buf), Some(i));
    }
    assert_eq!(prod.available(&buf), 4);
    assert_eq!(cons.available(&buf), 0);

    assert!(prod.push(&mut buf, 10).is_ok());
    for i in 11..14 {
        assert!(prod.push(&mut buf, i).is_ok());
    }
    assert_eq!(prod.push(&mut buf, 14), Err(14));
    assert_eq!(prod.available(&buf), 0);
    assert_eq!(cons.available(&buf), 4);
}

#[test]
fn a_window_is_cut_where_the_storage_ends() {
    // Push 2, pop 1, push 3: the consumer stands at 1 and four items wait, which
    // reach the end of the storage exactly.
    let (mut buf, mut prod, mut cons) = LocalHeapRB::from(vec![0i32; 5]).split();
    assert!(prod.push_slice(&mut buf, &[1, 2]).is_some());
    assert_eq!(cons.pop(&mut buf), Some(1));
    assert!(prod.push_slice(&mut buf, &[3, 4, 5]).is_some());
    assert_eq!(prod.index(), 0);
    assert_eq!(lens(cons.peek_available(&buf).unwrap()), (4, 0));
    assert_eq!(lens(cons.peek_slice(&buf, 4).unwrap()), (4, 0));

    // Push 4, pop 4, push 4: the consumer stands at 4, and the four items that wait
    // wrap around: one before the end of the storage, three after its start.
    let (mut buf, mut prod, mut cons) = LocalHeapRB::from(vec![0i32; 5]).split();
    assert!(prod.push_slice(&mut buf, &[1, 2, 3, 4]).is_some());
    cons.advance(&mut buf, 4);
    assert!(prod.push_slice(&mut buf, &[5, 6, 7, 8]).is_some());
    {
        let (head, tail) = cons.peek_available(&buf).unwrap();
        assert_eq!((head.len(), tail.len()), (1, 3));
        assert_eq!(*head[0].inner_ref(), 5);
        assert_eq!(*tail[0].inner_ref(), 6);
        assert_eq!(*tail[1].inner_ref(), 7);
        assert_eq!(*tail[2].inner_ref(), 8);
    }
    assert_eq!(lens(cons.peek_slice(&buf, 1).unwrap()), (1, 0));
    assert_eq!(lens(cons.peek_slice(&buf, 2).unwrap()), (1, 1));
    assert!(cons.peek_slice(&buf, 5).is_none());
}

#[test]
fn the_consumer_reads_what_the_worker_has_gone_over() {
    // Five slots hold four items: the fifth push fails.
    let (mut buf, mut prod, _work, _cons) = LocalHeapRB::from(vec![0i32; 5]).split_mut();
    for i in 0..4 {
        assert!(prod.push(&mut buf, i).is_ok());
    }
    assert!(prod.push(&mut buf, 4).is_err());

    // Room for five: push 5, the worker adds 1 to three of them.
    let (mut buf, mut prod, mut work, mut cons) = LocalHeapRB::from(vec![0i32; 6]).split_mut();
    for i in 0..5 {
        assert!(prod.push(&mut buf, 10 * i).is_ok());
    }
    for _ in 0..3 {
        *work.get_workable(&mut buf).unwrap() += 1;
        work.advance(&mut buf, 1);
    }
    assert_eq!(cons.pop(&mut buf), Some(1));
    assert_eq!(cons.pop(&mut buf), Some(11));
    assert_eq!(cons.pop(&mut buf), Some(21));
    assert_eq!(cons.available(&buf), 0);
    assert_eq!(cons.pop(&mut buf), None);
    assert_eq!(work.available(&buf), 2);
}

#[test]
fn a_detached_worker_lets_the_consumer_on_when_it_synchronises() {
    let (mut buf, mut prod, work, mut cons) = LocalHeapRB::from(vec![0i32; 6]).split_mut();
    for i in 0..5 {
        assert!(prod.push(&mut buf, i).is_ok());
    }
    let mut work = work.detach();
    work.advance(&buf, 3);
    assert_eq!(cons.available(&buf), 0);
    assert_eq!(work.work_index(&buf), 0);
    work.sync_index(&mut buf);
    assert_eq!(cons.available(&buf), 3);
    assert_eq!(work.work_index(&buf), 3);
    assert_eq!(work.available(&buf), 2);
}

#[test]
fn moved_out_slots_are_filled_again_and_each_item_is_dropped_once() {
    let old: Vec<Rc<u32>> = (0..4).map(Rc::new).collect();
    let fresh: Vec<Rc<u32>> = (10..14).map(Rc::new).collect();
    let (mut buf, mut prod, mut cons) =
        LocalHeapRB::from(vec![Rc::new(0u32), Rc::new(0), Rc::new(0), Rc::new(0), Rc::new(0)])
            .split();

    assert!(prod.push_slice_clone(&mut buf, &old).is_some());
    assert!(old.iter().all(|x| Rc::strong_count(x) == 2));
    for x in &old {
        let got = cons.pop_move(&mut buf).unwrap();
        assert!(Rc::ptr_eq(&got, x));
    }
    // The items that were moved out are gone; the buffer holds none of them.
    assert!(old.iter().all(|x| Rc::strong_count(x) == 1));
    {
        let storage = buf.inner();
        let cells = mutringbuf::Storage::as_slice(storage);
        let zeroed: Vec<bool> = cells.iter().map(|c| c.check_zeroed()).collect();
        assert_eq!(zeroed, vec![true, true, true, true, false]);
    }

    assert!(prod.push_slice_clone_init(&mut buf, &fresh).is_some());
    {
        let storage = buf.inner();
        let cells = mutringbuf::Storage::as_slice(storage);
        // The producer stood at slot 4: it filled the slots 4, 0, 1 and 2.
        let zeroed: Vec<bool> = cells.iter().map(|c| c.check_zeroed()).collect();
        assert_eq!(zeroed, vec![false, false, false, true, false]);
    }
    let mut read = vec![];
    while let Some(x) = cons.peek_ref(&buf) {
        read.push(x.clone());
        cons.advance(&mut buf, 1);
    }
    assert_eq!(read.len(), 4);
    assert!(read.iter().zip(&fresh).all(|(a, b)| Rc::ptr_eq(a, b)));
    drop(read);
    assert!(fresh.iter().all(|x| Rc::strong_count(x) == 2));
    prod.drop(&mut buf);
    cons.drop(&mut buf);
    assert!(!buf.live());
    assert!(fresh.iter().all(|x| Rc::strong_count(x) == 1));
    assert!(old.iter().all(|x| Rc::strong_count(x) == 1));
}

#[test]
fn what_is_popped_is_what_was_pushed_in_order() {
    let (mut buf, mut prod, mut cons) = LocalHeapRB::from(vec![0i32; 8]).split();
    let mut next = 0;
    let mut expected = 0;
    for round in 0..50 {
        let pushes = 1 + round % 7;
        for _ in 0..pushes {
            if prod.push(&mut buf, next).is_ok() {
                next += 1;
            }
        }
        let pops = 1 + round % 5;
        for _ in 0..pops {
            if let Some(v) = cons.pop(&mut buf) {
                assert_eq!(v, expected);
                expected += 1;
            }
        }
    }
    while let Some(v) = cons.pop(&mut buf) {
        assert_eq!(v, expected);
        expected += 1;
    }
    assert_eq!(expected, next);
    assert!(next > 50);
}

#[test]
fn every_position_stays_below_the_length() {
    let (mut buf, mut prod, mut work, mut cons) = LocalHeapRB::from(vec![0i32; 5]).split_mut();
    for round in 0..40 {
        let _ = prod.push(&mut buf, round);
        if round % 3 == 0 {
            let n = work.available(&buf);
            work.advance(&mut buf, n);
        }
        if round % 4 == 0 {
            let _ = cons.pop(&mut buf);
        }
        for index in [prod.prod_index(&buf), prod.work_index(&buf), prod.cons_index(&buf)] {
            assert!(index < 5);
        }
        let (p, w, c) = (prod.available(&buf), work.available(&buf), cons.available(&buf));
        assert_eq!(p + w + c, 4);
    }
}
