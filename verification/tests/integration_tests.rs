use mutringbuf::{HeapSplit, LocalHeapRB, MRBIterator, UnsafeSyncCell};

const BUFFER_SIZE: usize = 300;

fn concat(head: &[UnsafeSyncCell<usize>], tail: &[UnsafeSyncCell<usize>]) -> Vec<usize> {
    head.iter().chain(tail.iter()).map(|c| *c.inner_ref()).collect()
}

#[test]
fn test_push_work_pop_single() {
    let (mut buf, mut prod, mut work, mut cons) =
        LocalHeapRB::<usize>::default(BUFFER_SIZE + 1).split_mut();

    assert_eq!(prod.available(&buf), BUFFER_SIZE);
    assert_eq!(work.available(&buf), 0);
    assert_eq!(cons.available(&buf), 0);

    for i in 0..BUFFER_SIZE {
        let _ = prod.push(&mut buf, i);
    }
    assert_eq!(prod.available(&buf), 0);
    assert_eq!(work.available(&buf), BUFFER_SIZE);
    assert_eq!(cons.available(&buf), 0);

    for _ in 0..BUFFER_SIZE {
        if let Some(data) = work.get_workable(&mut buf) {
            *data += 1;
            work.advance(&mut buf, 1);
        }
    }
    assert_eq!(prod.available(&buf), 0);
    assert_eq!(work.available(&buf), 0);
    assert_eq!(cons.available(&buf), BUFFER_SIZE);

    for i in 0..BUFFER_SIZE {
        assert_eq!(cons.pop(&mut buf).unwrap(), i + 1);
    }

    assert_eq!(prod.available(&buf), BUFFER_SIZE);
    assert_eq!(work.available(&buf), 0);
    assert_eq!(cons.available(&buf), 0);
}

#[test]
fn test_push_work_pop_slice() {
    let (mut buf, mut prod, mut work, mut cons) =
        LocalHeapRB::<usize>::default(BUFFER_SIZE + 1).split_mut();

    let slice = (0..BUFFER_SIZE).collect::<Vec<usize>>();

    assert_eq!(prod.available(&buf), BUFFER_SIZE);
    assert_eq!(work.available(&buf), 0);
    assert_eq!(cons.available(&buf), 0);

    prod.push_slice(&mut buf, &slice);

    assert_eq!(prod.available(&buf), 0);
    assert_eq!(work.available(&buf), BUFFER_SIZE);
    assert_eq!(cons.available(&buf), 0);

    let mut worked = false;
    if let Some((h, t)) = work.get_workable_slice_exact(&mut buf, BUFFER_SIZE) {
        for i in h.iter_mut().chain(t) {
            *i.inner_ref_mut() += 1;
        }
        worked = true;
    }
    if worked {
        work.advance(&mut buf, BUFFER_SIZE);
    }

    assert_eq!(prod.available(&buf), 0);
    assert_eq!(work.available(&buf), 0);
    assert_eq!(cons.available(&buf), BUFFER_SIZE);

    if let Some((h, t)) = cons.peek_slice(&buf, BUFFER_SIZE) {
        for (consumed, i) in concat(h, t).iter().zip(slice) {
            assert_eq!(*consumed, i + 1);
        }
    }
    cons.advance(&mut buf, BUFFER_SIZE);

    assert_eq!(prod.available(&buf), BUFFER_SIZE);
    assert_eq!(work.available(&buf), 0);
    assert_eq!(cons.available(&buf), 0);
}

#[test]
fn test_reset() {
    let (mut buf, mut prod, mut work, mut cons) =
        LocalHeapRB::<usize>::default(BUFFER_SIZE + 1).split_mut();

    let two_thirds_slice = (0..BUFFER_SIZE / 3 * 2).collect::<Vec<usize>>();
    let slice = (0..BUFFER_SIZE).collect::<Vec<usize>>();

    assert_eq!(prod.available(&buf), BUFFER_SIZE);
    assert_eq!(work.available(&buf), 0);
    assert_eq!(cons.available(&buf), 0);

    prod.push_slice(&mut buf, &two_thirds_slice);

    assert_eq!(prod.available(&buf), BUFFER_SIZE / 3);
    assert_eq!(work.available(&buf), BUFFER_SIZE / 3 * 2);
    assert_eq!(cons.available(&buf), 0);

    work.advance(&mut buf, BUFFER_SIZE / 3);

    assert_eq!(prod.available(&buf), BUFFER_SIZE / 3);
    assert_eq!(work.available(&buf), BUFFER_SIZE / 3);
    assert_eq!(cons.available(&buf), BUFFER_SIZE / 3);

    work.reset_index(&mut buf);

    assert_eq!(prod.available(&buf), BUFFER_SIZE / 3);
    assert_eq!(work.available(&buf), 0);
    assert_eq!(cons.available(&buf), BUFFER_SIZE / 3 * 2);

    cons.reset_index(&mut buf);

    assert_eq!(prod.available(&buf), BUFFER_SIZE);
    assert_eq!(work.available(&buf), 0);
    assert_eq!(cons.available(&buf), 0);

    prod.push_slice(&mut buf, &slice);

    assert_eq!(prod.available(&buf), 0);
    assert_eq!(work.available(&buf), BUFFER_SIZE);
    assert_eq!(cons.available(&buf), 0);

    work.reset_index(&mut buf);

    assert_eq!(prod.available(&buf), 0);
    assert_eq!(work.available(&buf), 0);
    assert_eq!(cons.available(&buf), BUFFER_SIZE);
}

#[test]
fn reset_index_twice_is_reset_index_once() {
    let (mut buf, mut prod, mut work, mut cons) =
        LocalHeapRB::<usize>::default(8).split_mut();

    prod.push_slice(&mut buf, &[1, 2, 3, 4, 5]);
    work.advance(&mut buf, 3);

    cons.reset_index(&mut buf);
    let after_one = (cons.index(), cons.cons_index(&buf), cons.cached_avail());
    cons.reset_index(&mut buf);
    assert_eq!((cons.index(), cons.cons_index(&buf), cons.cached_avail()), after_one);
    assert_eq!(after_one, (3, 3, 0));

    work.reset_index(&mut buf);
    let after_one = (work.index(), work.work_index(&buf), work.cached_avail());
    work.reset_index(&mut buf);
    assert_eq!((work.index(), work.work_index(&buf), work.cached_avail()), after_one);
    assert_eq!(after_one, (5, 5, 0));
}
