use mutringbuf::{
    ConsIter, Detached, DetachedWorkIter, HeapSplit, LocalHeapRB, LocalStackRB, MRBIterator,
    MutRB, ProdIter, StackSplit, WorkIter,
};

const BUFFER_SIZE: usize = 400;
const HEAP_SIZE: usize = 100;

fn fill_buf(prod: &mut ProdIter, buf: &mut impl MutRB<Item = usize>, count: usize) {
    let slice = (0..count).collect::<Vec<usize>>();
    prod.push_slice(buf, &slice);
}

fn prepare(
    buf: &mut impl MutRB<Item = usize>,
    mut prod: ProdIter,
    mut work: WorkIter,
    mut cons: ConsIter<true>,
    count: usize,
) -> (ProdIter, Detached<WorkIter>, ConsIter<true>) {
    assert_eq!(prod.available(buf), count);
    assert_eq!(work.available(buf), 0);
    assert_eq!(cons.available(buf), 0);

    fill_buf(&mut prod, buf, count);

    assert_eq!(prod.available(buf), 0);
    assert_eq!(work.available(buf), count);
    assert_eq!(cons.available(buf), 0);

    let mut work = work.detach();

    for _ in 0..count {
        if let Some(data) = work.get_workable(buf) {
            *data += 1;
            work.advance(buf, 1);
        }
    }
    assert_eq!(prod.available(buf), 0);
    assert_eq!(work.available(buf), 0);
    assert_eq!(cons.available(buf), 0);

    (prod, work, cons)
}

#[test]
fn detached_work_tests_test_work_detached_sync_index() {
    let mut buf = LocalStackRB::from([0usize; BUFFER_SIZE]);
    let (prod, work, cons) = buf.split_mut();

    let (mut prod, mut work, mut cons) = prepare(&mut buf, prod, work, cons, BUFFER_SIZE - 1);

    work.sync_index(&mut buf);

    assert_eq!(prod.available(&buf), 0);
    assert_eq!(work.available(&buf), 0);
    assert_eq!(cons.available(&buf), BUFFER_SIZE - 1);

    for i in 0..BUFFER_SIZE - 1 {
        assert_eq!(cons.pop(&mut buf).unwrap(), i + 1);
    }

    assert_eq!(prod.available(&buf), BUFFER_SIZE - 1);
    assert_eq!(work.available(&buf), 0);
    assert_eq!(cons.available(&buf), 0);
}

#[test]
fn detached_work_tests_test_work_detached() {
    let mut buf = LocalStackRB::from([0usize; BUFFER_SIZE]);
    let (prod, work, cons) = buf.split_mut();

    let (mut prod, work, mut cons) = prepare(&mut buf, prod, work, cons, BUFFER_SIZE - 1);

    let mut work = work.attach(&mut buf);

    assert_eq!(prod.available(&buf), 0);
    assert_eq!(work.available(&buf), 0);
    assert_eq!(cons.available(&buf), BUFFER_SIZE - 1);

    for i in 0..BUFFER_SIZE - 1 {
        assert_eq!(cons.pop(&mut buf).unwrap(), i + 1);
    }

    assert_eq!(prod.available(&buf), BUFFER_SIZE - 1);
    assert_eq!(work.available(&buf), 0);
    assert_eq!(cons.available(&buf), 0);
}

#[test]
fn detached_work_tests_test_work_detached_set_index() {
    let mut buf = LocalStackRB::from([0usize; BUFFER_SIZE]);
    let (prod, work, cons) = buf.split_mut();

    let (mut prod, mut work, mut cons) = prepare(&mut buf, prod, work, cons, BUFFER_SIZE - 1);

    work.set_index(work.index() - 1);

    assert_eq!(prod.available(&buf), 0);
    assert_eq!(work.available(&buf), 1);
    assert_eq!(cons.available(&buf), 0);

    let mut work = work.attach(&mut buf);

    assert_eq!(prod.available(&buf), 0);
    assert_eq!(work.available(&buf), 1);
    assert_eq!(cons.available(&buf), BUFFER_SIZE - 2);

    for i in 0..BUFFER_SIZE - 2 {
        assert_eq!(cons.pop(&mut buf).unwrap(), i + 1);
    }

    assert_eq!(prod.available(&buf), BUFFER_SIZE - 2);
    assert_eq!(work.available(&buf), 1);
    assert_eq!(cons.available(&buf), 0);
}

#[test]
fn detached_work_tests_test_work_go_back() {
    let mut buf = LocalStackRB::from([0usize; BUFFER_SIZE]);
    let (_, work, _) = buf.split_mut();

    let mut work = work.detach();

    assert_eq!(work.index(), 0);

    work.go_back(&buf, 1);

    assert_eq!(work.index(), BUFFER_SIZE - 1);

    work.advance(&buf, 2);

    assert_eq!(work.index(), 1);

    work.go_back(&buf, 1);

    assert_eq!(work.index(), 0);
}

#[test]
fn datached_work_tests_test_work_detached_sync_index() {
    let (mut buf, prod, work, cons) =
        LocalHeapRB::from(vec![0usize; HEAP_SIZE + 1]).split_mut();

    let (mut prod, mut work, mut cons) = prepare(&mut buf, prod, work, cons, HEAP_SIZE);

    work.sync_index(&mut buf);

    assert_eq!(prod.available(&buf), 0);
    assert_eq!(work.available(&buf), 0);
    assert_eq!(cons.available(&buf), HEAP_SIZE);

    for i in 0..HEAP_SIZE {
        assert_eq!(cons.pop(&mut buf).unwrap(), i + 1);
    }

    assert_eq!(prod.available(&buf), HEAP_SIZE);
    assert_eq!(work.available(&buf), 0);
    assert_eq!(cons.available(&buf), 0);
}

#[test]
fn datached_work_tests_test_work_detached() {
    let (mut buf, prod, work, cons) =
        LocalHeapRB::from(vec![0usize; HEAP_SIZE + 1]).split_mut();

    let (mut prod, work, mut cons) = prepare(&mut buf, prod, work, cons, HEAP_SIZE);

    let mut work = work.attach(&mut buf);

    assert_eq!(prod.available(&buf), 0);
    assert_eq!(work.available(&buf), 0);
    assert_eq!(cons.available(&buf), HEAP_SIZE);

    for i in 0..HEAP_SIZE {
        assert_eq!(cons.pop(&mut buf).unwrap(), i + 1);
    }

    assert_eq!(prod.available(&buf), HEAP_SIZE);
    assert_eq!(work.available(&buf), 0);
    assert_eq!(cons.available(&buf), 0);
}

#[test]
fn datached_work_tests_test_work_detached_set_index() {
    let (mut buf, prod, work, cons) =
        LocalHeapRB::from(vec![0usize; HEAP_SIZE + 1]).split_mut();

    let (mut prod, mut work, mut cons) = prepare(&mut buf, prod, work, cons, HEAP_SIZE);

    work.set_index(work.index() - 1);

    assert_eq!(prod.available(&buf), 0);
    assert_eq!(work.available(&buf), 1);
    assert_eq!(cons.available(&buf), 0);

    let mut work = work.attach(&mut buf);

    assert_eq!(prod.available(&buf), 0);
    assert_eq!(work.available(&buf), 1);
    assert_eq!(cons.available(&buf), HEAP_SIZE - 1);

    for i in 0..HEAP_SIZE - 1 {
        assert_eq!(cons.pop(&mut buf).unwrap(), i + 1);
    }

    assert_eq!(prod.available(&buf), HEAP_SIZE - 1);
    assert_eq!(work.available(&buf), 1);
    assert_eq!(cons.available(&buf), 0);
}

#[test]
fn datached_work_tests_test_work_go_back() {
    let (buf, _, work, _) = LocalHeapRB::from(vec![0usize; HEAP_SIZE + 1]).split_mut();

    let mut work: DetachedWorkIter = work.detach();

    assert_eq!(work.index(), 0);

    work.go_back(&buf, 1);

    assert_eq!(work.index(), HEAP_SIZE);

    work.advance(&buf, 2);

    assert_eq!(work.index(), 1);

    work.go_back(&buf, 1);

    assert_eq!(work.index(), 0);
}

#[test]
fn go_back_gives_back_what_was_stepped_over() {
    let mut buf = LocalStackRB::from([0usize; 6]);
    let (mut prod, work, mut cons) = buf.split_mut();
    fill_buf(&mut prod, &mut buf, 5);
    let mut work = work.detach();

    assert_eq!(work.available(&buf), 5);
    work.advance(&buf, 3);
    assert_eq!((work.index(), work.cached_avail()), (3, 2));
    assert_eq!(cons.available(&buf), 0);
    work.go_back(&buf, 2);
    assert_eq!((work.index(), work.cached_avail()), (1, 4));
    assert_eq!(work.available(&buf), 4);
    work.reset_index(&buf);
    assert_eq!((work.index(), work.cached_avail()), (5, 0));
    assert_eq!(work.work_index(&buf), 0);
    assert_eq!(work.buf_len(&buf), 6);
}

#[test]
fn sync_index_then_attach_is_attach_alone() {
    let mut first = LocalStackRB::from([0usize; 6]);
    let (mut prod, work, mut cons) = first.split_mut();
    fill_buf(&mut prod, &mut first, 5);
    let mut work = work.detach();
    work.advance(&first, 3);
    work.sync_index(&mut first);
    let work = work.attach(&mut first);
    let synced = (work.index(), work.work_index(&first), cons.available(&first));

    let mut second = LocalStackRB::from([0usize; 6]);
    let (mut prod, work, mut cons) = second.split_mut();
    fill_buf(&mut prod, &mut second, 5);
    let mut work = work.detach();
    work.advance(&second, 3);
    let work = work.attach(&mut second);
    let attached = (work.index(), work.work_index(&second), cons.available(&second));

    assert_eq!(synced, attached);
    assert_eq!(attached, (3, 3, 3));
}
