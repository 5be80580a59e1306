use mutringbuf::{
    HeapSplit, LocalHeapRB, LocalStackRB, MRBIterator, MutRB, ProdIter, StackSplit,
    UnsafeSyncCell,
};

const BUFFER_SIZE: usize = 100;

fn fill_buf<B: MutRB<Item = usize>>(prod: &mut ProdIter, buf: &mut B, count: usize) {
    for i in 0..count {
        let _ = prod.push(buf, i);
    }
}

fn concat(head: &[UnsafeSyncCell<usize>], tail: &[UnsafeSyncCell<usize>]) -> Vec<usize> {
    head.iter().chain(tail.iter()).map(|c| *c.inner_ref()).collect()
}

#[test]
fn test_pop_exact() {
    let mut buf = LocalStackRB::from([0usize; BUFFER_SIZE + 1]);
    let (mut prod, mut cons) = buf.split();

    assert!(cons.pop(&mut buf).is_none());

    fill_buf(&mut prod, &mut buf, BUFFER_SIZE);

    for i in 0..BUFFER_SIZE {
        assert_eq!(cons.pop(&mut buf).unwrap(), i);
    }

    assert!(cons.pop(&mut buf).is_none());

    fill_buf(&mut prod, &mut buf, BUFFER_SIZE);

    for i in 0..BUFFER_SIZE {
        assert_eq!(cons.pop(&mut buf).unwrap(), i);
    }

    assert!(cons.pop(&mut buf).is_none());
}

#[test]
fn test_pop_ref_exact() {
    let (mut buf, mut prod, mut cons) = LocalHeapRB::from(vec![0usize; BUFFER_SIZE + 1]).split();

    fill_buf(&mut prod, &mut buf, BUFFER_SIZE);

    for i in 0..BUFFER_SIZE {
        assert_eq!(cons.peek_ref(&buf).unwrap(), &i);
        cons.advance(&mut buf, 1);
    }

    assert!(cons.pop(&mut buf).is_none());
}

#[test]
fn test_pop_slice_exact() {
    let (mut buf, mut prod, mut cons) = LocalHeapRB::from(vec![0usize; BUFFER_SIZE + 1]).split();

    fill_buf(&mut prod, &mut buf, BUFFER_SIZE);

    {
        let (head, tail) = cons.peek_slice(&buf, BUFFER_SIZE).unwrap();
        assert!(!head.is_empty() || !tail.is_empty());

        for (p, i) in concat(head, tail).iter().zip(0..BUFFER_SIZE) {
            assert_eq!(p, &i);
        }
    }
    cons.advance(&mut buf, BUFFER_SIZE);

    assert!(cons.pop(&mut buf).is_none());
}

#[test]
fn test_pop_avail_nw_exact() {
    let (mut buf, mut prod, mut cons) = LocalHeapRB::from(vec![0usize; BUFFER_SIZE + 1]).split();

    fill_buf(&mut prod, &mut buf, BUFFER_SIZE);

    {
        let (head, tail) = cons.peek_available(&buf).unwrap();
        assert_eq!(head.len() + tail.len(), BUFFER_SIZE);

        for (p, i) in concat(head, tail).iter().zip(0..BUFFER_SIZE) {
            assert_eq!(p, &i);
        }
    }
    cons.advance(&mut buf, BUFFER_SIZE);

    assert!(cons.pop(&mut buf).is_none());
}

#[test]
fn test_pop_slice_seam() {
    let (mut buf, mut prod, mut cons) = LocalHeapRB::from(vec![0usize; BUFFER_SIZE + 1]).split();

    fill_buf(&mut prod, &mut buf, BUFFER_SIZE / 2);

    {
        let (head, tail) = cons.peek_available(&buf).unwrap();
        assert_eq!(head.len(), BUFFER_SIZE / 2);
        assert!(tail.is_empty());
    }
    cons.advance(&mut buf, BUFFER_SIZE / 2);

    fill_buf(&mut prod, &mut buf, BUFFER_SIZE);

    {
        let (head, tail) = cons.peek_available(&buf).unwrap();
        assert_eq!(head.len(), BUFFER_SIZE / 2 + 1);
        assert_eq!(tail.len(), BUFFER_SIZE / 2 - 1);

        for (p, i) in concat(head, tail).iter().zip(0..BUFFER_SIZE) {
            assert_eq!(p, &i);
        }
    }
    cons.advance(&mut buf, BUFFER_SIZE);

    assert!(cons.pop(&mut buf).is_none());
}

#[test]
fn test_pop_slice_copy() {
    let (mut buf, mut prod, mut cons) = LocalHeapRB::from(vec![0usize; BUFFER_SIZE + 1]).split();

    fill_buf(&mut prod, &mut buf, BUFFER_SIZE / 2);

    let mut vec = vec![0; BUFFER_SIZE / 2];

    assert!(cons.copy_slice(&mut buf, &mut vec).is_some());
    assert!(cons.copy_slice(&mut buf, &mut vec).is_none());

    fill_buf(&mut prod, &mut buf, BUFFER_SIZE / 2);

    assert!(cons.clone_slice(&mut buf, &mut vec).is_some());
    assert!(cons.clone_slice(&mut buf, &mut vec).is_none());

    let _ = prod.push(&mut buf, 1);

    let mut dst = 0;

    assert!(cons.copy_item(&mut buf, &mut dst).is_some());
    assert!(cons.copy_item(&mut buf, &mut dst).is_none());

    let _ = prod.push(&mut buf, 1);

    assert!(cons.clone_item(&mut buf, &mut dst).is_some());
    assert!(cons.clone_item(&mut buf, &mut dst).is_none());
}

#[test]
fn copy_and_clone_hand_out_the_values_in_order() {
    let (mut holder, mut prod, mut cons) =
        LocalHeapRB::from(vec![0usize; BUFFER_SIZE + 1]).split();

    fill_buf(&mut prod, &mut holder, 6);
    let mut first = [9usize; 2];
    assert!(cons.copy_slice(&mut holder, &mut first).is_some());
    assert_eq!(first, [0, 1]);
    let mut second = vec![9usize; 2];
    assert!(cons.clone_slice(&mut holder, &mut second).is_some());
    assert_eq!(second, vec![2, 3]);
    let mut one = 9usize;
    assert!(cons.copy_item(&mut holder, &mut one).is_some());
    assert_eq!(one, 4);
    assert!(cons.clone_item(&mut holder, &mut one).is_some());
    assert_eq!(one, 5);
    assert!(cons.clone_item(&mut holder, &mut one).is_none());
    assert_eq!(one, 5);
    let mut too_many = [7usize; 1];
    assert!(cons.copy_slice(&mut holder, &mut too_many).is_none());
    assert_eq!(too_many, [7]);
}

#[test]
fn pop_leaves_the_value_and_pop_move_takes_it() {
    let (mut buf, mut prod, mut cons) = LocalHeapRB::from(vec![1u32, 2, 3]).split();

    assert!(prod.push(&mut buf, 10).is_ok());
    assert!(prod.push(&mut buf, 20).is_ok());
    assert_eq!(cons.pop(&mut buf), Some(10));
    assert_eq!(cons.pop_move(&mut buf), Some(20));
    assert_eq!(cons.pop_move(&mut buf), None);
    let storage = buf.inner();
    let cells = mutringbuf::Storage::as_slice(storage);
    assert!(!cells[0].check_zeroed());
    assert!(cells[1].check_zeroed());
    assert!(!cells[2].check_zeroed());
}

#[test]
fn peek_does_not_move_the_consumer() {
    let (mut buf, mut prod, mut cons) = LocalHeapRB::from(vec![0u32; 4]).split();

    assert!(cons.peek_ref(&buf).is_none());
    assert!(cons.peek_slice(&buf, 1).is_none());
    {
        let (head, tail) = cons.peek_available(&buf).unwrap();
        assert!(head.is_empty() && tail.is_empty());
    }
    assert!(prod.push(&mut buf, 5).is_ok());
    assert_eq!(cons.peek_ref(&buf), Some(&5));
    assert_eq!(cons.peek_ref(&buf), Some(&5));
    assert_eq!(cons.index(), 0);
    assert_eq!(cons.cons_index(&buf), 0);
    assert_eq!(cons.available(&buf), 1);
}
