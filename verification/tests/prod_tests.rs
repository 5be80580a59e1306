use mutringbuf::{HeapSplit, LocalHeapRB, MRBIterator};

const BUFFER_SIZE: usize = 100;

#[test]
fn test_push_one_by_one() {
    let (mut buf, mut prod, _cons) = LocalHeapRB::from(vec![0usize; BUFFER_SIZE + 1]).split();

    assert_eq!(prod.available(&buf), BUFFER_SIZE);
    for i in 0..BUFFER_SIZE {
        assert!(prod.push(&mut buf, i).is_ok());
    }
    assert_eq!(prod.available(&buf), 0);
    assert!(prod.push(&mut buf, 1).is_err());
}

#[test]
fn test_push_slice() {
    let (mut buf, mut prod, _cons) = LocalHeapRB::from(vec![0usize; BUFFER_SIZE + 1]).split();

    let half_slice = (0..BUFFER_SIZE / 2).collect::<Vec<usize>>();
    let slice = (0..BUFFER_SIZE).collect::<Vec<usize>>();

    assert_eq!(prod.available(&buf), BUFFER_SIZE);

    assert!(prod.push_slice(&mut buf, &half_slice).is_some());

    assert_eq!(prod.available(&buf), BUFFER_SIZE / 2);

    assert!(prod.push_slice(&mut buf, &slice).is_none());

    assert!(prod.push_slice(&mut buf, &half_slice).is_some());

    assert_eq!(prod.available(&buf), 0);
}

#[test]
fn test_push_mut_ref_init() {
    let (mut buf, mut prod, mut cons) = LocalHeapRB::from(vec![0usize; BUFFER_SIZE + 1]).split();

    assert_eq!(prod.available(&buf), BUFFER_SIZE);
    for i in 0..BUFFER_SIZE {
        let next = prod.get_next_item_mut_init(&mut buf).unwrap();
        next.write(i);
        prod.advance(&mut buf, 1);
    }
    assert_eq!(prod.available(&buf), 0);
    assert!(prod.push(&mut buf, 1).is_err());

    for i in 0..BUFFER_SIZE {
        assert_eq!(cons.pop(&mut buf), Some(i));
    }
}

#[test]
fn test_push_mut_ref() {
    let (mut buf, mut prod, mut cons) = LocalHeapRB::<usize>::default(BUFFER_SIZE + 1).split();

    assert_eq!(prod.available(&buf), BUFFER_SIZE);
    for i in 0..BUFFER_SIZE {
        let next = prod.get_next_item_mut(&mut buf).unwrap();
        *next = i;
        prod.advance(&mut buf, 1);
    }
    assert_eq!(prod.available(&buf), 0);
    assert!(prod.push(&mut buf, 1).is_err());

    for i in 0..BUFFER_SIZE {
        assert_eq!(cons.pop(&mut buf), Some(i));
    }
}

#[test]
fn push_returns_the_value_when_full() {
    let (mut buf, mut prod, _cons) = LocalHeapRB::from(vec![String::new(), String::new()]).split();

    assert_eq!(prod.push(&mut buf, String::from("a")), Ok(()));
    assert_eq!(prod.push(&mut buf, String::from("b")), Err(String::from("b")));
    assert_eq!(prod.index(), 1);
    assert_eq!(prod.prod_index(&buf), 1);
}

#[test]
fn push_slice_that_does_not_fit_writes_nothing() {
    let (mut buf, mut prod, mut cons) = LocalHeapRB::from(vec![0u8; 4]).split();

    assert!(prod.push_slice(&mut buf, &[1, 2, 3, 4]).is_none());
    assert_eq!(prod.index(), 0);
    assert_eq!(cons.available(&buf), 0);
    assert!(prod.push_slice(&mut buf, &[1, 2, 3]).is_some());
    let mut dst = [0u8; 3];
    assert!(cons.copy_slice(&mut buf, &mut dst).is_some());
    assert_eq!(dst, [1, 2, 3]);
}

#[test]
fn push_slice_clone_pushes_clones_in_order() {
    let (mut buf, mut prod, mut cons) =
        LocalHeapRB::from(vec![String::new(), String::new(), String::new()]).split();
    let items = vec![String::from("x"), String::from("y")];

    assert!(prod.push_slice_clone(&mut buf, &items).is_some());
    assert!(prod.push_slice_clone(&mut buf, &items).is_none());
    let mut dst = vec![String::new(), String::new()];
    assert!(cons.clone_slice(&mut buf, &mut dst).is_some());
    assert_eq!(dst, items);
}

#[test]
fn get_next_slices_mut_lends_the_free_window() {
    let (mut buf, mut prod, mut cons) = LocalHeapRB::from(vec![0u32; 5]).split();

    assert!(prod.push_slice(&mut buf, &[1, 2, 3]).is_some());
    assert_eq!(cons.pop(&mut buf), Some(1));
    assert_eq!(cons.pop(&mut buf), Some(2));
    assert!(prod.get_next_slices_mut(&mut buf, 4).is_none());
    {
        let (head, tail) = prod.get_next_slices_mut(&mut buf, 3).unwrap();
        assert_eq!(head.len(), 2);
        assert_eq!(tail.len(), 1);
        head[0].write(10);
        head[1].write(11);
        tail[0].write(12);
    }
    prod.advance(&mut buf, 3);
    for expected in [3, 10, 11, 12] {
        assert_eq!(cons.pop(&mut buf), Some(expected));
    }
    assert_eq!(cons.pop(&mut buf), None);
}
