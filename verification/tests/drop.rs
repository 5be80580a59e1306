use mutringbuf::{HeapSplit, IterManager, LocalHeapRB, LocalStackRB, MRBIterator, StackSplit};

const BUFFER_SIZE: usize = 400;

#[test]
fn drop_prod_drop_test() {
    let mut buf = LocalStackRB::from([0usize; BUFFER_SIZE]);
    let (prod, work, cons) = buf.split_mut();

    assert!(work.is_prod_alive(&buf));
    assert!(cons.is_work_alive(&buf));
    assert!(work.is_cons_alive(&buf));

    prod.drop(&mut buf);

    assert!(!work.is_prod_alive(&buf));
    assert!(cons.is_work_alive(&buf));
    assert!(work.is_cons_alive(&buf));
}

#[test]
fn drop_work_drop_test() {
    let mut buf = LocalStackRB::from([0usize; BUFFER_SIZE]);
    let (prod, work, cons) = buf.split_mut();

    assert!(cons.is_prod_alive(&buf));
    assert!(cons.is_work_alive(&buf));
    assert!(prod.is_cons_alive(&buf));

    work.drop(&mut buf);

    assert!(cons.is_prod_alive(&buf));
    assert!(!cons.is_work_alive(&buf));
    assert!(prod.is_cons_alive(&buf));
}

#[test]
fn drop_cons_drop_test() {
    let mut buf = LocalStackRB::from([0usize; BUFFER_SIZE]);
    let (prod, work, cons) = buf.split_mut();

    assert!(work.is_prod_alive(&buf));
    assert!(prod.is_work_alive(&buf));
    assert!(prod.is_cons_alive(&buf));

    cons.drop(&mut buf);

    assert!(work.is_prod_alive(&buf));
    assert!(prod.is_work_alive(&buf));
    assert!(!prod.is_cons_alive(&buf));
}

#[test]
fn drop_drop_everything() {
    let mut buf = LocalStackRB::from([0usize; BUFFER_SIZE]);
    let (prod, work, cons) = buf.split_mut();

    prod.drop(&mut buf);
    work.drop(&mut buf);
    cons.drop(&mut buf);
}

#[test]
fn borrowed_buffer_outlives_its_handles() {
    let mut buf = LocalStackRB::from([0u8; 4]);
    let (mut prod, cons) = buf.split();
    assert_eq!(buf.alive_iters(), 2);
    assert!(prod.push(&mut buf, 7).is_ok());
    prod.drop(&mut buf);
    assert_eq!(buf.alive_iters(), 1);
    cons.drop(&mut buf);
    assert_eq!(buf.alive_iters(), 0);

    let (prod, mut cons) = buf.split();
    assert_eq!(buf.alive_iters(), 2);
    assert_eq!(prod.index(), 1);
    assert_eq!(cons.pop(&mut buf), Some(7));
}

#[test]
fn owned_buffer_is_freed_with_its_last_handle() {
    let (mut buf, prod, work, cons) = LocalHeapRB::from(vec![0u8; 4]).split_mut();
    assert!(buf.live());
    assert_eq!(buf.alive_iters(), 3);
    work.drop(&mut buf);
    assert!(buf.live());
    assert_eq!(buf.alive_iters(), 2);
    cons.drop(&mut buf);
    assert!(buf.live());
    assert_eq!(buf.alive_iters(), 1);
    prod.drop(&mut buf);
    assert!(!buf.live());
    assert!(buf.into_inner().is_none());
}

#[test]
fn buffer_moved_in_by_from_ref_can_be_taken_back() {
    let mut plain = LocalStackRB::from([1u8, 2, 3]);
    let (prod, cons) = plain.split();
    let mut holder = mutringbuf::BufRef::from_ref(plain);
    prod.drop(&mut holder);
    cons.drop(&mut holder);
    assert!(holder.live());
    let back = holder.into_inner().unwrap();
    assert_eq!(back.alive_iters(), 0);
}
