use mutringbuf::{LocalStackRB, MRBIterator, StackSplit};

#[test]
fn prod_iter_cached_avail() {
    const BUFFER_SIZE: usize = 10;

    let mut buf = LocalStackRB::<u32, { BUFFER_SIZE + 1 }>::default();
    let (mut prod, mut cons) = buf.split();

    assert_eq!(prod.cached_avail(), 0);

    prod.check(&buf, 1);

    assert_eq!(prod.cached_avail(), BUFFER_SIZE);

    prod.advance(&mut buf, 2);

    assert_eq!(prod.cached_avail(), 8);

    cons.advance(&mut buf, 1);

    assert_eq!(prod.cached_avail(), 8);

    prod.check(&buf, 10);

    assert_eq!(prod.cached_avail(), 9);
}

#[test]
fn cons_iter_cached_avail() {
    const BUFFER_SIZE: usize = 100;

    let mut buf = LocalStackRB::<u32, { BUFFER_SIZE + 1 }>::default();
    let (mut prod, mut cons) = buf.split();

    assert_eq!(cons.cached_avail(), 0);

    prod.advance(&mut buf, 10);

    assert_eq!(cons.cached_avail(), 0);

    cons.check(&buf, 1);

    assert_eq!(cons.cached_avail(), 10);

    cons.advance(&mut buf, 9);

    assert_eq!(cons.cached_avail(), 1);
}

#[test]
fn available_twice_gives_the_same_and_grows_with_the_role_ahead() {
    let mut buf = LocalStackRB::<u32, 8>::default();
    let (mut prod, mut work, mut cons) = buf.split_mut();

    assert_eq!(prod.available(&buf), 7);
    assert_eq!(prod.available(&buf), 7);
    prod.advance(&mut buf, 5);
    assert_eq!(work.available(&buf), 5);
    assert_eq!(work.available(&buf), 5);
    assert_eq!(cons.available(&buf), 0);
    work.advance(&mut buf, 2);
    assert_eq!(cons.available(&buf), 2);
    work.advance(&mut buf, 1);
    assert_eq!(cons.available(&buf), 3);
    assert_eq!(prod.available(&buf), 2);
    cons.advance(&mut buf, 3);
    assert_eq!(prod.available(&buf), 5);
    assert_eq!(prod.available(&buf) + work.available(&buf) + cons.available(&buf), 7);
}
