use mutringbuf::{LocalStackRB, MRBIterator, MutRB, ProdIter, StackSplit};

const BUFFER_SIZE: usize = 400;

const MULTIPLE: usize = 42;

fn fill(prod: &mut ProdIter, buf: &mut impl MutRB<Item = usize>) {
    let slice = (0..BUFFER_SIZE - 1).collect::<Vec<usize>>();
    prod.push_slice(buf, &slice);
}

#[test]
fn test_work_single() {
    let mut buf = LocalStackRB::from([0usize; BUFFER_SIZE]);
    let (mut prod, mut work, mut cons) = buf.split_mut();

    assert_eq!(prod.available(&buf), BUFFER_SIZE - 1);
    assert_eq!(work.available(&buf), 0);
    assert_eq!(cons.available(&buf), 0);

    fill(&mut prod, &mut buf);

    assert_eq!(prod.available(&buf), 0);
    assert_eq!(work.available(&buf), BUFFER_SIZE - 1);
    assert_eq!(cons.available(&buf), 0);

    for _ in 0..BUFFER_SIZE - 1 {
        if let Some(data) = work.get_workable(&mut buf) {
            *data += 1;
            work.advance(&mut buf, 1);
        }
    }
    assert_eq!(prod.available(&buf), 0);
    assert_eq!(work.available(&buf), 0);
    assert_eq!(cons.available(&buf), BUFFER_SIZE - 1);

    for i in 0..BUFFER_SIZE - 1 {
        assert_eq!(cons.pop(&mut buf).unwrap(), i + 1);
    }

    assert_eq!(prod.available(&buf), BUFFER_SIZE - 1);
    assert_eq!(work.available(&buf), 0);
    assert_eq!(cons.available(&buf), 0);
}

#[test]
fn test_work_mul() {
    let mut buf = LocalStackRB::from([0usize; BUFFER_SIZE]);
    let (mut prod, mut work, mut cons) = buf.split_mut();

    assert_eq!(prod.available(&buf), BUFFER_SIZE - 1);
    assert_eq!(work.available(&buf), 0);
    assert_eq!(cons.available(&buf), 0);

    fill(&mut prod, &mut buf);

    assert_eq!(prod.available(&buf), 0);
    assert_eq!(work.available(&buf), BUFFER_SIZE - 1);
    assert_eq!(cons.available(&buf), 0);

    let mut len = 0;
    if let Some((h, t)) = work.get_workable_slice_multiple_of(&mut buf, MULTIPLE) {
        len = h.len() + t.len();

        h.iter_mut().for_each(|v| *v.inner_ref_mut() += 1);
        t.iter_mut().for_each(|v| *v.inner_ref_mut() += 1);
    }
    work.advance(&mut buf, len);

    let rem = BUFFER_SIZE % MULTIPLE;
    assert_eq!(prod.available(&buf), 0);
    assert_eq!(work.available(&buf), rem - 1);
    assert_eq!(cons.available(&buf), BUFFER_SIZE - rem);

    for i in 0..BUFFER_SIZE - rem {
        assert_eq!(*cons.peek_ref(&buf).unwrap(), i + 1);
        cons.advance(&mut buf, 1);
    }

    assert_eq!(prod.available(&buf), BUFFER_SIZE - rem);
    assert_eq!(work.available(&buf), rem - 1);
    assert_eq!(cons.available(&buf), 0);

    let mut len = 0;
    if let Some((h, t)) = work.get_workable_slice_avail(&mut buf) {
        len = h.len() + t.len();

        h.iter_mut().for_each(|v| *v.inner_ref_mut() += 1);
        t.iter_mut().for_each(|v| *v.inner_ref_mut() += 1);
    }
    work.advance(&mut buf, len);

    assert_eq!(prod.available(&buf), BUFFER_SIZE - rem);
    assert_eq!(work.available(&buf), 0);
    assert_eq!(cons.available(&buf), rem - 1);

    for i in BUFFER_SIZE - rem..BUFFER_SIZE - 1 {
        assert_eq!(cons.pop(&mut buf).unwrap(), i + 1);
    }

    assert_eq!(prod.available(&buf), BUFFER_SIZE - 1);
    assert_eq!(work.available(&buf), 0);
    assert_eq!(cons.available(&buf), 0);
}

#[test]
fn test_work_exact() {
    let mut buf = LocalStackRB::from([0usize; BUFFER_SIZE]);
    let (mut prod, mut work, mut cons) = buf.split_mut();

    assert_eq!(prod.available(&buf), BUFFER_SIZE - 1);
    assert_eq!(work.available(&buf), 0);
    assert_eq!(cons.available(&buf), 0);

    fill(&mut prod, &mut buf);

    assert_eq!(prod.available(&buf), 0);
    assert_eq!(work.available(&buf), BUFFER_SIZE - 1);
    assert_eq!(cons.available(&buf), 0);

    let step = 10;
    let max = 30;
    for _ in 0..max {
        let mut len = 0;
        if let Some((h, t)) = work.get_workable_slice_exact(&mut buf, step) {
            len = h.len() + t.len();

            h.iter_mut().for_each(|v| *v.inner_ref_mut() += 1);
            t.iter_mut().for_each(|v| *v.inner_ref_mut() += 1);
        }
        work.advance(&mut buf, len);
    }

    assert_eq!(prod.available(&buf), 0);
    assert_eq!(work.available(&buf), BUFFER_SIZE - 1 - max * step);
    assert_eq!(cons.available(&buf), max * step);

    for i in 0..cons.available(&buf) {
        assert_eq!(cons.pop(&mut buf).unwrap(), i + 1);
    }

    assert_eq!(prod.available(&buf), max * step);
    assert_eq!(work.available(&buf), BUFFER_SIZE - 1 - max * step);
    assert_eq!(cons.available(&buf), 0);
}

#[test]
fn multiple_of_gives_nothing_below_one_multiple() {
    let mut buf = LocalStackRB::from([0usize; 8]);
    let (mut prod, mut work, _cons) = buf.split_mut();

    prod.push_slice(&mut buf, &[1, 2, 3]);
    assert!(work.get_workable_slice_multiple_of(&mut buf, 4).is_none());
    assert_eq!(work.cached_avail(), 3);
    {
        let (h, t) = work.get_workable_slice_multiple_of(&mut buf, 2).unwrap();
        assert_eq!(h.len() + t.len(), 2);
    }
    {
        let (h, t) = work.get_workable_slice_multiple_of(&mut buf, 3).unwrap();
        assert_eq!(h.len() + t.len(), 3);
    }
    assert!(work.get_workable_slice_exact(&mut buf, 4).is_none());
    work.advance(&mut buf, 3);
    assert!(work.get_workable_slice_avail(&mut buf).is_none());
    assert!(work.get_workable(&mut buf).is_none());
}
