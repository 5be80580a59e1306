use mutringbuf::{LocalStackRB, MRBIterator, StackSplit};

const BUFFER_SIZE: usize = 300;

#[test]
fn test_local_stack() {
    let mut buf = LocalStackRB::<usize, { BUFFER_SIZE + 1 }>::default();
    let (mut prod, mut work, mut cons) = buf.split_mut();

    assert_eq!(prod.available(&buf), BUFFER_SIZE);
    assert_eq!(work.available(&buf), 0);
    assert_eq!(cons.available(&buf), 0);

    for i in 0..BUFFER_SIZE {
        let _ = prod.push(&mut buf, i);
    }
    assert_eq!(prod.available(&buf), 0);
    assert_eq!(work.available(&buf), BUFFER_SIZE);
    assert_eq!(cons.available(&buf), 0);

    for _ in 0..BUFFER_SIZE {
        if let Some(data) = work.get_workable(&mut buf) {
            *data += 1;
            work.advance(&mut buf, 1);
        }
    }
    assert_eq!(prod.available(&buf), 0);
    assert_eq!(work.available(&buf), 0);
    assert_eq!(cons.available(&buf), BUFFER_SIZE);

    for i in 0..BUFFER_SIZE {
        assert_eq!(cons.pop(&mut buf).unwrap(), i + 1);
    }

    assert_eq!(prod.available(&buf), BUFFER_SIZE);
    assert_eq!(work.available(&buf), 0);
    assert_eq!(cons.available(&buf), 0);
}

const RB_SIZE: usize = 30;

fn fib(n: usize) -> usize {
    match n {
        1 | 2 => 1,
        3 => 2,
        _ => fib(n - 1) + fib(n - 2),
    }
}

/// The three roles take turns on one thread; `turns` tells how often each of them
/// tries its step before the next one has a go.
fn rb_fibonacci(turns: (usize, usize, usize), rounds: usize) {
    let mut buf = LocalStackRB::<usize, RB_SIZE>::default();
    let (mut prod, mut work, mut cons) = buf.split_mut();

    let mut produced = vec![];
    let mut consumed = vec![];
    let mut counter = 1usize;
    let mut acc = (1usize, 0usize);

    for _ in 0..rounds {
        for _ in 0..turns.0 {
            if prod.push(&mut buf, counter).is_ok() {
                produced.push(counter);
                if counter < 20 {
                    counter += 1;
                } else {
                    counter = 1;
                }
            }
        }
        for _ in 0..turns.1 {
            let mut worked = false;
            if let Some(value) = work.get_workable(&mut buf) {
                let (bt_h, bt_t) = &mut acc;
                if *value == 1 {
                    (*bt_h, *bt_t) = (1, 0);
                }
                *value = *bt_h + *bt_t;
                (*bt_h, *bt_t) = (*bt_t, *value);
                worked = true;
            }
            if worked {
                work.advance(&mut buf, 1);
            }
        }
        for _ in 0..turns.2 {
            if let Some(value) = cons.pop(&mut buf) {
                consumed.push(value);
            }
        }
    }
    // The producer has stopped: let the other two finish.
    while work.index() != prod.index() || cons.index() != prod.index() {
        let mut worked = false;
        if let Some(value) = work.get_workable(&mut buf) {
            let (bt_h, bt_t) = &mut acc;
            if *value == 1 {
                (*bt_h, *bt_t) = (1, 0);
            }
            *value = *bt_h + *bt_t;
            (*bt_h, *bt_t) = (*bt_t, *value);
            worked = true;
        }
        if worked {
            work.advance(&mut buf, 1);
        }
        if let Some(value) = cons.pop(&mut buf) {
            consumed.push(value);
        }
    }

    assert_eq!(prod.available(&buf), RB_SIZE - 1);
    assert_eq!(work.available(&buf), 0);
    assert_eq!(cons.available(&buf), 0);
    assert!(produced.len() >= rounds.min(RB_SIZE - 1));
    assert_eq!(consumed, produced.iter().map(|v| fib(*v)).collect::<Vec<usize>>());
}

#[test]
fn fibonacci_test_stack() {
    for i in 0..100 {
        rb_fibonacci((1 + i % 7, 1 + i % 5, 1 + i % 3), 100);
    }
}

#[test]
fn stack_buffer_holds_the_array_it_was_made_from() {
    let mut buf = LocalStackRB::from([10u16, 20, 30, 40]);
    let (mut prod, mut cons) = buf.split();
    {
        let (head, tail) = prod.get_workable_slice_avail(&mut buf).unwrap();
        let got: Vec<u16> = head.iter().chain(tail.iter()).map(|c| *c.inner_ref()).collect();
        assert_eq!(got, vec![10, 20, 30]);
    }
    prod.advance(&mut buf, 3);
    assert_eq!(cons.pop(&mut buf), Some(10));
    assert_eq!(cons.pop(&mut buf), Some(20));
    assert_eq!(cons.pop(&mut buf), Some(30));
    assert_eq!(cons.pop(&mut buf), None);
}

#[test]
fn zeroed_stack_buffer_has_only_zeroed_slots() {
    let mut buf = LocalStackRB::<String, 3>::new_zeroed();
    let (mut prod, mut cons) = buf.split();
    {
        let (head, tail) = prod.get_next_slices_mut(&mut buf, 2).unwrap();
        assert!(head.iter().chain(tail.iter()).all(|c| c.check_zeroed()));
    }
    assert!(prod.push_init(&mut buf, String::from("a")).is_ok());
    assert!(prod.push_init(&mut buf, String::from("b")).is_ok());
    assert!(prod.push_init(&mut buf, String::from("c")).is_err());
    assert_eq!(cons.pop_move(&mut buf), Some(String::from("a")));
    assert_eq!(cons.pop_move(&mut buf), Some(String::from("b")));
    assert_eq!(cons.pop_move(&mut buf), None);
}
