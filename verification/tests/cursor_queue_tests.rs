use lists::cursor_queue::List;

#[test]
fn into_iter() {
    let mut list = List::new();
    list.push(1);
    list.push(2);
    list.push(3);

    let mut iter = list.into_iter();
    assert_eq!(iter.next(), Some(1));
    assert_eq!(iter.next(), Some(2));
    assert_eq!(iter.next(), Some(3));
    assert_eq!(iter.next(), None);
}

#[test]
fn iter() {
    let mut list = List::new();
    list.push(1);
    list.push(2);
    list.push(3);

    let mut iter = list.iter();
    assert_eq!(iter.next(), Some(&1));
    assert_eq!(iter.next(), Some(&2));
    assert_eq!(iter.next(), Some(&3));
    assert_eq!(iter.next(), None);
}

#[test]
fn iter_mut() {
    let mut list = List::new();
    list.push(1);
    list.push(2);
    list.push(3);

    let mut iter = list.iter_mut();
    assert_eq!(iter.next(), Some(&mut 1));
    assert_eq!(iter.next(), Some(&mut 2));
    assert_eq!(iter.next(), Some(&mut 3));
    assert_eq!(iter.next(), None);
}

#[test]
fn into_iter_consumes_everything() {
    let mut list = List::new();
    list.push(1);
    list.push(2);
    list.push(3);
    let mut iter = list.into_iter();
    assert_eq!(iter.next(), Some(1));
    assert_eq!(iter.next(), Some(2));
    assert_eq!(iter.next(), Some(3));
    // Once exhausted, the consumed queue never hands anything back.
    assert_eq!(iter.next(), None);
    assert_eq!(iter.next(), None);
}

#[test]
fn iter_mut_can_rewrite_every_element() {
    let mut list = List::new();
    list.push(1);
    list.push(2);
    list.push(3);
    {
        let mut iter = list.iter_mut();
        while let Some(p) = iter.next() {
            *p += 10;
        }
    }
    assert_eq!(list.pop(), Some(11));
    assert_eq!(list.pop(), Some(12));
    assert_eq!(list.pop(), Some(13));
    assert_eq!(list.pop(), None);
}

#[test]
fn queue_fresh_list_is_empty() {
    let mut list: List<u32> = List::new();
    assert_eq!(list.peek(), None);
    assert_eq!(list.pop(), None);
}

#[test]
fn queue_first_in_first_out() {
    let mut list = List::new();
    let mut i: u32 = 0;
    while i < 50 {
        list.push(i);
        i += 1;
    }
    let mut i: u32 = 0;
    while i < 50 {
        assert_eq!(list.pop(), Some(i));
        i += 1;
    }
    assert_eq!(list.pop(), None);
}

#[test]
fn queue_interleaved_pushes_and_pops() {
    let mut list = List::new();
    list.push(1);
    list.push(2);
    list.push(3);
    assert_eq!(list.pop(), Some(1));
    assert_eq!(list.pop(), Some(2));
    list.push(4);
    list.push(5);
    assert_eq!(list.pop(), Some(3));
    assert_eq!(list.pop(), Some(4));
    assert_eq!(list.pop(), Some(5));
    assert_eq!(list.pop(), None);
}

#[test]
fn queue_peek_and_peek_mut() {
    let mut list = List::new();
    assert_eq!(list.peek(), None);
    assert_eq!(list.peek_mut(), None);
    list.push(5);
    list.push(6);
    assert_eq!(list.peek(), Some(&5));
    if let Some(front) = list.peek_mut() {
        *front = 50;
    }
    assert_eq!(list.peek(), Some(&50));
    assert_eq!(list.pop(), Some(50));
    assert_eq!(list.pop(), Some(6));
}

#[test]
fn queue_iter_mut_write_seen_by_peek() {
    let mut list = List::new();
    list.push(1);
    list.push(2);
    list.push(3);
    {
        let mut iter = list.iter_mut();
        if let Some(front) = iter.next() {
            *front = 10;
        }
    }
    assert_eq!(list.peek(), Some(&10));
    assert_eq!(list.pop(), Some(10));
    assert_eq!(list.pop(), Some(2));
    assert_eq!(list.pop(), Some(3));
}

#[test]
fn queue_emptied_behaves_like_fresh() {
    let mut emptied = List::new();
    emptied.push(9);
    emptied.push(8);
    assert_eq!(emptied.pop(), Some(9));
    assert_eq!(emptied.pop(), Some(8));
    assert_eq!(emptied.pop(), None);

    let mut fresh = List::new();
    emptied.push(1);
    fresh.push(1);
    assert_eq!(emptied.peek(), fresh.peek());
    assert_eq!(emptied.pop(), fresh.pop());
    assert_eq!(emptied.pop(), None);
    assert_eq!(fresh.pop(), None);
}

#[test]
fn queue_slots_are_recycled() {
    let mut list = List::new();
    let mut round: u64 = 0;
    while round < 3 {
        let mut i: u64 = 0;
        while i < 10 {
            list.push(round * 100 + i);
            i += 1;
        }
        let mut i: u64 = 0;
        while i < 10 {
            assert_eq!(list.pop(), Some(round * 100 + i));
            i += 1;
        }
        round += 1;
    }
    assert_eq!(list.pop(), None);
}

#[test]
fn queue_teardown_of_long_chain() {
    let mut list = List::new();
    let mut i: u64 = 0;
    while i < 100_000 {
        list.push(i);
        i += 1;
    }
    // The arena owns every node, so letting the list go out of scope here
    // releases them all without recursion along the chain.
}
