use lists::stack::List;

#[test]
fn second_basics() {
    let mut list = List::new();

    // A fresh list has nothing to remove.
    assert_eq!(list.pop(), None);

    list.push(1);
    list.push(2);
    list.push(3);

    assert_eq!(list.pop(), Some(3));
    assert_eq!(list.pop(), Some(2));

    list.push(4);
    list.push(5);

    assert_eq!(list.pop(), Some(5));
    assert_eq!(list.pop(), Some(4));

    assert_eq!(list.pop(), Some(1));
    assert_eq!(list.pop(), None);

    assert_eq!(list.peek(), None);

    list.push(1);
    assert_eq!(list.peek(), Some(&1));

    let _set = list.peek_mut().map(|i| *i = 10);
    println!("{:?}", list.peek());

    let mut drain = list.into_iter();
    while let Some(i) = drain.next() {
        println!("{:?}", i);
    }

    let mut v = List::new();
    v.push(1);

    let mut it = v.iter();
    while let Some(i) = it.next() {
        println!("{:?}", i);
    }
}

#[test]
fn test_option() {
    let some = Some(1);
    println!("{:p}", &some);
    println!("{:p}", some.as_ref().unwrap());
}

#[test]
fn test_mut() {}

#[test]
fn stack_peek_mut_update_seen_by_peek() {
    let mut list = List::new();
    list.push(7);
    list.push(8);
    if let Some(top) = list.peek_mut() {
        *top = 80;
    }
    assert_eq!(list.peek(), Some(&80));
    assert_eq!(list.pop(), Some(80));
    assert_eq!(list.pop(), Some(7));
    assert_eq!(list.pop(), None);
}

#[test]
fn stack_iter_yields_all_then_ends() {
    let mut list = List::new();
    list.push(1);
    list.push(2);
    list.push(3);
    let mut it = list.iter();
    assert_eq!(it.next(), Some(&3));
    assert_eq!(it.next(), Some(&2));
    assert_eq!(it.next(), Some(&1));
    assert_eq!(it.next(), None);
    assert_eq!(it.next(), None);
}

#[test]
fn stack_teardown_of_long_chain() {
    let mut list = List::new();
    let mut i: u64 = 0;
    while i < 100_000 {
        list.push(i);
        i += 1;
    }
    // The list goes out of scope here; the iterative destructor must
    // release all nodes without the call stack growing with the length.
}
