use lists::borrowed_tail::List;

#[test]
fn borrowed_tail_fresh_list_is_empty() {
    let mut list: List<u8> = List::new();
    assert_eq!(list.pop(), None);
}

#[test]
fn borrowed_tail_first_in_first_out() {
    let mut list = List::new();
    let mut i: u32 = 0;
    while i < 30 {
        list.push(i);
        i += 1;
    }
    let mut i: u32 = 0;
    while i < 30 {
        assert_eq!(list.pop(), Some(i));
        i += 1;
    }
    assert_eq!(list.pop(), None);
}

#[test]
fn borrowed_tail_interleaved_pushes_and_pops() {
    let mut list = List::new();
    list.push(1);
    list.push(2);
    list.push(3);
    assert_eq!(list.pop(), Some(1));
    assert_eq!(list.pop(), Some(2));
    list.push(4);
    list.push(5);
    assert_eq!(list.pop(), Some(3));
    assert_eq!(list.pop(), Some(4));
    assert_eq!(list.pop(), Some(5));
    assert_eq!(list.pop(), None);
}

#[test]
fn borrowed_tail_emptied_behaves_like_fresh() {
    let mut emptied = List::new();
    emptied.push(9);
    assert_eq!(emptied.pop(), Some(9));

    let mut fresh = List::new();
    emptied.push(1);
    fresh.push(1);
    assert_eq!(emptied.pop(), fresh.pop());
    assert_eq!(emptied.pop(), None);
    assert_eq!(fresh.pop(), None);
}
