use persistent_list::list::List;

#[test]
fn basics() {
    let list = List::new();

    assert_eq!(list.head(), None);
    let list = list.prepend(1).prepend(2).prepend(3);
    assert_eq!(list.head(), Some(&3));
    let list = list.tail();
    assert_eq!(list.head(), Some(&2));
    let list = list.tail();
    assert_eq!(list.head(), Some(&1));

    let list = list.tail();
    assert_eq!(list.head(), None);

    let list = list.tail();
    assert_eq!(list.head(), None);
}

#[test]
fn iter() {
    let list = List::new().prepend(1).prepend(2).prepend(3);
    let mut iter = list.iter();
    assert_eq!(iter.next(), Some(&3));
    assert_eq!(iter.next(), Some(&2));
    assert_eq!(iter.next(), Some(&1));
    assert_eq!(iter.next(), None);
}

#[test]
fn empty_list() {
    let list: List<i32> = List::new();
    assert_eq!(list.head(), None);
    let mut iter = list.iter();
    assert_eq!(iter.next(), None);
    assert_eq!(iter.next(), None);
}

#[test]
fn persistence() {
    let list = List::new().prepend(1).prepend(2);
    let longer = list.prepend(3);
    // the handle that prepend was called on is unchanged
    assert_eq!(list.head(), Some(&2));
    let mut iter = list.iter();
    assert_eq!(iter.next(), Some(&2));
    assert_eq!(iter.next(), Some(&1));
    assert_eq!(iter.next(), None);
    assert_eq!(longer.head(), Some(&3));
}

#[test]
fn prepend_tail_inverse() {
    let list = List::new().prepend(1).prepend(2);
    let round = list.prepend(9).tail();
    assert_eq!(round.head(), Some(&2));
    let mut iter = round.iter();
    assert_eq!(iter.next(), Some(&2));
    assert_eq!(iter.next(), Some(&1));
    assert_eq!(iter.next(), None);
}

#[test]
fn shared_tail_outlives_sibling() {
    let list = List::new().prepend(1).prepend(2).prepend(3);
    let suffix = list.tail();
    // dropping the longer handle must leave the shared chain intact
    drop(list);
    assert_eq!(suffix.head(), Some(&2));
    let mut iter = suffix.iter();
    assert_eq!(iter.next(), Some(&2));
    assert_eq!(iter.next(), Some(&1));
    assert_eq!(iter.next(), None);
}

#[test]
fn iteration_order() {
    let list = List::new().prepend(1).prepend(2).prepend(3);
    let mut iter = list.iter();
    assert_eq!(iter.next(), Some(&3));
    assert_eq!(iter.next(), Some(&2));
    assert_eq!(iter.next(), Some(&1));
    assert_eq!(iter.next(), None);
    assert_eq!(iter.next(), None);
}

#[test]
fn long_chain_teardown() {
    let mut list: List<u32> = List::new();
    for i in 0u32..100_000 {
        list = list.prepend(i);
    }
    assert_eq!(list.head(), Some(&99_999));
    // the sole owner of a 100_000-node chain: dropping it must not
    // overflow the stack
    drop(list);
}
