use jeep::events::OneOrMany;

#[test]
fn one_yields_exactly_its_item() {
    let mut it = OneOrMany::One(7u32).into_iter();
    assert_eq!(it.next(), Some(7));
    assert_eq!(it.next(), None);
    assert_eq!(it.next(), None);
    assert_eq!(OneOrMany::One(7u32).into_vec(), vec![7]);
}

#[test]
fn many_yields_each_item_once() {
    let items = vec![3u32, 1, 4, 1, 5];
    let mut it = OneOrMany::Many(items.clone()).into_iter();
    let mut out = Vec::new();
    while let Some(v) = it.next() {
        out.push(v);
    }
    for _ in 0..3 {
        assert_eq!(it.next(), None);
    }
    let mut sorted_out = out.clone();
    sorted_out.sort();
    let mut sorted_items = items.clone();
    sorted_items.sort();
    assert_eq!(sorted_out, sorted_items);
    // Items come from the end.
    assert_eq!(out, vec![5, 1, 4, 1, 3]);
    assert_eq!(OneOrMany::Many(items).into_vec(), out);
}

#[test]
fn empty_many_yields_nothing() {
    let mut it = OneOrMany::<u8>::Many(Vec::new()).into_iter();
    assert_eq!(it.next(), None);
    assert_eq!(it.next(), None);
}

#[test]
fn partial_iteration_then_drop() {
    let mut it = OneOrMany::Many(vec![String::from("a"), String::from("b")]).into_iter();
    assert_eq!(it.next().as_deref(), Some("b"));
    drop(it);
}
