use copy_order::with_prev::IteratorWithPrev;
use copy_order::with_prev::WithPrev;
use copy_order::yield_self::YieldSelf;

#[test]
fn nothing_comes_of_no_items() {
    let items: Vec<u32> = vec![];
    let mut pairs = WithPrev::new(items.into_iter());
    assert_eq!(pairs.next(), None);
    assert_eq!(pairs.next(), None);
}

#[test]
fn nothing_comes_of_one_item() {
    let mut pairs = WithPrev::new(vec![7u32].into_iter());
    assert_eq!(pairs.next(), None);
    assert_eq!(pairs.next(), None);
}

#[test]
fn two_items_give_one_pair() {
    let mut pairs = WithPrev::new(vec![1u32, 2].into_iter());
    assert_eq!(pairs.next(), Some((1, 2)));
    assert_eq!(pairs.next(), None);
}

#[test]
fn neighbours_come_in_order() {
    let found: Vec<(u32, u32)> = vec![1u32, 2, 3, 4].into_iter().with_prev().collect();
    assert_eq!(found, vec![(1, 2), (2, 3), (3, 4)]);
}

#[test]
fn with_prev_starts_like_new() {
    let items = vec!["a".to_string(), "b".to_string(), "c".to_string()];
    let by_trait: Vec<(String, String)> = items.clone().into_iter().with_prev().collect();
    let by_new: Vec<(String, String)> = WithPrev::new(items.into_iter()).collect();
    assert_eq!(by_trait, by_new);
    assert_eq!(
        by_new,
        vec![("a".to_string(), "b".to_string()), ("b".to_string(), "c".to_string())]
    );
}

#[test]
fn pairs_of_borrowed_items() {
    let items = vec![10u8, 20, 30];
    let found: Vec<(&u8, &u8)> = items.iter().with_prev().collect();
    assert_eq!(found, vec![(&10, &20), (&20, &30)]);
}

#[test]
fn the_first_pull_takes_two_items_and_each_later_pull_one() {
    let mut pulled = 0usize;
    let mut source = (0u32..5).inspect(|_| pulled += 1).with_prev();
    assert_eq!(source.next(), Some((0, 1)));
    drop(source);
    assert_eq!(pulled, 2);

    let mut pulled = 0usize;
    let mut source = (0u32..5).inspect(|_| pulled += 1).with_prev();
    source.next();
    source.next();
    source.next();
    drop(source);
    assert_eq!(pulled, 4);
}

#[test]
fn an_endless_source_is_walked_lazily() {
    let mut pairs = (0u64..).with_prev();
    assert_eq!(pairs.next(), Some((0, 1)));
    assert_eq!(pairs.next(), Some((1, 2)));
    assert_eq!(pairs.nth(97), Some((99, 100)));
}

#[test]
fn a_clone_goes_on_from_the_same_place() {
    let mut pairs = vec![1u32, 2, 3].into_iter().with_prev();
    assert_eq!(pairs.next(), Some((1, 2)));
    let mut other = pairs.clone();
    assert_eq!(pairs.next(), Some((2, 3)));
    assert_eq!(other.next(), Some((2, 3)));
}

#[test]
fn yield_self_hands_the_value_to_the_function() {
    assert_eq!(41u32.yield_self(|n| n + 1), 42);
    assert_eq!("-x".yield_self(|text| !text.starts_with('-')), false);
    assert_eq!("foo".to_string().yield_self(|text| text.len()), 3);
}
