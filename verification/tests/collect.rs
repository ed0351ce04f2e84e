use arraycollect::{FillError, FromIter, IntoArray};
use std::cell::Cell;
use std::rc::Rc;

/// An iterator that counts how often it is asked for an item.
struct Counting<I> {
    inner: I,
    calls: Rc<Cell<usize>>,
}

impl<I: Iterator> Iterator for Counting<I> {
    type Item = I::Item;

    fn next(&mut self) -> Option<I::Item> {
        self.calls.set(self.calls.get() + 1);
        self.inner.next()
    }
}

/// An iterator that must never be asked for an item.
struct Untouchable;

impl Iterator for Untouchable {
    type Item = u8;

    fn next(&mut self) -> Option<u8> {
        panic!("asked for an item");
    }
}

#[test]
fn ten_of_ten() {
    let array = <[usize; 10] as FromIter<usize>>::from_iter(0..10);
    assert_eq!(array, Ok([0, 1, 2, 3, 4, 5, 6, 7, 8, 9]));
}

#[test]
fn five_of_twenty() {
    let array = <[usize; 20] as FromIter<usize>>::from_iter(0..5);
    assert_eq!(array, Err(FillError::new(5, 20)));
}

#[test]
fn array_collect_boxes() {
    let array = (0..10).map(Box::new).array_collect::<[_; 10]>();
    assert_eq!(
        array,
        Ok([
            Box::new(0),
            Box::new(1),
            Box::new(2),
            Box::new(3),
            Box::new(4),
            Box::new(5),
            Box::new(6),
            Box::new(7),
            Box::new(8),
            Box::new(9)
        ])
    );
}

#[test]
fn array_collect_short() {
    let array = (0..5).array_collect::<[usize; 20]>();
    assert_eq!(array, Err(FillError::new(5, 20)));
}

#[test]
fn exact_fill_keeps_every_item() {
    let words = vec!["a".to_string(), "bc".to_string(), "def".to_string()];
    let array = <[String; 3]>::from_iter(words.clone().into_iter());
    assert_eq!(array, Ok(["a".to_string(), "bc".to_string(), "def".to_string()]));
    let one = <[char; 1]>::from_iter("x".chars());
    assert_eq!(one, Ok(['x']));
}

#[test]
fn order_is_the_order_of_the_source() {
    let source = [7u32, 3, 9, 1, 4, 4, 0];
    let array = <[u32; 7]>::from_iter(source.iter().copied()).unwrap();
    for i in 0..7 {
        assert_eq!(array[i], source[i]);
    }
    let reversed = <[u32; 7]>::from_iter(source.iter().rev().copied()).unwrap();
    assert_eq!(reversed, [0, 4, 4, 1, 9, 3, 7]);
}

#[test]
fn undersupply_counts_what_came() {
    assert_eq!(<[u8; 4]>::from_iter(0..0u8), Err(FillError::new(0, 4)));
    assert_eq!(<[u8; 4]>::from_iter(0..1u8), Err(FillError::new(1, 4)));
    assert_eq!(<[u8; 4]>::from_iter(0..2u8), Err(FillError::new(2, 4)));
    assert_eq!(<[u8; 4]>::from_iter(0..3u8), Err(FillError::new(3, 4)));
    assert_eq!(<[u8; 4]>::from_iter(0..4u8), Ok([0, 1, 2, 3]));
}

#[test]
fn empty_source_and_one_slot() {
    let array = <[String; 1]>::from_iter(std::iter::empty());
    assert_eq!(array, Err(FillError::new(0, 1)));
}

#[test]
fn oversupply_takes_the_first_items() {
    let array = <[u32; 3]>::from_iter(10..1000);
    assert_eq!(array, Ok([10, 11, 12]));
}

#[test]
fn oversupply_leaves_the_rest_untouched() {
    let mut source = 0..10;
    let array = <[i32; 4]>::from_iter(source.by_ref());
    assert_eq!(array, Ok([0, 1, 2, 3]));
    assert_eq!(source.next(), Some(4));
    assert_eq!(source.len(), 5);
}

#[test]
fn oversupply_asks_once_for_each_slot() {
    let calls = Rc::new(Cell::new(0));
    let source = Counting { inner: 0..100u64, calls: calls.clone() };
    let array = <[u64; 6]>::from_iter(source);
    assert_eq!(array, Ok([0, 1, 2, 3, 4, 5]));
    assert_eq!(calls.get(), 6);
}

#[test]
fn exact_supply_asks_once_for_each_slot() {
    let calls = Rc::new(Cell::new(0));
    let source = Counting { inner: 0..6u64, calls: calls.clone() };
    let array = <[u64; 6]>::from_iter(source);
    assert_eq!(array, Ok([0, 1, 2, 3, 4, 5]));
    assert_eq!(calls.get(), 6);
}

#[test]
fn undersupply_stops_at_the_first_refusal() {
    let calls = Rc::new(Cell::new(0));
    let source = Counting { inner: 0..2u64, calls: calls.clone() };
    let array = <[u64; 6]>::from_iter(source);
    assert_eq!(array, Err(FillError::new(2, 6)));
    assert_eq!(calls.get(), 3);
}

#[test]
fn infinite_source() {
    let array = <[u8; 5]>::from_iter(std::iter::repeat(7u8));
    assert_eq!(array, Ok([7; 5]));
    let counted = (1u32..).array_collect::<[u32; 3]>();
    assert_eq!(counted, Ok([1, 2, 3]));
}

#[test]
fn zero_capacity_from_nothing() {
    let array = <[u8; 0]>::from_iter(std::iter::empty());
    assert_eq!(array, Ok([]));
}

#[test]
fn zero_capacity_takes_nothing() {
    let mut source = 0..3u8;
    let array = <[u8; 0]>::from_iter(source.by_ref());
    assert_eq!(array, Ok([]));
    assert_eq!(source.next(), Some(0));
}

#[test]
fn zero_capacity_never_asks() {
    let array = <[u8; 0]>::from_iter(Untouchable);
    assert_eq!(array, Ok([]));
    let collected = Untouchable.array_collect::<[u8; 0]>();
    assert_eq!(collected, Ok([]));
}

#[test]
fn large_array() {
    let array = <[usize; 1000]>::from_iter(0..1000).unwrap();
    for i in 0..1000 {
        assert_eq!(array[i], i);
    }
    assert_eq!(<[usize; 1000]>::from_iter(0..999), Err(FillError::new(999, 1000)));
}
