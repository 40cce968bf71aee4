use std::cell::Cell;
use std::rc::Rc;

use fixed_vec::FixedVec;

/// An element that counts its own destructions through a shared counter.
struct Counted {
    drops: Rc<Cell<usize>>,
}

impl Drop for Counted {
    fn drop(&mut self) {
        self.drops.set(self.drops.get() + 1);
    }
}

#[test]
fn owning_iter_forward() {
    let vec = FixedVec::from_vec(vec![1u64, 2, 3]);
    let mut iter = vec.into_iter();
    assert_eq!(iter.size_hint(), (3, Some(3)));
    assert_eq!(iter.next(), Some(1));
    assert_eq!(iter.size_hint(), (2, Some(2)));
    assert_eq!(iter.next(), Some(2));
    assert_eq!(iter.next(), Some(3));
    assert_eq!(iter.next(), None);
    assert_eq!(iter.next(), None);
    assert_eq!(iter.size_hint(), (0, Some(0)));
}

#[test]
fn owning_iter_backward() {
    let vec = FixedVec::from_vec(vec![1u64, 2, 3]);
    let mut iter = vec.into_iter();
    assert_eq!(iter.next_back(), Some(3));
    assert_eq!(iter.next_back(), Some(2));
    assert_eq!(iter.next_back(), Some(1));
    assert_eq!(iter.next_back(), None);
}

#[test]
fn owning_iter_mixed_reassembles() {
    let vec = FixedVec::from_vec(vec![10u64, 20, 30, 40, 50]);
    let mut iter = vec.into_iter();
    let mut front: Vec<u64> = Vec::new();
    let mut back: Vec<u64> = Vec::new();
    front.push(iter.next().unwrap());
    back.push(iter.next_back().unwrap());
    front.push(iter.next().unwrap());
    back.push(iter.next_back().unwrap());
    front.push(iter.next().unwrap());
    assert_eq!(iter.next(), None);
    assert_eq!(iter.next_back(), None);
    // Reassembled in original order, the yields reproduce the sequence.
    back.reverse();
    front.extend(back);
    assert_eq!(front, vec![10u64, 20, 30, 40, 50]);
}

#[test]
fn owning_iter_count_and_last() {
    let vec = FixedVec::from_vec(vec![7u64, 8, 9]);
    let mut iter = vec.into_iter();
    assert_eq!(iter.next(), Some(7));
    assert_eq!(iter.count(), 2);
    let other = FixedVec::from_vec(vec![7u64, 8]);
    assert_eq!(other.into_iter().last(), Some(8));
    let empty = FixedVec::<u64>::new(1);
    assert_eq!(empty.into_iter().last(), None);
}

#[test]
fn partially_consumed_iter_drops_rest_exactly_once() {
    let drops: Rc<Cell<usize>> = Rc::new(Cell::new(0));
    let mut vec = FixedVec::new(4);
    for _ in 0..4 {
        assert!(vec.push(Counted { drops: drops.clone() }).is_ok());
    }
    assert_eq!(drops.get(), 0);
    let mut iter = vec.into_iter();
    let first = iter.next();
    assert!(first.is_some());
    let last = iter.next_back();
    assert!(last.is_some());
    drop(first);
    drop(last);
    // Only the two yielded elements are gone so far.
    assert_eq!(drops.get(), 2);
    drop(iter);
    // Dropping the iterator drops each unconsumed element exactly once.
    assert_eq!(drops.get(), 4);
}

#[test]
fn dropping_container_drops_each_element_once() {
    let drops: Rc<Cell<usize>> = Rc::new(Cell::new(0));
    let mut vec = FixedVec::new(3);
    for _ in 0..3 {
        assert!(vec.push(Counted { drops: drops.clone() }).is_ok());
    }
    drop(vec);
    assert_eq!(drops.get(), 3);
}

#[test]
fn shared_iter_walks_both_ends() {
    let vec = FixedVec::from_vec(vec![1u64, 2, 3]);
    let mut iter = vec.iter();
    assert_eq!(iter.size_hint(), (3, Some(3)));
    assert_eq!(iter.next(), Some(&1));
    assert_eq!(iter.next_back(), Some(&3));
    assert_eq!(iter.next(), Some(&2));
    assert_eq!(iter.next(), None);
    assert_eq!(iter.next_back(), None);
    // The container itself is untouched.
    assert_eq!(vec.len(), 3);
    assert_eq!(vec.get(0), Some(&1));
}

#[test]
fn shared_iter_count_and_last() {
    let vec = FixedVec::from_vec(vec![5u64, 6]);
    assert_eq!(vec.iter().count(), 2);
    assert_eq!(vec.iter().last(), Some(&6));
    let mut iter = vec.iter();
    assert_eq!(iter.next(), Some(&5));
    assert_eq!(iter.count(), 1);
    let empty = FixedVec::<u64>::new(0);
    assert_eq!(empty.iter().last(), None);
}
