use shared_array::Array;
use std::cell::Cell;
use std::rc::Rc;

/// An element that counts how often it has been cloned.
struct Counted {
    value: i32,
    clones: Rc<Cell<usize>>,
}

impl Clone for Counted {
    fn clone(&self) -> Self {
        self.clones.set(self.clones.get() + 1);
        Counted { value: self.value, clones: Rc::clone(&self.clones) }
    }
}

fn counted(values: &[i32], clones: &Rc<Cell<usize>>) -> Array<Counted> {
    let mut items = Vec::new();
    for value in values {
        items.push(Counted { value: *value, clones: Rc::clone(clones) });
    }
    Array::from_vec(items)
}

fn values(a: &Array<Counted>) -> Vec<i32> {
    a.iter().map(|c| c.value).collect()
}

#[test]
fn cloning_the_array_clones_no_element() {
    let clones = Rc::new(Cell::new(0));
    let a = counted(&[1, 2, 3], &clones);
    let b = a.clone();
    let c = b.clone();
    assert_eq!(clones.get(), 0);
    assert_eq!(values(&c), vec![1, 2, 3]);
    assert_eq!(values(&a), vec![1, 2, 3]);
}

#[test]
fn unique_array_is_written_in_place() {
    let clones = Rc::new(Cell::new(0));
    let mut a = counted(&[1, 2, 3], &clones);
    a.push(Counted { value: 4, clones: Rc::clone(&clones) });
    assert!(a.pop().is_some());
    a.iter_mut()[0].value = 10;
    a.extend(Vec::new());
    assert_eq!(clones.get(), 0);
    assert_eq!(values(&a), vec![10, 2, 3]);
    let taken = a.take_inner();
    assert_eq!(taken.len(), 3);
    assert_eq!(clones.get(), 0);
}

#[test]
fn shared_array_is_copied_once_on_first_write() {
    let clones = Rc::new(Cell::new(0));
    let mut a = counted(&[1, 2, 3], &clones);
    let b = a.clone();
    a.push(Counted { value: 4, clones: Rc::clone(&clones) });
    assert_eq!(clones.get(), 3);
    a.push(Counted { value: 5, clones: Rc::clone(&clones) });
    assert!(a.pop().is_some());
    assert_eq!(clones.get(), 3);
    assert_eq!(values(&a), vec![1, 2, 3, 4]);
    assert_eq!(values(&b), vec![1, 2, 3]);
}

#[test]
fn write_is_in_place_again_once_siblings_are_gone() {
    let clones = Rc::new(Cell::new(0));
    let mut a = counted(&[1, 2], &clones);
    let b = a.clone();
    drop(b);
    a.push(Counted { value: 3, clones: Rc::clone(&clones) });
    assert_eq!(clones.get(), 0);
    assert_eq!(values(&a), vec![1, 2, 3]);
}

#[test]
fn iter_mut_copies_a_shared_buffer_once() {
    let clones = Rc::new(Cell::new(0));
    let mut a = counted(&[1, 2, 3], &clones);
    let b = a.clone();
    for c in a.iter_mut() {
        c.value += 1;
    }
    assert_eq!(clones.get(), 3);
    assert_eq!(values(&a), vec![2, 3, 4]);
    assert_eq!(values(&b), vec![1, 2, 3]);
}

#[test]
fn iter_reads_a_shared_buffer_where_it_is() {
    let clones = Rc::new(Cell::new(0));
    let a = counted(&[1, 2, 3], &clones);
    let b = a.clone();
    assert_eq!(values(&a), values(&b));
    assert_eq!(b.get(1).map(|c| c.value), Some(2));
    assert_eq!(clones.get(), 0);
}

#[test]
fn take_inner_copies_a_shared_buffer() {
    let clones = Rc::new(Cell::new(0));
    let mut a = counted(&[1, 2], &clones);
    let b = a.clone();
    let taken = a.take_inner();
    assert_eq!(clones.get(), 2);
    assert_eq!(taken.len(), 2);
    assert!(a.is_empty());
    assert_eq!(values(&b), vec![1, 2]);
}

#[test]
fn unique_array_converts_without_copying() {
    let clones = Rc::new(Cell::new(0));
    let a = counted(&[1, 2, 3], &clones);
    let owned = a.into_vec();
    assert_eq!(clones.get(), 0);
    assert_eq!(owned.len(), 3);
    let b = counted(&[4, 5], &clones);
    let mut seen = Vec::new();
    for c in b {
        seen.push(c.value);
    }
    assert_eq!(seen, vec![4, 5]);
    assert_eq!(clones.get(), 0);
}

#[test]
fn shared_array_converts_by_copying() {
    let clones = Rc::new(Cell::new(0));
    let a = counted(&[1, 2, 3], &clones);
    let sibling = a.clone();
    let owned = a.into_vec();
    assert_eq!(clones.get(), 3);
    assert_eq!(owned.len(), 3);
    assert_eq!(values(&sibling), vec![1, 2, 3]);
}

fn sendable<H: Send + Sync>(handle: H) -> H {
    handle
}

#[test]
fn handles_may_cross_threads() {
    let a = sendable(Array::from_vec(vec![1, 2, 3]));
    let b = sendable(a.clone());
    assert!(a == b);
}
