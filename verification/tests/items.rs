use ranim::items::{Group, Id, IdAllocator, ItemId};

#[test]
fn allocate_counts_up_from_zero() {
    let mut counter = IdAllocator::new();
    assert_eq!(counter.peek(), 0);
    let a = Id::allocate(&mut counter);
    let b = Id::allocate(&mut counter);
    let c = Id::allocate(&mut counter);
    assert_eq!((a.0, b.0, c.0), (0, 1, 2));
    assert_eq!(counter.peek(), 3);
}

#[test]
fn allocated_ids_are_distinct() {
    let mut counter = IdAllocator::new();
    let ids: Vec<usize> = (0..100).map(|_| Id::allocate(&mut counter).0).collect();
    for i in 0..ids.len() {
        for j in (i + 1)..ids.len() {
            assert_ne!(ids[i], ids[j]);
        }
    }
}

#[test]
fn id_derefs_to_its_number() {
    let id = Id(42);
    assert_eq!(*id, 42);
}

#[test]
fn item_id_keeps_its_id() {
    let item: ItemId<String> = ItemId::new(Id(7));
    assert_eq!(item.inner().0, 7);
    assert_eq!(*item, 7);
}

#[test]
fn item_id_allocate_takes_from_the_counter() {
    let mut counter = IdAllocator::new();
    let _first: ItemId<u8> = ItemId::allocate(&mut counter);
    let second: ItemId<u8> = ItemId::allocate(&mut counter);
    assert_eq!(second.inner().0, 1);
    assert_eq!(counter.peek(), 2);
}

#[test]
fn group_behaves_like_a_vec() {
    let mut group = Group(vec![1, 2, 3]);
    assert_eq!(group.len(), 3);
    group.push(4);
    assert_eq!(group.0, vec![1, 2, 3, 4]);
    assert_eq!(group.iter().sum::<i32>(), 10);
    let empty: Group<u8> = Group::default();
    assert!(empty.is_empty());
}

#[test]
fn group_iterates_by_value_and_by_reference() {
    let mut group = Group(vec![1, 2, 3]);
    for x in &mut group {
        *x *= 10;
    }
    let seen: Vec<i32> = (&group).into_iter().copied().collect();
    assert_eq!(seen, vec![10, 20, 30]);
    let owned: Vec<i32> = group.into_iter().collect();
    assert_eq!(owned, vec![10, 20, 30]);
}
