//! Node ids and the walk over the ids of the children.

use iced_taffy::node::CONTAINER_RAW;
use iced_taffy::GridChildIter;
use iced_taffy::NodeId;

#[test]
fn the_container_has_the_reserved_number() {
    assert_eq!(CONTAINER_RAW, u64::MAX);
    assert_eq!(NodeId::Container.to_raw(), u64::MAX);
    assert_eq!(NodeId::from_raw(u64::MAX), Some(NodeId::Container));
    assert!(NodeId::Container.is_container());
    assert_eq!(NodeId::Container.index(), None);
}

#[test]
fn a_child_has_its_index_for_a_number() {
    for index in [0usize, 1, 2, 17, 4096, 1 << 31] {
        let id = NodeId::Child(index);
        assert_eq!(id.to_raw(), index as u64);
        assert_eq!(NodeId::from_raw(index as u64), Some(id));
        assert!(!id.is_container());
        assert_eq!(id.index(), Some(index));
    }
}

#[test]
fn the_ids_of_children_are_distinct_and_none_is_the_container() {
    let count = 100usize;
    let raws: Vec<u64> = (0..count).map(|index| NodeId::Child(index).to_raw()).collect();
    for (index, raw) in raws.iter().enumerate() {
        assert_ne!(*raw, NodeId::Container.to_raw());
        assert_eq!(NodeId::from_raw(*raw), Some(NodeId::Child(index)));
        for other in &raws[..index] {
            assert_ne!(raw, other);
        }
    }
}

#[test]
fn the_walk_gives_each_child_once_in_order() {
    let mut walk = GridChildIter::new(4);
    assert_eq!(walk.next(), Some(NodeId::Child(0)));
    assert_eq!(walk.next(), Some(NodeId::Child(1)));
    assert_eq!(walk.next(), Some(NodeId::Child(2)));
    assert_eq!(walk.next(), Some(NodeId::Child(3)));
    assert_eq!(walk.next(), None);
    assert_eq!(walk.next(), None);
}

#[test]
fn the_walk_over_no_children_is_over_at_once() {
    let mut walk = GridChildIter::new(0);
    assert_eq!(walk.next(), None);
}
