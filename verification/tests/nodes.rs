use typed_fuse::{Cx, NodeId};

#[test]
fn root_is_inode_one_and_numbers_start_at_two() {
    let mut cx = Cx::new("root");
    assert_eq!(NodeId::root().ino(), 1);
    assert_eq!(cx.get(NodeId::root()), Some(&"root"));
    let id = cx.insert("a", NodeId::root());
    assert_eq!(id.ino(), 2);
    assert_eq!(cx.parent(id), Some(NodeId::root()));
    assert_eq!(cx.generation(id), Some(0));
}

#[test]
fn node_goes_with_its_last_link_lookup_and_handle() {
    let mut cx = Cx::new(0);
    let id = cx.insert(7, NodeId::root());
    cx.add_link(id);
    cx.add_lookup(id);
    cx.add_open(id);
    cx.remove_link(id);
    cx.remove_link(id);
    assert_eq!(cx.get(id), Some(&7));
    cx.forget(id, 1);
    assert_eq!(cx.get(id), Some(&7));
    cx.remove_open(id);
    assert_eq!(cx.get(id), None);
    assert!(!cx.contains(id));
}

#[test]
fn reused_number_has_a_higher_generation() {
    let mut cx = Cx::new(0);
    let first = cx.insert(1, NodeId::root());
    cx.remove_link(first);
    let second = cx.insert(2, NodeId::root());
    assert_eq!(second, first);
    assert_eq!(cx.generation(second), Some(1));
    assert_eq!(cx.get(second), Some(&2));
    let third = cx.insert(3, NodeId::root());
    assert_ne!(third, second);
}

#[test]
fn last_forgotten_reference_is_noticed_once() {
    let mut cx = Cx::new(0);
    let id = cx.insert(5, NodeId::root());
    assert_eq!(cx.forget_notice(id, 1), None);
    cx.add_lookup(id);
    cx.add_lookup(id);
    assert_eq!(cx.forget_notice(id, 1), None);
    cx.forget(id, 1);
    assert_eq!(cx.forget_notice(id, 9), Some(&5));
    cx.forget(id, 9);
    assert_eq!(cx.forget_notice(id, 1), None);
    assert!(cx.contains(id));
}

#[test]
fn missing_nodes_stay_missing() {
    let mut cx = Cx::new(0);
    let id = cx.insert(1, NodeId::root());
    cx.remove_link(id);
    cx.add_link(id);
    cx.add_lookup(id);
    cx.add_open(id);
    cx.reparent(id, NodeId::root());
    cx.remove_open(id);
    cx.forget(id, 3);
    assert!(!cx.contains(id));
    assert_eq!(cx.parent(id), None);
    assert_eq!(cx.generation(id), None);
    assert!(cx.has_room());
}

#[test]
fn reparented_node_reports_the_new_directory() {
    let mut cx = Cx::new(0);
    let directory = cx.insert(1, NodeId::root());
    let file = cx.insert(2, NodeId::root());
    cx.reparent(file, directory);
    assert_eq!(cx.parent(file), Some(directory));
    assert_eq!(cx.get(file), Some(&2));
}
