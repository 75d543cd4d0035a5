use devspace::config::{Config, SpaceTree, SpaceTreeId};
use devspace::database::{DataBase, Space};
use devspace::DsError;

fn space(w: &str, t: &str) -> Space {
    Space::new(w.to_string(), SpaceTreeId::from(t))
}

#[test]
fn remove_absent_space_changes_nothing() {
    let mut db = DataBase::default();
    db.insert("a".to_string(), space("/a", "jump"));
    db.remove("zzz");
    assert_eq!(db.spaces_iter().len(), 1);
    assert_eq!(db.get_space("a").unwrap().wdir, "/a");
    let mut empty = DataBase::default();
    empty.remove("a");
    assert!(empty.is_empty());
}

#[test]
fn remove_absent_tree_changes_nothing() {
    let mut c = Config::default();
    c.remove_tree("nope");
    assert_eq!(c.trees_iter().len(), 1);
    assert!(c.get_tree(&SpaceTreeId::from("jump")).is_ok());
    assert_eq!(c.default_tree.0, "jump");
}

#[test]
fn insert_twice_keeps_one_entry_with_second_value() {
    let mut db = DataBase::default();
    db.insert("p".to_string(), space("/first", "t1"));
    db.insert("p".to_string(), space("/second", "t2"));
    let matching: Vec<_> = db.spaces_iter().iter().filter(|(n, _)| n == "p").collect();
    assert_eq!(matching.len(), 1);
    let s = db.get_space("p").unwrap();
    assert_eq!(s.wdir, "/second");
    assert_eq!(s.tree.0, "t2");
}

#[test]
fn database_insert_get_remove() {
    let mut db = DataBase::default();
    assert!(db.is_empty());
    db.insert("a".to_string(), space("/a", "x"));
    db.insert("b".to_string(), space("/b", "y"));
    assert!(!db.is_empty());
    assert_eq!(db.get_space("b").unwrap().wdir, "/b");
    db.remove("a");
    match db.get_space("a") {
        Err(DsError::SpaceNotFound(n)) => assert_eq!(n, "a"),
        other => panic!("unexpected {:?}", other),
    }
    assert_eq!(db.spaces_iter().len(), 1);
}

#[test]
fn default_config_has_the_jump_tree() {
    let c = Config::default();
    assert_eq!(c.default_tree.0, "jump");
    match c.get_tree(&SpaceTreeId::from("jump")).unwrap() {
        SpaceTree::Cmd(s) => {
            assert_eq!(s, "clear && echo 'Hello, welcome to the default devspace's tree'")
        }
        other => panic!("unexpected {:?}", other),
    }
}

#[test]
fn config_insert_and_missing_tree() {
    let mut c = Config::new(SpaceTreeId::from("main"));
    assert!(c.is_empty_trees());
    c.insert_tree("main".to_string(), SpaceTree::Cmd("ls".to_string()));
    c.insert_tree("main".to_string(), SpaceTree::Cmd("pwd".to_string()));
    assert_eq!(c.trees_iter().len(), 1);
    match c.get_tree(&SpaceTreeId::from("main")).unwrap() {
        SpaceTree::Cmd(s) => assert_eq!(s, "pwd"),
        other => panic!("unexpected {:?}", other),
    }
    match c.get_tree(&SpaceTreeId::from("other")) {
        Err(DsError::SpaceTreeNotFound(id)) => assert_eq!(id.0, "other"),
        other => panic!("unexpected {:?}", other),
    }
}

#[test]
fn entries_round_trip_rebuilds_the_catalog() {
    let mut db = DataBase::default();
    db.insert("a".to_string(), space("/a", "x"));
    db.insert("b".to_string(), space("/b", "y"));
    let back = DataBase::from_entries(db.spaces_iter().clone());
    assert_eq!(back.spaces_iter().len(), 2);
    assert_eq!(back.get_space("a").unwrap().wdir, "/a");
    assert_eq!(back.get_space("b").unwrap().tree.0, "y");

    let config = Config::default();
    let rebuilt = Config::from_trees(config.default_tree.clone(), config.trees_iter().clone());
    assert_eq!(rebuilt.default_tree.0, "jump");
    assert_eq!(
        rebuilt.get_tree(&SpaceTreeId::from("jump")).unwrap().pretty_print(0),
        config.get_tree(&SpaceTreeId::from("jump")).unwrap().pretty_print(0)
    );
}

#[test]
fn from_entries_keeps_the_later_of_two_names() {
    let db = DataBase::from_entries(vec![
        ("p".to_string(), space("/first", "t")),
        ("q".to_string(), space("/q", "t")),
        ("p".to_string(), space("/second", "t")),
    ]);
    assert_eq!(db.spaces_iter().len(), 2);
    assert_eq!(db.get_space("p").unwrap().wdir, "/second");
}
