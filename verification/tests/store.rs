use hagias::display::DisplayLayout;
use hagias::layouts::{Layouts, NamedLayout};

fn empty_layout() -> DisplayLayout {
    DisplayLayout {
        source_modes: vec![],
        target_modes: vec![],
        paths: vec![],
    }
}

fn named(id: &str, name: &str) -> NamedLayout {
    NamedLayout {
        id: id.to_string(),
        name: name.to_string(),
        emoji: None,
        hidden: false,
        layout: empty_layout(),
    }
}

#[test]
fn new_store_is_empty() {
    let layouts = Layouts::new();
    assert_eq!(layouts.len(), 0);
    assert!(layouts.is_empty());
    assert!(layouts.get_layout("anything").is_none());
}

#[test]
fn add_keeps_insertion_order() {
    let mut layouts = Layouts::new();
    layouts.add_layout(named("a", "first"));
    layouts.add_layout(named("b", "second"));
    layouts.add_layout(named("c", "third"));
    assert_eq!(layouts.len(), 3);
    assert_eq!(layouts.index(0).id, "a");
    assert_eq!(layouts.index(1).id, "b");
    assert_eq!(layouts.index(2).id, "c");
}

#[test]
fn add_replaces_and_moves_to_end() {
    // Replace-and-move: a second add with the same id leaves exactly one
    // entry with that id, last, with the newer content.
    let mut layouts = Layouts::new();
    layouts.add_layout(named("x", "one"));
    layouts.add_layout(named("y", "other"));
    layouts.add_layout(named("x", "two"));
    assert_eq!(layouts.len(), 2);
    assert_eq!(layouts.index(0).id, "y");
    assert_eq!(layouts.index(1).id, "x");
    assert_eq!(layouts.index(1).name, "two");
    assert_eq!(layouts.get_layout("x").unwrap().name, "two");
}

#[test]
fn add_twice_same_id_keeps_one_entry() {
    let mut layouts = Layouts::new();
    layouts.add_layout(named("x", "one"));
    layouts.add_layout(named("x", "two"));
    assert_eq!(layouts.len(), 1);
    assert_eq!(layouts.index(0).id, "x");
    assert_eq!(layouts.index(0).name, "two");
}

#[test]
fn remove_returns_the_entry() {
    let mut layouts = Layouts::new();
    layouts.add_layout(named("a", "first"));
    layouts.add_layout(named("b", "second"));
    let removed = layouts.remove_layout("a").expect("entry should exist");
    assert_eq!(removed.name, "first");
    assert_eq!(layouts.len(), 1);
    assert_eq!(layouts.index(0).id, "b");
    assert!(layouts.remove_layout("a").is_none());
}

#[test]
fn get_layout_finds_by_id() {
    let mut layouts = Layouts::new();
    layouts.add_layout(named("a", "first"));
    layouts.add_layout(named("b", "second"));
    assert_eq!(layouts.get_layout("b").unwrap().name, "second");
    assert!(layouts.get_layout("missing").is_none());
}

#[test]
fn swap_reorders_entries() {
    let mut layouts = Layouts::new();
    layouts.add_layout(named("a", "first"));
    layouts.add_layout(named("b", "second"));
    layouts.add_layout(named("c", "third"));
    layouts.swap(0, 2);
    assert_eq!(layouts.index(0).id, "c");
    assert_eq!(layouts.index(1).id, "b");
    assert_eq!(layouts.index(2).id, "a");
    layouts.swap(1, 1);
    assert_eq!(layouts.index(1).id, "b");
}

#[test]
fn set_hidden_flags_one_entry() {
    let mut layouts = Layouts::new();
    layouts.add_layout(named("a", "first"));
    layouts.add_layout(named("b", "second"));
    assert!(!layouts.index(0).hidden);
    assert!(layouts.set_hidden("a", true));
    assert!(layouts.index(0).hidden);
    assert!(!layouts.index(1).hidden);
    assert!(layouts.set_hidden("a", false));
    assert!(!layouts.index(0).hidden);
    assert!(!layouts.set_hidden("missing", true));
}

#[test]
fn from_entries_keeps_the_given_order() {
    let entries = vec![named("z", "last"), named("a", "first")];
    let layouts = Layouts::from_entries(entries);
    assert_eq!(layouts.len(), 2);
    assert_eq!(layouts.index(0).id, "z");
    assert_eq!(layouts.index(1).id, "a");
}

#[test]
fn emoji_and_hidden_round_through_entries() {
    let mut entry = named("e", "emoji one");
    entry.emoji = Some("star".to_string());
    entry.hidden = true;
    let mut layouts = Layouts::new();
    layouts.add_layout(entry);
    assert_eq!(layouts.index(0).emoji.as_deref(), Some("star"));
    assert!(layouts.index(0).hidden);
}
