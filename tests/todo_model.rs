use todo_list::{AppData, ItemId, TodoItem};

fn with_text(data: &mut AppData, text: &str) {
    data.added_text = text.to_string();
}

fn texts(data: &AppData) -> Vec<String> {
    let mut out = Vec::new();
    for i in 0..data.len() {
        out.push(data.get(i).unwrap().text.clone());
    }
    out
}

fn ids(data: &AppData) -> Vec<u128> {
    let mut out = Vec::new();
    for i in 0..data.len() {
        out.push(data.get(i).unwrap().id.bits);
    }
    out
}

#[test]
fn new_state_is_empty() {
    let data = AppData::new();
    assert_eq!(data.len(), 0);
    assert_eq!(data.added_text, "");
    assert!(data.get(0).is_none());
}

#[test]
fn add_appends_one_item_from_pending_text() {
    let mut data = AppData::new();
    with_text(&mut data, "buy milk");
    assert!(data.add_todo_with_id(ItemId { bits: 11 }));
    assert_eq!(data.len(), 1);
    let item = data.get(0).unwrap();
    assert_eq!(item.text, "buy milk");
    assert!(!item.done);
    assert!(!item.currently_edited);
    assert_eq!(item.id, ItemId { bits: 11 });
    assert_eq!(data.added_text, "");
}

#[test]
fn add_goes_to_the_back() {
    let mut data = AppData::new();
    with_text(&mut data, "a");
    assert!(data.add_todo_with_id(ItemId { bits: 1 }));
    with_text(&mut data, "b");
    assert!(data.add_todo_with_id(ItemId { bits: 2 }));
    with_text(&mut data, "c");
    assert!(data.add_todo_with_id(ItemId { bits: 3 }));
    assert_eq!(texts(&data), vec!["a", "b", "c"]);
    assert_eq!(ids(&data), vec![1, 2, 3]);
}

#[test]
fn add_of_blank_text_is_accepted() {
    let mut data = AppData::new();
    assert!(data.add_todo_with_id(ItemId { bits: 5 }));
    assert_eq!(data.len(), 1);
    assert_eq!(data.get(0).unwrap().text, "");
}

#[test]
fn add_with_an_id_in_use_changes_nothing() {
    let mut data = AppData::new();
    with_text(&mut data, "first");
    assert!(data.add_todo_with_id(ItemId { bits: 8 }));
    with_text(&mut data, "second");
    assert!(!data.add_todo_with_id(ItemId { bits: 8 }));
    assert_eq!(texts(&data), vec!["first"]);
    assert_eq!(data.added_text, "second");
}

#[test]
fn add_todo_draws_a_random_v4_id() {
    let mut data = AppData::new();
    with_text(&mut data, "x");
    data.add_todo();
    with_text(&mut data, "y");
    data.add_todo();
    assert_eq!(texts(&data), vec!["x", "y"]);
    assert_eq!(data.added_text, "");
    let drawn = ids(&data);
    assert_ne!(drawn[0], drawn[1]);
    for bits in drawn {
        assert_eq!((bits >> 76) & 0xF, 4);
        assert_eq!((bits >> 62) & 0x3, 0b10);
        let round = uuid::Uuid::from_u128(bits);
        assert_eq!(round.get_version_num(), 4);
    }
}

#[test]
fn random_id_has_version_four() {
    let id = ItemId::random();
    assert_eq!((id.bits >> 76) & 0xF, 4);
    assert_ne!(ItemId::random(), id);
}

#[test]
fn delete_existing_removes_exactly_that_item() {
    let mut data = AppData::new();
    for (t, b) in [("a", 1u128), ("b", 2), ("c", 3), ("d", 4)] {
        with_text(&mut data, t);
        assert!(data.add_todo_with_id(ItemId { bits: b }));
    }
    data.delete_todo(&ItemId { bits: 3 });
    assert_eq!(texts(&data), vec!["a", "b", "d"]);
    assert_eq!(ids(&data), vec![1, 2, 4]);
}

#[test]
fn delete_last_and_first() {
    let mut data = AppData::new();
    for (t, b) in [("a", 1u128), ("b", 2), ("c", 3)] {
        with_text(&mut data, t);
        assert!(data.add_todo_with_id(ItemId { bits: b }));
    }
    data.delete_todo(&ItemId { bits: 3 });
    assert_eq!(ids(&data), vec![1, 2]);
    data.delete_todo(&ItemId { bits: 1 });
    assert_eq!(ids(&data), vec![2]);
    data.delete_todo(&ItemId { bits: 2 });
    assert_eq!(data.len(), 0);
}

#[test]
fn delete_missing_id_removes_front_item() {
    let mut data = AppData::new();
    for (t, b) in [("a", 1u128), ("b", 2), ("c", 3)] {
        with_text(&mut data, t);
        assert!(data.add_todo_with_id(ItemId { bits: b }));
    }
    data.delete_todo(&ItemId { bits: 99 });
    assert_eq!(texts(&data), vec!["b", "c"]);
}

#[test]
fn delete_keeps_pending_text() {
    let mut data = AppData::new();
    assert!(data.add_todo_with_id(ItemId { bits: 1 }));
    with_text(&mut data, "typing");
    data.delete_todo(&ItemId { bits: 1 });
    assert_eq!(data.added_text, "typing");
}

#[test]
fn order_kept_across_adds_and_deletes() {
    let mut data = AppData::new();
    for (t, b) in [("a", 1u128), ("b", 2), ("c", 3), ("d", 4), ("e", 5)] {
        with_text(&mut data, t);
        assert!(data.add_todo_with_id(ItemId { bits: b }));
    }
    data.delete_todo(&ItemId { bits: 2 });
    with_text(&mut data, "f");
    assert!(data.add_todo_with_id(ItemId { bits: 6 }));
    data.delete_todo(&ItemId { bits: 4 });
    assert_eq!(texts(&data), vec!["a", "c", "e", "f"]);
}

#[test]
fn contains_id_finds_only_present_ids() {
    let mut data = AppData::new();
    assert!(!data.contains_id(&ItemId { bits: 1 }));
    assert!(data.add_todo_with_id(ItemId { bits: 1 }));
    assert!(data.contains_id(&ItemId { bits: 1 }));
    assert!(!data.contains_id(&ItemId { bits: 2 }));
}

#[test]
fn toggle_edit_twice_restores_item() {
    let mut item = TodoItem::new("walk".to_string(), ItemId { bits: 3 });
    item.done = true;
    item.toggle_edit();
    assert!(item.currently_edited);
    assert_eq!(item.text, "walk");
    item.toggle_edit();
    assert!(!item.currently_edited);
    assert!(item.done);
    assert_eq!(item.text, "walk");
    assert_eq!(item.id, ItemId { bits: 3 });
}

#[test]
fn edit_button_label_follows_mode() {
    let mut item = TodoItem::new("walk".to_string(), ItemId { bits: 3 });
    assert_eq!(item.edit_button_label(), "Edit");
    item.toggle_edit();
    assert_eq!(item.edit_button_label(), "Save");
}

#[test]
fn text_edited_while_editing_is_kept() {
    let mut item = TodoItem::new("walk".to_string(), ItemId { bits: 3 });
    item.toggle_edit();
    item.text = "run".to_string();
    item.toggle_edit();
    assert!(!item.currently_edited);
    assert_eq!(item.text, "run");
}

#[test]
fn add_todo_on_empty_list_adds_pending_text() {
    let mut data = AppData::new();
    with_text(&mut data, "buy milk");
    data.add_todo();
    assert_eq!(data.len(), 1);
    let item = data.get(0).unwrap();
    assert_eq!(item.text, "buy milk");
    assert!(!item.done);
    assert!(!item.currently_edited);
    assert_eq!(data.added_text, "");
}
