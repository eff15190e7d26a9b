use todo_items::item::{a_item_destroy, a_item_new, a_item_set_due_date, a_item_set_name, new_item, Item, Label};

#[test]
fn new_item_defaults() {
    let item = new_item();
    assert_eq!(item.uuid, "");
    assert_eq!(item.get_name(), "");
    assert_eq!(item.get_due_date(), None);
    assert_eq!(item.get_completion_date(), None);
    assert_eq!(item.labels_clone().len(), 0);
}

#[test]
fn a_item_new_defaults() {
    let item = a_item_new();
    assert_eq!(item.get_name(), "");
    assert_eq!(item.get_due_date(), None);
    assert_eq!(item.get_completion_date(), None);
    assert_eq!(item.labels_clone().len(), 0);
    a_item_destroy(item);
}

#[test]
fn a_set_name_round_trip() {
    let mut item = new_item();
    a_item_set_name(&mut item, Some(String::from("Buy milk")));
    assert_eq!(item.get_name(), "Buy milk");
    // A failed decode degrades to the empty fallback, never a fault.
    a_item_set_name(&mut item, None);
    assert_eq!(item.get_name(), "");
}

#[test]
fn a_set_due_date_round_trip() {
    let mut item = new_item();
    a_item_set_due_date(&mut item, Some(1000));
    assert_eq!(item.get_due_date(), Some(1000));
    // Zero is a valid timestamp, distinguishable from the absent sentinel.
    a_item_set_due_date(&mut item, Some(0));
    assert_eq!(item.get_due_date(), Some(0));
    assert_ne!(item.get_due_date(), None);
    // Negative seconds are set verbatim.
    a_item_set_due_date(&mut item, Some(-5));
    assert_eq!(item.get_due_date(), Some(-5));
    // Absent input clears the field.
    a_item_set_due_date(&mut item, None);
    assert_eq!(item.get_due_date(), None);
}

#[test]
fn date_setters_are_independent() {
    let mut item = new_item();
    item.set_completion_date(Some(7));
    a_item_set_due_date(&mut item, Some(1000));
    assert_eq!(item.get_completion_date(), Some(7));
    item.set_completion_date(Some(8));
    assert_eq!(item.get_due_date(), Some(1000));
    item.set_completion_date(None);
    assert_eq!(item.get_due_date(), Some(1000));
    assert_eq!(item.get_completion_date(), None);
}

#[test]
fn labels_clone_is_a_copy() {
    let mut item = new_item();
    item.set_labels(vec![
        Label { name: String::from("urgent") },
        Label { name: String::from("home") },
    ]);
    let mut copy = item.labels_clone();
    assert_eq!(copy.len(), 2);
    assert_eq!(copy[0].name, "urgent");
    assert_eq!(copy[1].name, "home");
    // Mutating the copy never reaches the record.
    copy.push(Label { name: String::from("extra") });
    copy[0].name = String::from("changed");
    let again = item.labels_clone();
    assert_eq!(again.len(), 2);
    assert_eq!(again[0].name, "urgent");
    assert_eq!(again[1].name, "home");
}

#[test]
fn clone_observes_same_state() {
    let mut item = new_item();
    a_item_set_name(&mut item, Some(String::from("Buy milk")));
    a_item_set_due_date(&mut item, Some(1000));
    item.set_labels(vec![Label { name: String::from("errand") }]);
    let copy: Item = item.clone();
    assert_eq!(copy.get_name(), "Buy milk");
    assert_eq!(copy.get_due_date(), Some(1000));
    assert_eq!(copy.get_completion_date(), None);
    assert_eq!(copy.labels_clone(), item.labels_clone());
}
