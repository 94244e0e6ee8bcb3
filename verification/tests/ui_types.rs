use component_ui::{ComponentName, ComponentUiTypes, HandlerTable, UiCapability};

#[test]
fn ui_types_start_empty() {
    let types = ComponentUiTypes::empty();
    assert!(types.is_empty());
    assert_eq!(types.bits(), 0);
    assert!(!types.contains(UiCapability::Display));
    assert!(!types.contains(UiCapability::SingleLineEditor));
    assert!(!types.contains(UiCapability::MultiLineEditor));
}

#[test]
fn ui_types_bits_are_one_two_and_four() {
    assert_eq!(ComponentUiTypes::only(UiCapability::Display).bits(), 1);
    assert_eq!(ComponentUiTypes::only(UiCapability::SingleLineEditor).bits(), 2);
    assert_eq!(ComponentUiTypes::only(UiCapability::MultiLineEditor).bits(), 4);
}

#[test]
fn ui_types_union_and_insert() {
    let display = ComponentUiTypes::only(UiCapability::Display);
    let multi = ComponentUiTypes::only(UiCapability::MultiLineEditor);
    let both = display.union(multi);
    assert_eq!(both.bits(), 5);
    assert!(both.contains(UiCapability::Display));
    assert!(both.contains(UiCapability::MultiLineEditor));
    assert!(!both.contains(UiCapability::SingleLineEditor));
    assert_eq!(both.union(both), both);
    let mut types = ComponentUiTypes::empty();
    types.insert(display);
    types.insert(ComponentUiTypes::only(UiCapability::SingleLineEditor));
    types.insert(display);
    assert_eq!(types.bits(), 3);
    assert!(!types.is_empty());
}

#[test]
fn component_names_match_exactly() {
    let color = ComponentName::new("viewer.components.Color");
    assert_eq!(color.as_str(), "viewer.components.Color");
    assert!(color.same_as(&ComponentName::new("viewer.components.Color")));
    assert!(color.same_as(&color.clone()));
    assert!(!color.same_as(&ComponentName::new("Color")));
    assert!(!color.same_as(&ComponentName::new("viewer.components.color")));
    assert!(!color.same_as(&ComponentName::new("viewer.components.Color ")));
    assert!(!color.same_as(&ComponentName::new("")));
}

#[test]
fn handler_table_overwrites_on_second_registration() {
    let mut table: HandlerTable<u32> = HandlerTable::new();
    assert_eq!(table.len(), 0);
    assert!(table.get(&ComponentName::new("A")).is_none());
    table.insert(ComponentName::new("A"), 1);
    table.insert(ComponentName::new("B"), 2);
    assert_eq!(table.len(), 2);
    assert_eq!(table.get(&ComponentName::new("A")), Some(&1));
    assert_eq!(table.get(&ComponentName::new("B")), Some(&2));
    table.insert(ComponentName::new("A"), 3);
    assert_eq!(table.len(), 2);
    assert_eq!(table.get(&ComponentName::new("A")), Some(&3));
    assert_eq!(table.get(&ComponentName::new("B")), Some(&2));
    assert!(table.contains_key(&ComponentName::new("A")));
    assert!(!table.contains_key(&ComponentName::new("a")));
    assert!(!table.contains_key(&ComponentName::new("AB")));
}
