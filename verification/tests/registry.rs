use std::cell::RefCell;
use std::rc::Rc;

use arrow::array::{make_array, Array, UInt32Array};
use component_ui::{
    typed_edit_or_view, ComponentName, ComponentUiRegistry, EditOrView, Instance, MaybeMutRef,
    RawValue, TypedOutcome, UiCapability, UiIssue, UiLayout, UiRoute,
};

type Ui = Vec<String>;
type Legacy =
    Box<dyn Fn(&(), &mut Ui, UiLayout, &(), &ComponentName, Option<u64>, &RawValue)>;
type Editor = Box<dyn Fn(&(), &mut Ui, &RawValue, EditOrView) -> TypedOutcome>;
type Registry = ComponentUiRegistry<Legacy, Editor>;

fn raw(values: Vec<u32>) -> RawValue {
    RawValue::new(UInt32Array::from(values).into_data())
}

fn values_of(value: &RawValue) -> Vec<u32> {
    let array = make_array(value.data().clone());
    let typed = array.as_any().downcast_ref::<UInt32Array>().unwrap();
    typed.values().to_vec()
}

fn display(label: &'static str) -> Legacy {
    Box::new(move |_ctx, ui, _layout, _src, _name, cache_key, value| {
        ui.push(format!("{label} {:?} key={:?}", values_of(value), cache_key));
    })
}

fn editor(label: &'static str, new_value: Option<u32>) -> Editor {
    Box::new(move |_ctx, ui, value, mode| {
        ui.push(format!("{label} {:?} {:?}", values_of(value), mode));
        match (mode, new_value) {
            (EditOrView::Edit, Some(v)) => TypedOutcome::changed(raw(vec![v])),
            _ => TypedOutcome::unchanged(),
        }
    })
}

fn registry() -> Registry {
    ComponentUiRegistry::new(display("fallback"))
}

#[test]
fn unregistered_component_is_shown_by_the_fallback() {
    let registry = registry();
    let temp = ComponentName::new("Temp");
    let mut ui = Ui::new();
    let route = registry.ui_raw(&(), &mut ui, UiLayout::List, &(), &temp, Some(7), &raw(vec![5]));
    assert_eq!(route, UiRoute::Fallback);
    assert_eq!(ui, vec!["fallback [5] key=Some(7)".to_string()]);
    let types = registry.registered_ui_types(&temp);
    assert!(types.is_empty());
    assert_eq!(types.bits(), 0);
    assert!(!types.contains(UiCapability::Display));
}

#[test]
fn unregistered_component_edit_degrades_to_the_fallback() {
    let registry = registry();
    let temp = ComponentName::new("Temp");
    let mut ui = Ui::new();
    let outcome =
        registry.edit_ui_raw(&(), &mut ui, &(), "path", &temp, None, &raw(vec![5]), true);
    assert_eq!(outcome.route, UiRoute::Fallback);
    assert!(outcome.commit.is_none());
    assert_eq!(ui, vec!["fallback [5] key=None".to_string()]);
    let mut ui = Ui::new();
    let shown = registry.try_show_edit_ui(&(), &mut ui, &raw(vec![5]), "path", &temp, true);
    assert!(shown.is_none());
    assert!(ui.is_empty());
}

#[test]
fn legacy_display_wins_over_the_singleline_viewer() {
    let mut registry = registry();
    let status = ComponentName::new("Status");
    registry.add_legacy_display_ui(status.clone(), display("legacy"));
    registry.add_singleline_edit_or_view(status.clone(), editor("single", None));
    for layout in [UiLayout::List, UiLayout::Tooltip, UiLayout::SelectionPanel] {
        let mut ui = Ui::new();
        let route = registry.ui_raw(&(), &mut ui, layout, &(), &status, None, &raw(vec![1]));
        assert_eq!(route, UiRoute::LegacyDisplay);
        assert_eq!(ui, vec!["legacy [1] key=None".to_string()]);
    }
    let types = registry.registered_ui_types(&status);
    assert!(types.contains(UiCapability::Display));
    assert!(types.contains(UiCapability::SingleLineEditor));
    assert!(!types.contains(UiCapability::MultiLineEditor));
    assert_eq!(types.bits(), 0b011);
}

#[test]
fn selected_instance_alone_reaches_the_typed_callback() {
    let mut registry = registry();
    let color = ComponentName::new("Color");
    let seen: Rc<RefCell<Vec<u32>>> = Rc::new(RefCell::new(Vec::new()));
    let seen_by_callback = seen.clone();
    let handler = typed_edit_or_view(
        move |_ctx: &(), _ui: &mut Ui, value: &mut MaybeMutRef<'_, u32>| match value {
            MaybeMutRef::Ref(v) => {
                seen_by_callback.borrow_mut().push(**v);
                false
            }
            MaybeMutRef::MutRef(v) => {
                seen_by_callback.borrow_mut().push(**v);
                **v = 99;
                true
            }
        },
        |value: &RawValue| -> Result<Vec<u32>, String> { Ok(values_of(value)) },
        |value: &u32| -> Result<RawValue, String> { Ok(raw(vec![*value])) },
    );
    registry.add_singleline_edit_or_view(color.clone(), Box::new(handler));

    let batch = raw(vec![10, 20, 30]);
    let mut ui = Ui::new();
    let route = registry.ui(
        &(),
        &mut ui,
        UiLayout::List,
        &(),
        &color,
        Some(1),
        Some(&batch),
        &Instance::new(1),
    );
    assert_eq!(route, Some(UiRoute::SinglelineView));
    assert_eq!(*seen.borrow(), vec![20]);

    let element = component_ui::select_element(&batch, Instance::new(1)).unwrap();
    assert_eq!(element.len(), 1);
    let outcome = registry.edit_ui_raw(&(), &mut ui, &(), "write/path", &color, None, &element, false);
    assert_eq!(outcome.route, UiRoute::SinglelineEdit);
    assert_eq!(*seen.borrow(), vec![20, 20]);
    let commit = outcome.commit.unwrap();
    assert_eq!(commit.component_name.as_str(), "Color");
    assert_eq!(commit.write_path, "write/path");
    assert_eq!(commit.value.len(), 1);
    assert_eq!(values_of(&commit.value), vec![99]);
}

#[test]
fn empty_batch_is_shown_by_the_fallback() {
    let mut registry = registry();
    let color = ComponentName::new("Color");
    registry.add_legacy_display_ui(color.clone(), display("legacy"));
    registry.add_singleline_edit_or_view(color.clone(), editor("single", Some(1)));
    registry.add_multiline_edit_or_view(color.clone(), editor("multi", Some(1)));
    let empty = raw(vec![]);
    let mut ui = Ui::new();
    let route = registry.ui_raw(&(), &mut ui, UiLayout::SelectionPanel, &(), &color, None, &empty);
    assert_eq!(route, UiRoute::Fallback);
    for instance in [Instance::new(0), Instance::new(3), Instance::all()] {
        let route = registry.ui(
            &(),
            &mut ui,
            UiLayout::SelectionPanel,
            &(),
            &color,
            Some(4),
            Some(&empty),
            &instance,
        );
        assert_eq!(route, Some(UiRoute::Fallback));
    }
    assert_eq!(ui.len(), 4);
    assert!(ui.iter().all(|line| line == "fallback [] key=None"));
    let outcome = registry.edit_ui_raw(&(), &mut ui, &(), (), &color, None, &empty, true);
    assert_eq!(outcome.route, UiRoute::Fallback);
    assert!(outcome.commit.is_none());
}

#[test]
fn all_instances_of_many_go_whole_to_the_fallback() {
    let mut registry = registry();
    let color = ComponentName::new("Color");
    registry.add_legacy_display_ui(color.clone(), display("legacy"));
    registry.add_singleline_edit_or_view(color.clone(), editor("single", None));
    let batch = raw(vec![1, 2, 3]);
    let mut ui = Ui::new();
    let route = registry.ui(
        &(),
        &mut ui,
        UiLayout::List,
        &(),
        &color,
        Some(11),
        Some(&batch),
        &Instance::all(),
    );
    assert_eq!(route, Some(UiRoute::Fallback));
    assert_eq!(ui, vec!["fallback [1, 2, 3] key=None".to_string()]);
}

#[test]
fn all_instances_of_one_is_that_one() {
    let mut registry = registry();
    let color = ComponentName::new("Color");
    registry.add_legacy_display_ui(color.clone(), display("legacy"));
    let mut ui = Ui::new();
    let route = registry.ui(
        &(),
        &mut ui,
        UiLayout::List,
        &(),
        &color,
        Some(11),
        Some(&raw(vec![8])),
        &Instance::all(),
    );
    assert_eq!(route, Some(UiRoute::LegacyDisplay));
    assert_eq!(ui, vec!["legacy [8] key=Some(11)".to_string()]);
}

#[test]
fn missing_batch_shows_nothing() {
    let registry = registry();
    let mut ui = Ui::new();
    let route = registry.ui(
        &(),
        &mut ui,
        UiLayout::List,
        &(),
        &ComponentName::new("Color"),
        None,
        None,
        &Instance::new(0),
    );
    assert_eq!(route, None);
    assert!(ui.is_empty());
}

#[test]
fn index_beyond_the_batch_shows_the_last_instance() {
    let mut registry = registry();
    let color = ComponentName::new("Color");
    registry.add_legacy_display_ui(color.clone(), display("legacy"));
    let batch = raw(vec![10, 20, 30]);
    let mut ui = Ui::new();
    for index in [2, 3, 4, 1000] {
        let route = registry.ui(
            &(),
            &mut ui,
            UiLayout::List,
            &(),
            &color,
            None,
            Some(&batch),
            &Instance::new(index),
        );
        assert_eq!(route, Some(UiRoute::LegacyDisplay));
    }
    assert_eq!(ui.len(), 4);
    assert!(ui.iter().all(|line| line == "legacy [30] key=None"));
}

#[test]
fn display_precedence_for_a_batch_of_one() {
    let name = ComponentName::new("Position");
    let one = raw(vec![1]);
    let layouts = [UiLayout::List, UiLayout::Tooltip, UiLayout::SelectionPanel];

    let mut both = registry();
    both.add_singleline_edit_or_view(name.clone(), editor("single", Some(2)));
    both.add_multiline_edit_or_view(name.clone(), editor("multi", Some(3)));
    let expected = [UiRoute::SinglelineView, UiRoute::SinglelineView, UiRoute::MultilineView];
    let lines = ["single [1] View", "single [1] View", "multi [1] View"];
    for i in 0..3 {
        let mut ui = Ui::new();
        let route = both.ui_raw(&(), &mut ui, layouts[i], &(), &name, None, &one);
        assert_eq!(route, expected[i]);
        assert_eq!(ui, vec![lines[i].to_string()]);
    }

    let mut only_multi = registry();
    only_multi.add_multiline_edit_or_view(name.clone(), editor("multi", Some(3)));
    let expected = [UiRoute::Fallback, UiRoute::Fallback, UiRoute::MultilineView];
    for i in 0..3 {
        let mut ui = Ui::new();
        let route = only_multi.ui_raw(&(), &mut ui, layouts[i], &(), &name, None, &one);
        assert_eq!(route, expected[i]);
    }

    let mut only_single = registry();
    only_single.add_singleline_edit_or_view(name.clone(), editor("single", Some(2)));
    for layout in layouts {
        let mut ui = Ui::new();
        let route = only_single.ui_raw(&(), &mut ui, layout, &(), &name, None, &one);
        assert_eq!(route, UiRoute::SinglelineView);
    }

    both.add_legacy_display_ui(name.clone(), display("legacy"));
    for layout in layouts {
        let mut ui = Ui::new();
        let route = both.ui_raw(&(), &mut ui, layout, &(), &name, None, &one);
        assert_eq!(route, UiRoute::LegacyDisplay);
    }
}

#[test]
fn display_calls_never_commit_however_often_repeated() {
    let mut registry = registry();
    let name = ComponentName::new("Radius");
    registry.add_singleline_edit_or_view(name.clone(), editor("single", Some(5)));
    let mut ui = Ui::new();
    for _ in 0..3 {
        let route = registry.ui_raw(&(), &mut ui, UiLayout::List, &(), &name, None, &raw(vec![4]));
        assert_eq!(route, UiRoute::SinglelineView);
        assert!(!route.is_edit());
    }
    assert_eq!(ui, vec!["single [4] View".to_string(); 3]);
}

#[test]
fn edit_commits_what_the_editor_returns() {
    let mut registry = registry();
    let name = ComponentName::new("Radius");
    registry.add_singleline_edit_or_view(name.clone(), editor("single", Some(5)));
    let mut ui = Ui::new();
    let shown = registry
        .try_show_edit_ui(&(), &mut ui, &raw(vec![4]), 77u32, &name, false)
        .unwrap();
    assert_eq!(shown.route, UiRoute::SinglelineEdit);
    assert!(shown.route.is_edit());
    let commit = shown.commit.unwrap();
    assert_eq!(commit.write_path, 77);
    assert_eq!(commit.component_name.as_str(), "Radius");
    assert_eq!(values_of(&commit.value), vec![5]);
    assert_eq!(ui, vec!["single [4] Edit".to_string()]);
}

#[test]
fn edit_without_a_change_commits_nothing() {
    let mut registry = registry();
    let name = ComponentName::new("Radius");
    registry.add_singleline_edit_or_view(name.clone(), editor("single", None));
    let mut ui = Ui::new();
    let outcome = registry.edit_ui_raw(&(), &mut ui, &(), 77u32, &name, None, &raw(vec![4]), true);
    assert_eq!(outcome.route, UiRoute::SinglelineEdit);
    assert!(outcome.commit.is_none());
    assert_eq!(ui, vec!["single [4] Edit".to_string()]);
}

#[test]
fn edit_commits_an_unchanged_value_that_the_editor_reports() {
    let mut registry = registry();
    let name = ComponentName::new("Radius");
    registry.add_singleline_edit_or_view(name.clone(), editor("single", Some(4)));
    let mut ui = Ui::new();
    let outcome = registry.edit_ui_raw(&(), &mut ui, &(), (), &name, None, &raw(vec![4]), false);
    assert_eq!(values_of(&outcome.commit.unwrap().value), vec![4]);
}

#[test]
fn edit_prefers_the_multiline_editor_where_allowed() {
    let mut registry = registry();
    let name = ComponentName::new("Text");
    registry.add_singleline_edit_or_view(name.clone(), editor("single", Some(1)));
    registry.add_multiline_edit_or_view(name.clone(), editor("multi", Some(2)));
    let mut ui = Ui::new();
    let outcome = registry.edit_ui_raw(&(), &mut ui, &(), (), &name, None, &raw(vec![0]), true);
    assert_eq!(outcome.route, UiRoute::MultilineEdit);
    assert_eq!(values_of(&outcome.commit.unwrap().value), vec![2]);
    let outcome = registry.edit_ui_raw(&(), &mut ui, &(), (), &name, None, &raw(vec![0]), false);
    assert_eq!(outcome.route, UiRoute::SinglelineEdit);
    assert_eq!(values_of(&outcome.commit.unwrap().value), vec![1]);
    assert_eq!(ui, vec!["multi [0] Edit".to_string(), "single [0] Edit".to_string()]);
}

#[test]
fn edit_never_uses_the_multiline_editor_where_not_allowed() {
    let mut registry = registry();
    let name = ComponentName::new("Text");
    registry.add_multiline_edit_or_view(name.clone(), editor("multi", Some(2)));
    let mut ui = Ui::new();
    let shown = registry.try_show_edit_ui(&(), &mut ui, &raw(vec![0]), (), &name, false);
    assert!(shown.is_none());
    let outcome = registry.edit_ui_raw(&(), &mut ui, &(), (), &name, Some(3), &raw(vec![0]), false);
    assert_eq!(outcome.route, UiRoute::Fallback);
    assert!(outcome.commit.is_none());
    assert_eq!(ui, vec!["fallback [0] key=Some(3)".to_string()]);
}

#[test]
fn edit_never_edits_through_a_display_handler() {
    let mut registry = registry();
    let name = ComponentName::new("Status");
    registry.add_legacy_display_ui(name.clone(), display("legacy"));
    let mut ui = Ui::new();
    let shown = registry.try_show_edit_ui(&(), &mut ui, &raw(vec![0]), (), &name, true);
    assert!(shown.is_none());
    assert!(ui.is_empty());
    let outcome = registry.edit_ui_raw(&(), &mut ui, &(), (), &name, None, &raw(vec![0]), true);
    assert_eq!(outcome.route, UiRoute::LegacyDisplay);
    assert!(outcome.commit.is_none());
    assert_eq!(ui, vec!["legacy [0] key=None".to_string()]);
}

#[test]
fn edit_of_several_instances_shows_them_read_only() {
    let mut registry = registry();
    let name = ComponentName::new("Radius");
    registry.add_singleline_edit_or_view(name.clone(), editor("single", Some(5)));
    let mut ui = Ui::new();
    let outcome = registry.edit_ui_raw(&(), &mut ui, &(), (), &name, None, &raw(vec![1, 2]), true);
    assert_eq!(outcome.route, UiRoute::Fallback);
    assert!(outcome.commit.is_none());
    assert_eq!(ui, vec!["fallback [1, 2] key=None".to_string()]);
}

#[test]
fn edit_starts_from_the_fallback_value_without_stored_data() {
    let mut registry = registry();
    let name = ComponentName::new("Radius");
    registry.add_singleline_edit_or_view(name.clone(), editor("single", None));
    registry.add_multiline_edit_or_view(name.clone(), editor("multi", None));
    let provider = |_ctx: &(), _src: &(), name: &ComponentName| -> RawValue {
        assert_eq!(name.as_str(), "Radius");
        raw(vec![42])
    };
    let mut ui = Ui::new();
    let outcome =
        registry.singleline_edit_ui(&(), &mut ui, &(), (), &name, None, None, &provider);
    assert_eq!(outcome.route, UiRoute::SinglelineEdit);
    let empty = raw(vec![]);
    let outcome =
        registry.multiline_edit_ui(&(), &mut ui, &(), (), &name, None, Some(&empty), &provider);
    assert_eq!(outcome.route, UiRoute::MultilineEdit);
    let stored = raw(vec![7]);
    let outcome =
        registry.singleline_edit_ui(&(), &mut ui, &(), (), &name, None, Some(&stored), &provider);
    assert_eq!(outcome.route, UiRoute::SinglelineEdit);
    assert_eq!(
        ui,
        vec![
            "single [42] Edit".to_string(),
            "multi [42] Edit".to_string(),
            "single [7] Edit".to_string(),
        ]
    );
}

#[test]
fn last_registration_wins() {
    let mut registry = registry();
    let name = ComponentName::new("Radius");
    registry.add_singleline_edit_or_view(name.clone(), editor("first", Some(1)));
    registry.add_singleline_edit_or_view(name.clone(), editor("second", Some(2)));
    registry.add_legacy_display_ui(ComponentName::new("Other"), display("old"));
    registry.add_legacy_display_ui(ComponentName::new("Other"), display("new"));
    let mut ui = Ui::new();
    let outcome = registry.edit_ui_raw(&(), &mut ui, &(), (), &name, None, &raw(vec![0]), true);
    assert_eq!(values_of(&outcome.commit.unwrap().value), vec![2]);
    registry.ui_raw(
        &(),
        &mut ui,
        UiLayout::List,
        &(),
        &ComponentName::new("Other"),
        None,
        &raw(vec![0]),
    );
    assert_eq!(ui, vec!["second [0] Edit".to_string(), "new [0] key=None".to_string()]);
}

#[test]
fn capabilities_follow_the_registrations() {
    let mut registry = registry();
    let name = ComponentName::new("Radius");
    assert_eq!(registry.registered_ui_types(&name).bits(), 0);
    registry.add_multiline_edit_or_view(name.clone(), editor("multi", None));
    let types = registry.registered_ui_types(&name);
    assert_eq!(types.bits(), 0b101);
    registry.add_singleline_edit_or_view(name.clone(), editor("single", None));
    assert_eq!(registry.registered_ui_types(&name).bits(), 0b111);
    let legacy_only = ComponentName::new("Legacy");
    registry.add_legacy_display_ui(legacy_only.clone(), display("legacy"));
    let types = registry.registered_ui_types(&legacy_only);
    assert_eq!(types.bits(), 0b001);
    assert!(types.contains(UiCapability::Display));
    assert_eq!(registry.registered_ui_types(&ComponentName::new("radius")).bits(), 0);
}

#[test]
fn fallback_can_show_the_name_and_the_count() {
    let fallback: Legacy = Box::new(|_ctx, ui, _layout, _src, name, _cache_key, value| {
        ui.push(format!("{}: {} values", name.as_str(), value.len()));
    });
    let registry: Registry = ComponentUiRegistry::new(fallback);
    let mut ui = Ui::new();
    let temp = ComponentName::new("Temp");
    registry.ui(
        &(),
        &mut ui,
        UiLayout::Tooltip,
        &(),
        &temp,
        None,
        Some(&raw(vec![1, 2, 3])),
        &Instance::all(),
    );
    registry.ui_raw(&(), &mut ui, UiLayout::List, &(), &temp, None, &raw(vec![]));
    registry.edit_ui_raw(&(), &mut ui, &(), (), &temp, None, &raw(vec![4]), true);
    assert_eq!(
        ui,
        vec![
            "Temp: 3 values".to_string(),
            "Temp: 0 values".to_string(),
            "Temp: 1 values".to_string(),
        ]
    );
}

fn typed(label: &'static str, new_value: u32) -> Editor {
    Box::new(typed_edit_or_view(
        move |_ctx: &(), ui: &mut Ui, value: &mut MaybeMutRef<'_, u32>| match value {
            MaybeMutRef::Ref(v) => {
                ui.push(format!("{label} view {v}"));
                false
            }
            MaybeMutRef::MutRef(v) => {
                ui.push(format!("{label} edit {v}"));
                **v = new_value;
                true
            }
        },
        |value: &RawValue| -> Result<Vec<u32>, String> {
            let values = values_of(value);
            if values.contains(&666) {
                Err("cannot decode".to_string())
            } else if values.contains(&0) {
                Ok(vec![])
            } else {
                Ok(values)
            }
        },
        |value: &u32| -> Result<RawValue, String> {
            if *value == 13 {
                Err("cannot encode".to_string())
            } else {
                Ok(raw(vec![*value]))
            }
        },
    ))
}

#[test]
fn undecodable_value_is_shown_by_the_fallback() {
    let mut registry = registry();
    let name = ComponentName::new("Color");
    registry.add_singleline_edit_or_view(name.clone(), typed("single", 9));
    registry.add_multiline_edit_or_view(name.clone(), typed("multi", 9));
    for layout in [UiLayout::List, UiLayout::Tooltip, UiLayout::SelectionPanel] {
        let mut ui = Ui::new();
        let route = registry.ui_raw(&(), &mut ui, layout, &(), &name, Some(2), &raw(vec![666]));
        assert_eq!(route, UiRoute::Fallback);
        assert_eq!(ui, vec!["fallback [666] key=Some(2)".to_string()]);
    }
    let mut ui = Ui::new();
    let route = registry.ui(
        &(),
        &mut ui,
        UiLayout::SelectionPanel,
        &(),
        &name,
        None,
        Some(&raw(vec![5, 666, 7])),
        &Instance::new(1),
    );
    assert_eq!(route, Some(UiRoute::Fallback));
    assert_eq!(ui, vec!["fallback [666] key=None".to_string()]);
    let mut ui = Ui::new();
    let route = registry.ui_raw(&(), &mut ui, UiLayout::List, &(), &name, None, &raw(vec![5]));
    assert_eq!(route, UiRoute::SinglelineView);
    assert_eq!(ui, vec!["single view 5".to_string()]);
}

#[test]
fn value_without_an_instance_to_decode_is_shown_by_the_fallback() {
    let mut registry = registry();
    let name = ComponentName::new("Color");
    registry.add_singleline_edit_or_view(name.clone(), typed("single", 9));
    let mut ui = Ui::new();
    let route = registry.ui_raw(&(), &mut ui, UiLayout::List, &(), &name, None, &raw(vec![0]));
    assert_eq!(route, UiRoute::Fallback);
    assert_eq!(ui, vec!["fallback [0] key=None".to_string()]);
}

#[test]
fn undecodable_value_edit_degrades_to_the_display_path() {
    let mut registry = registry();
    let name = ComponentName::new("Color");
    registry.add_singleline_edit_or_view(name.clone(), typed("single", 9));
    let mut ui = Ui::new();
    let shown = registry.try_show_edit_ui(&(), &mut ui, &raw(vec![666]), (), &name, true);
    assert!(shown.is_none());
    assert!(ui.is_empty());
    let outcome = registry.edit_ui_raw(&(), &mut ui, &(), (), &name, None, &raw(vec![666]), true);
    assert_eq!(outcome.route, UiRoute::Fallback);
    assert!(outcome.commit.is_none());
    assert_eq!(ui, vec!["fallback [666] key=None".to_string()]);

    registry.add_legacy_display_ui(name.clone(), display("legacy"));
    let mut ui = Ui::new();
    let outcome = registry.edit_ui_raw(&(), &mut ui, &(), (), &name, None, &raw(vec![666]), false);
    assert_eq!(outcome.route, UiRoute::LegacyDisplay);
    assert!(outcome.commit.is_none());
    assert_eq!(ui, vec!["legacy [666] key=None".to_string()]);
}

#[test]
fn declined_multiline_edit_is_shown_by_the_singleline_viewer() {
    let mut registry = registry();
    let name = ComponentName::new("Color");
    registry.add_multiline_edit_or_view(
        name.clone(),
        Box::new(|_ctx, ui, _value, _mode| {
            ui.push("multi declines".to_string());
            TypedOutcome { produced: None, issue: Some(UiIssue::DeserializationFailure) }
        }),
    );
    registry.add_singleline_edit_or_view(name.clone(), editor("single", Some(3)));
    let mut ui = Ui::new();
    let outcome = registry.edit_ui_raw(&(), &mut ui, &(), (), &name, None, &raw(vec![1]), true);
    assert_eq!(outcome.route, UiRoute::SinglelineView);
    assert!(outcome.commit.is_none());
    assert_eq!(ui, vec!["multi declines".to_string(), "single [1] View".to_string()]);
    let mut ui = Ui::new();
    let route = registry.ui_raw(&(), &mut ui, UiLayout::SelectionPanel, &(), &name, None, &raw(vec![1]));
    assert_eq!(route, UiRoute::Fallback);
    assert_eq!(ui, vec!["multi declines".to_string(), "fallback [1] key=None".to_string()]);
}

#[test]
fn failed_encoding_is_shown_by_the_editor_and_commits_nothing() {
    let mut registry = registry();
    let name = ComponentName::new("Color");
    registry.add_singleline_edit_or_view(name.clone(), typed("single", 13));
    let mut ui = Ui::new();
    let outcome = registry.edit_ui_raw(&(), &mut ui, &(), (), &name, None, &raw(vec![4]), false);
    assert_eq!(outcome.route, UiRoute::SinglelineEdit);
    assert!(outcome.commit.is_none());
    assert_eq!(ui, vec!["single edit 4".to_string()]);
}

#[test]
fn typed_handler_commits_the_edited_value() {
    let mut registry = registry();
    let name = ComponentName::new("Color");
    registry.add_multiline_edit_or_view(name.clone(), typed("multi", 9));
    let mut ui = Ui::new();
    let outcome = registry.edit_ui_raw(&(), &mut ui, &(), 3u8, &name, None, &raw(vec![4]), true);
    assert_eq!(outcome.route, UiRoute::MultilineEdit);
    let commit = outcome.commit.unwrap();
    assert_eq!(commit.write_path, 3);
    assert_eq!(commit.component_name.as_str(), "Color");
    assert_eq!(values_of(&commit.value), vec![9]);
    assert_eq!(ui, vec!["multi edit 4".to_string()]);
}
