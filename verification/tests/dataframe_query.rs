use component_ui::dataframe_query::{component_name_matches, TIME_MAX, TIME_MIN};
use component_ui::{
    BlueprintWrite, ColumnDescriptor, ColumnSelector, ComponentColumnSelector, FilterIsNotNull,
    HideColumnAction, Query, QueryProperties, SelectedColumns, TimeRange,
};

fn unset() -> QueryProperties {
    Query::unset().into_properties()
}

fn time(timeline: &str) -> ColumnSelector {
    ColumnSelector::Time { timeline: timeline.to_string() }
}

fn component(entity_path: &str, component_name: &str) -> ColumnSelector {
    ColumnSelector::Component(selector(entity_path, component_name))
}

fn selector(entity_path: &str, component_name: &str) -> ComponentColumnSelector {
    ComponentColumnSelector {
        entity_path: entity_path.to_string(),
        component_name: component_name.to_string(),
    }
}

fn time_column(timeline: &str) -> ColumnDescriptor {
    ColumnDescriptor::Time { timeline: timeline.to_string() }
}

fn component_column(entity_path: &str, full_name: &str, short_name: &str) -> ColumnDescriptor {
    ColumnDescriptor::Component {
        entity_path: entity_path.to_string(),
        full_name: full_name.to_string(),
        short_name: short_name.to_string(),
    }
}

fn saved(write: BlueprintWrite) -> (Vec<String>, Vec<(String, String)>) {
    match write {
        BlueprintWrite::SaveSelectedColumns(columns) => (
            columns.time_columns,
            columns
                .component_columns
                .into_iter()
                .map(|c| (c.entity_path, c.component_name))
                .collect(),
        ),
        other => panic!("not a selection: {other:?}"),
    }
}

fn pair(entity_path: &str, component_name: &str) -> (String, String) {
    (entity_path.to_string(), component_name.to_string())
}

#[test]
fn test_latest_at_enabled() {
    let mut store = unset();

    {
        let mut query = Query::from_blueprint(store);
        let write = Query::save_latest_at_enabled(true);
        query.apply(write);
        store = query.into_properties();
    }

    {
        let query = Query::from_blueprint(store);
        assert!(query.latest_at_enabled());
    }
}

#[test]
fn latest_at_is_off_unless_stored_as_true() {
    assert!(!Query::unset().latest_at_enabled());
    let mut query = Query::unset();
    query.apply(Query::save_latest_at_enabled(false));
    assert!(!query.latest_at_enabled());
    query.apply(Query::save_latest_at_enabled(true));
    assert!(query.latest_at_enabled());
}

#[test]
fn timeline_name_is_frozen_to_the_current_timeline() {
    let query = Query::unset();
    let (name, writes) = query.timeline_name("log_time");
    assert_eq!(name, "log_time");
    assert_eq!(writes.len(), 2);
    assert!(matches!(&writes[0], BlueprintWrite::SaveTimelineName(n) if n == "log_time"));
    assert!(matches!(&writes[1], BlueprintWrite::ClearFilterByRange));

    let mut query = Query::unset();
    query.apply(Query::save_filter_by_range(TimeRange { min: 1, max: 2 }));
    for write in writes {
        query.apply(write);
    }
    let (name, writes) = query.timeline_name("frame");
    assert_eq!(name, "log_time");
    assert!(writes.is_empty());
    assert_eq!(query.filter_by_range(), TimeRange::everything());
}

#[test]
fn filter_by_range_defaults_to_everything() {
    assert_eq!(Query::unset().filter_by_range(), TimeRange { min: TIME_MIN, max: TIME_MAX });
    assert_eq!(TIME_MIN, i64::MIN + 1);
    assert_eq!(TIME_MAX, i64::MAX);
    assert!(TimeRange::everything().is_everything());
    assert!(!TimeRange { min: TIME_MIN, max: 0 }.is_everything());
    assert!(!TimeRange { min: 0, max: TIME_MAX }.is_everything());
}

#[test]
fn filter_by_range_round_trip() {
    let range = TimeRange { min: -5, max: 300 };
    let write = Query::save_filter_by_range(range);
    assert!(matches!(write, BlueprintWrite::SaveFilterByRange(r) if r == range));
    let mut query = Query::unset();
    query.apply(write);
    assert_eq!(query.filter_by_range(), range);
    let write = Query::save_filter_by_range(TimeRange::everything());
    assert!(matches!(write, BlueprintWrite::ClearFilterByRange));
    query.apply(write);
    assert_eq!(query.filter_by_range(), TimeRange::everything());
    assert!(query.into_properties().filter_by_range.is_none());
}

#[test]
fn filter_is_not_null_only_where_active() {
    assert!(Query::unset().filter_is_not_null().is_none());
    assert!(Query::unset().filter_is_not_null_raw().is_none());
    let filter = FilterIsNotNull { active: false, column: selector("/world", "Position3D") };
    let mut query = Query::unset();
    query.apply(Query::save_filter_is_not_null(&filter));
    assert!(query.filter_is_not_null().is_none());
    let raw = query.filter_is_not_null_raw().unwrap();
    assert!(!raw.active);
    assert_eq!(raw.column.entity_path, "/world");
    let filter = FilterIsNotNull { active: true, column: selector("/world", "Position3D") };
    query.apply(Query::save_filter_is_not_null(&filter));
    let column = query.filter_is_not_null().unwrap();
    assert_eq!(column.entity_path, "/world");
    assert_eq!(column.component_name, "Position3D");
}

#[test]
fn selected_columns_are_stored_by_kind_in_order() {
    let columns = vec![
        component("/a", "Color"),
        time("frame"),
        component("/b", "Radius"),
        time("log_time"),
    ];
    let (times, components) = saved(Query::save_selected_columns(&columns));
    assert_eq!(times, vec!["frame".to_string(), "log_time".to_string()]);
    assert_eq!(components, vec![pair("/a", "Color"), pair("/b", "Radius")]);
    let (times, components) = saved(Query::save_selected_columns(&vec![]));
    assert!(times.is_empty());
    assert!(components.is_empty());
}

#[test]
fn all_columns_selected_or_unselected() {
    assert!(matches!(Query::save_all_columns_selected(), BlueprintWrite::ClearSelectedColumns));
    let (times, components) = saved(Query::save_all_columns_unselected());
    assert!(times.is_empty());
    assert!(components.is_empty());
    let mut query = Query::unset();
    query.apply(Query::save_all_columns_unselected());
    assert_eq!(
        query.apply_column_visibility_to_view_columns("frame", &vec![time_column("log_time")]),
        Some(vec![])
    );
    query.apply(Query::save_all_columns_selected());
    assert_eq!(
        query.apply_column_visibility_to_view_columns("frame", &vec![time_column("log_time")]),
        None
    );
}

#[test]
fn column_visibility_follows_the_selection() {
    let view_columns = vec![
        time_column("frame"),
        time_column("log_time"),
        time_column("other"),
        component_column("/a", "viewer.components.Color", "Color"),
        component_column("/a", "viewer.components.Radius", "Radius"),
        component_column("/b", "viewer.components.Color", "Color"),
        component_column("/b", "viewer.components.Radius", "Radius"),
    ];
    assert_eq!(
        Query::unset().apply_column_visibility_to_view_columns("frame", &view_columns),
        None
    );
    let mut query = Query::unset();
    query.apply(BlueprintWrite::SaveSelectedColumns(SelectedColumns {
        time_columns: vec!["log_time".to_string(), "missing".to_string()],
        component_columns: vec![
            selector("/b", "Radius"),
            selector("/a", "viewer.components.Color"),
            selector("/a", "radius"),
            selector("/c", "Color"),
        ],
    }));
    assert_eq!(
        query.apply_column_visibility_to_view_columns("frame", &view_columns),
        Some(vec![0, 1, 3, 6])
    );
    assert_eq!(
        query.apply_column_visibility_to_view_columns("other", &view_columns),
        Some(vec![1, 2, 3, 6])
    );
    assert_eq!(query.apply_column_visibility_to_view_columns("frame", &vec![]), Some(vec![]));
}

#[test]
fn component_names_match_without_regard_to_case() {
    let full = "viewer.components.Color".to_string();
    let short = "Color".to_string();
    assert!(component_name_matches(&full, &short, &"viewer.components.Color".to_string()));
    assert!(component_name_matches(&full, &short, &"Color".to_string()));
    assert!(component_name_matches(&full, &short, &"color".to_string()));
    assert!(component_name_matches(&full, &short, &"COLOR".to_string()));
    assert!(component_name_matches(&full, &short, &"VIEWER.components.color".to_string()));
    assert!(!component_name_matches(&full, &short, &"Colour".to_string()));
    assert!(!component_name_matches(&full, &short, &"components.Color".to_string()));
    assert!(!component_name_matches(&full, &short, &"".to_string()));
}

#[test]
fn hide_actions_remove_the_hidden_columns() {
    let selected = vec![
        time("frame"),
        component("/a", "Color"),
        time("log_time"),
        component("/a", "Radius"),
        component("/b", "color"),
    ];
    assert!(Query::handle_hide_column_actions(&selected, &vec![]).is_none());
    let actions = vec![
        HideColumnAction::HideTimeColumn { timeline_name: "log_time".to_string() },
        HideColumnAction::HideComponentColumn {
            entity_path: "/b".to_string(),
            full_name: "viewer.components.Color".to_string(),
            short_name: "Color".to_string(),
        },
    ];
    let (times, components) =
        saved(Query::handle_hide_column_actions(&selected, &actions).unwrap());
    assert_eq!(times, vec!["frame".to_string()]);
    assert_eq!(components, vec![pair("/a", "Color"), pair("/a", "Radius")]);

    let actions = vec![HideColumnAction::HideTimeColumn { timeline_name: "none".to_string() }];
    let (times, components) =
        saved(Query::handle_hide_column_actions(&selected, &actions).unwrap());
    assert_eq!(times, vec!["frame".to_string(), "log_time".to_string()]);
    assert_eq!(components, vec![pair("/a", "Color"), pair("/a", "Radius"), pair("/b", "color")]);
}

#[test]
fn timeline_is_found_among_those_of_the_recording() {
    let timelines = vec!["log_time".to_string(), "frame".to_string(), "frame".to_string()];
    let query = Query::unset();
    let (place, writes) = query.timeline("frame", &timelines);
    assert_eq!(place, Some(1));
    assert_eq!(writes.len(), 2);
    let (place, _) = query.timeline("missing", &timelines);
    assert_eq!(place, None);
    let mut query = Query::unset();
    query.apply(BlueprintWrite::SaveTimelineName("log_time".to_string()));
    let (place, writes) = query.timeline("frame", &timelines);
    assert_eq!(place, Some(0));
    assert!(writes.is_empty());
    let (place, _) = query.timeline("frame", &vec![]);
    assert_eq!(place, None);
}
