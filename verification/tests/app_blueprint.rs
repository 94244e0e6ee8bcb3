use component_ui::{
    setup_welcome_screen_blueprint, AppBlueprint, Panel, PanelState, PanelStateOverrides,
    PanelWrite, ScreenFit,
};

fn wide() -> ScreenFit {
    ScreenFit {
        is_narrow: false,
        fits_blueprint_panel: true,
        fits_selection_panel: true,
        fits_time_panel: true,
    }
}

fn narrow() -> ScreenFit {
    ScreenFit {
        is_narrow: true,
        fits_blueprint_panel: false,
        fits_selection_panel: false,
        fits_time_panel: true,
    }
}

fn nothing() -> PanelStateOverrides {
    PanelStateOverrides::default()
}

#[test]
fn panel_state_toggles_between_expanded_and_collapsed() {
    assert_eq!(PanelState::Expanded.toggle(), PanelState::Collapsed);
    assert_eq!(PanelState::Collapsed.toggle(), PanelState::Expanded);
    assert_eq!(PanelState::Hidden.toggle(), PanelState::Expanded);
    assert!(PanelState::Expanded.is_expanded());
    assert!(!PanelState::Collapsed.is_expanded());
    assert!(PanelState::Hidden.is_hidden());
    assert!(!PanelState::Expanded.is_hidden());
}

#[test]
fn panel_paths() {
    assert_eq!(Panel::Top.path(), "top_panel");
    assert_eq!(Panel::Blueprint.path(), "blueprint_panel");
    assert_eq!(Panel::Selection.path(), "selection_panel");
    assert_eq!(Panel::Time.path(), "time_panel");
}

#[test]
fn default_panel_states_follow_the_screen() {
    let app = AppBlueprint::new(false, wide(), nothing(), None);
    assert_eq!(app.top_panel_state(), PanelState::Expanded);
    assert_eq!(app.blueprint_panel_state(), PanelState::Expanded);
    assert_eq!(app.selection_panel_state(), PanelState::Expanded);
    assert_eq!(app.time_panel_state(), PanelState::Expanded);
    let app = AppBlueprint::new(false, narrow(), nothing(), None);
    assert_eq!(app.top_panel_state(), PanelState::Expanded);
    assert_eq!(app.blueprint_panel_state(), PanelState::Collapsed);
    assert_eq!(app.selection_panel_state(), PanelState::Collapsed);
    assert_eq!(app.time_panel_state(), PanelState::Expanded);
}

#[test]
fn stored_panel_states_count_only_with_a_blueprint() {
    let stored = PanelStateOverrides {
        top: Some(PanelState::Hidden),
        blueprint: None,
        selection: Some(PanelState::Collapsed),
        time: Some(PanelState::Hidden),
    };
    let app = AppBlueprint::new(true, wide(), stored, None);
    assert_eq!(app.top_panel_state(), PanelState::Hidden);
    assert_eq!(app.blueprint_panel_state(), PanelState::Expanded);
    assert_eq!(app.selection_panel_state(), PanelState::Collapsed);
    assert_eq!(app.time_panel_state(), PanelState::Hidden);
    let app = AppBlueprint::new(false, wide(), stored, None);
    assert_eq!(app.top_panel_state(), PanelState::Expanded);
    assert_eq!(app.time_panel_state(), PanelState::Expanded);
}

#[test]
fn overrides_take_the_place_of_the_blueprint() {
    let overrides = PanelStateOverrides {
        top: None,
        blueprint: Some(PanelState::Hidden),
        selection: None,
        time: Some(PanelState::Collapsed),
    };
    let app = AppBlueprint::new(true, wide(), nothing(), Some(overrides));
    assert_eq!(app.top_panel_state(), PanelState::Expanded);
    assert_eq!(app.blueprint_panel_state(), PanelState::Hidden);
    assert_eq!(app.selection_panel_state(), PanelState::Expanded);
    assert_eq!(app.time_panel_state(), PanelState::Collapsed);
    assert!(app.blueprint_panel_overridden());
    assert!(!app.selection_panel_overridden());
    assert!(app.time_panel_overridden());
    assert!(app.toggle_blueprint_panel().is_empty());
    assert!(app.toggle_time_panel().is_empty());
    assert_eq!(
        app.toggle_selection_panel(),
        vec![PanelWrite { panel: Panel::Selection, state: PanelState::Collapsed }]
    );
    let app = AppBlueprint::new(true, wide(), nothing(), None);
    assert!(!app.blueprint_panel_overridden());
    assert!(!app.time_panel_overridden());
}

#[test]
fn toggle_writes_the_toggled_state() {
    let app = AppBlueprint::new(true, wide(), nothing(), None);
    assert_eq!(
        app.toggle_top_panel(),
        vec![PanelWrite { panel: Panel::Top, state: PanelState::Collapsed }]
    );
    assert_eq!(
        app.toggle_blueprint_panel(),
        vec![PanelWrite { panel: Panel::Blueprint, state: PanelState::Collapsed }]
    );
    assert_eq!(
        app.toggle_time_panel(),
        vec![PanelWrite { panel: Panel::Time, state: PanelState::Collapsed }]
    );
}

#[test]
fn toggle_without_a_blueprint_writes_nothing() {
    let app = AppBlueprint::new(false, narrow(), nothing(), None);
    assert!(app.toggle_top_panel().is_empty());
    assert!(app.toggle_blueprint_panel().is_empty());
    assert!(app.toggle_selection_panel().is_empty());
    assert!(app.toggle_time_panel().is_empty());
    assert_eq!(app.send_panel_state(Panel::Top, PanelState::Hidden), None);
}

#[test]
fn narrow_screen_hides_the_other_side_panel() {
    let app = AppBlueprint::new(true, narrow(), nothing(), None);
    assert_eq!(
        app.toggle_blueprint_panel(),
        vec![
            PanelWrite { panel: Panel::Blueprint, state: PanelState::Expanded },
            PanelWrite { panel: Panel::Selection, state: PanelState::Hidden },
        ]
    );
    assert_eq!(
        app.toggle_selection_panel(),
        vec![
            PanelWrite { panel: Panel::Selection, state: PanelState::Expanded },
            PanelWrite { panel: Panel::Blueprint, state: PanelState::Hidden },
        ]
    );
    let stored = PanelStateOverrides {
        top: None,
        blueprint: Some(PanelState::Expanded),
        selection: None,
        time: None,
    };
    let app = AppBlueprint::new(true, narrow(), stored, None);
    assert_eq!(
        app.toggle_blueprint_panel(),
        vec![PanelWrite { panel: Panel::Blueprint, state: PanelState::Collapsed }]
    );
    assert_eq!(
        app.toggle_time_panel(),
        vec![PanelWrite { panel: Panel::Time, state: PanelState::Collapsed }]
    );
    assert_eq!(
        app.send_panel_state(Panel::Time, PanelState::Hidden),
        Some(PanelWrite { panel: Panel::Time, state: PanelState::Hidden })
    );
}

#[test]
fn welcome_screen_shows_only_the_top_bar() {
    assert_eq!(
        setup_welcome_screen_blueprint(),
        vec![
            PanelWrite { panel: Panel::Top, state: PanelState::Expanded },
            PanelWrite { panel: Panel::Blueprint, state: PanelState::Hidden },
            PanelWrite { panel: Panel::Selection, state: PanelState::Hidden },
            PanelWrite { panel: Panel::Time, state: PanelState::Hidden },
        ]
    );
}
