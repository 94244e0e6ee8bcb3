//! The state of the four application panels, and the writes that toggle them.

use vstd::prelude::*;

verus! {

/// How much of a panel is shown.
#[derive(Clone, Copy, Debug, PartialEq, Eq, Structural)]
pub enum PanelState {
    /// The panel is not shown at all.
    Hidden,
    /// The panel is shown in its small form.
    Collapsed,
    /// The panel is shown in full.
    Expanded,
}

impl PanelState {
    /// The state after a toggle: an expanded panel collapses, any other
    /// expands.
    pub open spec fn spec_toggle(self) -> PanelState {
        match self {
            PanelState::Expanded => PanelState::Collapsed,
            PanelState::Collapsed => PanelState::Expanded,
            PanelState::Hidden => PanelState::Expanded,
        }
    }

    /// Whether the panel is shown in full.
    pub fn is_expanded(&self) -> (b: bool)
        ensures
            b == (*self == PanelState::Expanded),
    {
        match self {
            PanelState::Expanded => true,
            _ => false,
        }
    }

    /// Whether the panel is not shown at all.
    pub fn is_hidden(&self) -> (b: bool)
        ensures
            b == (*self == PanelState::Hidden),
    {
        match self {
            PanelState::Hidden => true,
            _ => false,
        }
    }

    /// The state after a toggle.
    #[verifier::when_used_as_spec(spec_toggle)]
    pub fn toggle(self) -> (r: PanelState)
        ensures
            r == self.spec_toggle(),
    {
        match self {
            PanelState::Expanded => PanelState::Collapsed,
            PanelState::Collapsed => PanelState::Expanded,
            PanelState::Hidden => PanelState::Expanded,
        }
    }
}

/// One of the four panels of the application.
#[derive(Clone, Copy, Debug, PartialEq, Eq, Structural)]
pub enum Panel {
    /// The bar at the top.
    Top,
    /// The blueprint panel, on the left.
    Blueprint,
    /// The selection panel, on the right.
    Selection,
    /// The time panel, at the bottom.
    Time,
}

impl Panel {
    /// The entity path under which the blueprint holds the panel's state.
    pub fn path(&self) -> (p: &'static str)
        ensures
            p@ == (match *self {
                Panel::Top => "top_panel"@,
                Panel::Blueprint => "blueprint_panel"@,
                Panel::Selection => "selection_panel"@,
                Panel::Time => "time_panel"@,
            }),
    {
        match self {
            Panel::Top => "top_panel",
            Panel::Blueprint => "blueprint_panel",
            Panel::Selection => "selection_panel",
            Panel::Time => "time_panel",
        }
    }
}

/// The states of the four panels.
#[derive(Clone, Copy, Debug, PartialEq, Eq, Structural)]
pub struct PanelStates {
    pub top: PanelState,
    pub blueprint: PanelState,
    pub selection: PanelState,
    pub time: PanelState,
}

impl PanelStates {
    /// The state of `panel`.
    pub open spec fn spec_get(&self, panel: Panel) -> PanelState {
        match panel {
            Panel::Top => self.top,
            Panel::Blueprint => self.blueprint,
            Panel::Selection => self.selection,
            Panel::Time => self.time,
        }
    }

    /// The state of `panel`.
    #[verifier::when_used_as_spec(spec_get)]
    pub fn get(&self, panel: Panel) -> (s: PanelState)
        ensures
            s == self.spec_get(panel),
    {
        match panel {
            Panel::Top => self.top,
            Panel::Blueprint => self.blueprint,
            Panel::Selection => self.selection,
            Panel::Time => self.time,
        }
    }
}

/// For each panel, the state that is forced on it, if one is: a forced state
/// takes the place of the blueprint's, and the panel cannot be toggled.
#[derive(Clone, Copy, Debug, PartialEq, Eq, Structural)]
pub struct PanelStateOverrides {
    pub top: Option<PanelState>,
    pub blueprint: Option<PanelState>,
    pub selection: Option<PanelState>,
    pub time: Option<PanelState>,
}

impl PanelStateOverrides {
    /// The state forced on `panel`, if one is.
    pub open spec fn spec_get(&self, panel: Panel) -> Option<PanelState> {
        match panel {
            Panel::Top => self.top,
            Panel::Blueprint => self.blueprint,
            Panel::Selection => self.selection,
            Panel::Time => self.time,
        }
    }

    /// The state forced on `panel`, if one is.
    #[verifier::when_used_as_spec(spec_get)]
    pub fn get(&self, panel: Panel) -> (s: Option<PanelState>)
        ensures
            s == self.spec_get(panel),
    {
        match panel {
            Panel::Top => self.top,
            Panel::Blueprint => self.blueprint,
            Panel::Selection => self.selection,
            Panel::Time => self.time,
        }
    }
}

impl Default for PanelStateOverrides {
    fn default() -> (r: Self)
        ensures
            r == (PanelStateOverrides { top: None, blueprint: None, selection: None, time: None }),
    {
        PanelStateOverrides { top: None, blueprint: None, selection: None, time: None }
    }
}

/// What the size of the screen allows.
#[derive(Clone, Copy, Debug, PartialEq, Eq, Structural)]
pub struct ScreenFit {
    /// The screen is too narrow for both side panels at once.
    pub is_narrow: bool,
    /// The screen is wide enough to open the blueprint panel by default.
    pub fits_blueprint_panel: bool,
    /// The screen is wide enough to open the selection panel by default.
    pub fits_selection_panel: bool,
    /// The screen is high enough to open the time panel by default.
    pub fits_time_panel: bool,
}

/// The state of a panel that is open by default where the screen has room.
pub open spec fn expanded_if(fits: bool) -> PanelState {
    if fits {
        PanelState::Expanded
    } else {
        PanelState::Collapsed
    }
}

/// The panel states of an application without a blueprint: the top bar
/// expanded, each other panel expanded where the screen has room for it.
pub open spec fn default_panel_states(screen: ScreenFit) -> PanelStates {
    PanelStates {
        top: PanelState::Expanded,
        blueprint: expanded_if(screen.fits_blueprint_panel),
        selection: expanded_if(screen.fits_selection_panel),
        time: expanded_if(screen.fits_time_panel),
    }
}

/// The state of a panel: the stored one where the blueprint holds one.
pub open spec fn stored_or(stored: Option<PanelState>, default: PanelState) -> PanelState {
    match stored {
        Some(state) => state,
        None => default,
    }
}

/// The write of a panel's state into the blueprint.
#[derive(Clone, Copy, Debug, PartialEq, Eq, Structural)]
pub struct PanelWrite {
    /// The panel whose state is written.
    pub panel: Panel,
    /// The state to write.
    pub state: PanelState,
}

/// The blueprint of the application as a whole: the states of its panels.
#[derive(Clone, Copy, Debug, PartialEq, Eq, Structural)]
pub struct AppBlueprint {
    has_blueprint_db: bool,
    is_narrow_screen: bool,
    panel_states: PanelStates,
    overrides: Option<PanelStateOverrides>,
}

impl AppBlueprint {
    /// Whether there is a blueprint to write to.
    pub closed spec fn has_blueprint_db(&self) -> bool {
        self.has_blueprint_db
    }

    /// Whether the screen is too narrow for both side panels at once.
    pub closed spec fn is_narrow_screen(&self) -> bool {
        self.is_narrow_screen
    }

    /// The panel states as the blueprint has them, before any is forced.
    pub closed spec fn panel_states(&self) -> PanelStates {
        self.panel_states
    }

    /// The forced states, if there are any.
    pub closed spec fn overrides(&self) -> Option<PanelStateOverrides> {
        self.overrides
    }

    /// The state forced on `panel`, if one is.
    pub open spec fn forced(&self, panel: Panel) -> Option<PanelState> {
        match self.overrides() {
            Some(overrides) => overrides.spec_get(panel),
            None => None,
        }
    }

    /// The state in which `panel` is shown: the forced one, else the
    /// blueprint's.
    pub open spec fn shown_state(&self, panel: Panel) -> PanelState {
        match self.forced(panel) {
            Some(state) => state,
            None => self.panel_states().spec_get(panel),
        }
    }

    /// The writes that a toggle of `panel` sends.
    ///
    /// None where the panel's state is forced or there is no blueprint. Else
    /// the panel's toggled state; and, on a narrow screen, where a side panel
    /// expands, the other side panel is hidden to make room.
    pub open spec fn toggle_writes(&self, panel: Panel) -> Seq<PanelWrite> {
        if self.forced(panel) is Some || !self.has_blueprint_db() {
            Seq::empty()
        } else {
            let new_state = self.panel_states().spec_get(panel).spec_toggle();
            let own = seq![PanelWrite { panel, state: new_state }];
            if self.is_narrow_screen() && new_state == PanelState::Expanded {
                match panel {
                    Panel::Blueprint => own.push(
                        PanelWrite { panel: Panel::Selection, state: PanelState::Hidden },
                    ),
                    Panel::Selection => own.push(
                        PanelWrite { panel: Panel::Blueprint, state: PanelState::Hidden },
                    ),
                    _ => own,
                }
            } else {
                own
            }
        }
    }

    /// The blueprint of an application.
    ///
    /// Without a blueprint database the panels have their defaults for the
    /// screen. With one, each panel whose state the database holds, given in
    /// `stored`, has that state.
    pub fn new(
        has_blueprint_db: bool,
        screen: ScreenFit,
        stored: PanelStateOverrides,
        overrides: Option<PanelStateOverrides>,
    ) -> (r: Self)
        ensures
            r.has_blueprint_db() == has_blueprint_db,
            r.is_narrow_screen() == screen.is_narrow,
            r.overrides() == overrides,
            !has_blueprint_db ==> r.panel_states() == default_panel_states(screen),
            has_blueprint_db ==> forall|panel: Panel|
                #![trigger r.panel_states().spec_get(panel)]
                r.panel_states().spec_get(panel) == stored_or(
                    stored.spec_get(panel),
                    default_panel_states(screen).spec_get(panel),
                ),
    {
        let mut ret = AppBlueprint {
            has_blueprint_db,
            is_narrow_screen: screen.is_narrow,
            panel_states: PanelStates {
                top: PanelState::Expanded,
                blueprint: if screen.fits_blueprint_panel {
                    PanelState::Expanded
                } else {
                    PanelState::Collapsed
                },
                selection: if screen.fits_selection_panel {
                    PanelState::Expanded
                } else {
                    PanelState::Collapsed
                },
                time: if screen.fits_time_panel {
                    PanelState::Expanded
                } else {
                    PanelState::Collapsed
                },
            },
            overrides,
        };
        if has_blueprint_db {
            if let Some(state) = stored.top {
                ret.panel_states.top = state;
            }
            if let Some(state) = stored.blueprint {
                ret.panel_states.blueprint = state;
            }
            if let Some(state) = stored.selection {
                ret.panel_states.selection = state;
            }
            if let Some(state) = stored.time {
                ret.panel_states.time = state;
            }
        }
        ret
    }

    /// The state forced on `panel`, if one is.
    fn forced_state(&self, panel: Panel) -> (s: Option<PanelState>)
        ensures
            s == self.forced(panel),
    {
        match self.overrides {
            Some(overrides) => overrides.get(panel),
            None => None,
        }
    }

    /// The state in which `panel` is shown.
    fn panel_state(&self, panel: Panel) -> (s: PanelState)
        ensures
            s == self.shown_state(panel),
    {
        match self.forced_state(panel) {
            Some(state) => state,
            None => self.panel_states.get(panel),
        }
    }

    /// The state in which the top bar is shown.
    pub fn top_panel_state(&self) -> (s: PanelState)
        ensures
            s == self.shown_state(Panel::Top),
    {
        self.panel_state(Panel::Top)
    }

    /// The state in which the blueprint panel is shown.
    pub fn blueprint_panel_state(&self) -> (s: PanelState)
        ensures
            s == self.shown_state(Panel::Blueprint),
    {
        self.panel_state(Panel::Blueprint)
    }

    /// The state in which the selection panel is shown.
    pub fn selection_panel_state(&self) -> (s: PanelState)
        ensures
            s == self.shown_state(Panel::Selection),
    {
        self.panel_state(Panel::Selection)
    }

    /// The state in which the time panel is shown.
    pub fn time_panel_state(&self) -> (s: PanelState)
        ensures
            s == self.shown_state(Panel::Time),
    {
        self.panel_state(Panel::Time)
    }

    /// The write that sets `panel` to `value`, where there is a blueprint to
    /// write to.
    pub fn send_panel_state(&self, panel: Panel, value: PanelState) -> (w: Option<PanelWrite>)
        ensures
            w == (if self.has_blueprint_db() {
                Some(PanelWrite { panel, state: value })
            } else {
                None
            }),
    {
        if self.has_blueprint_db {
            Some(PanelWrite { panel, state: value })
        } else {
            None
        }
    }

    /// The writes that a toggle of `panel` sends, where `other_side` is the
    /// side panel that gives way on a narrow screen.
    fn toggle_panel(&self, panel: Panel, other_side: Option<Panel>) -> (writes: Vec<PanelWrite>)
        requires
            other_side == (match panel {
                Panel::Blueprint => Some(Panel::Selection),
                Panel::Selection => Some(Panel::Blueprint),
                _ => None::<Panel>,
            }),
        ensures
            writes@ == self.toggle_writes(panel),
    {
        let mut writes: Vec<PanelWrite> = Vec::new();
        // Don't toggle if it is overridden.
        if self.forced_state(panel).is_some() {
            return writes;
        }
        let new_state = self.panel_states.get(panel).toggle();
        if let Some(write) = self.send_panel_state(panel, new_state) {
            writes.push(write);
        }
        // Hide the opposite side if this panel is now visible, to save on screen real estate.
        if let Some(other) = other_side {
            if self.is_narrow_screen && new_state.is_expanded() {
                if let Some(write) = self.send_panel_state(other, PanelState::Hidden) {
                    writes.push(write);
                }
            }
        }
        assert(writes@ =~= self.toggle_writes(panel));
        writes
    }

    /// The writes that toggle the top bar.
    pub fn toggle_top_panel(&self) -> (writes: Vec<PanelWrite>)
        ensures
            writes@ == self.toggle_writes(Panel::Top),
    {
        self.toggle_panel(Panel::Top, None)
    }

    /// The writes that toggle the blueprint panel.
    pub fn toggle_blueprint_panel(&self) -> (writes: Vec<PanelWrite>)
        ensures
            writes@ == self.toggle_writes(Panel::Blueprint),
    {
        self.toggle_panel(Panel::Blueprint, Some(Panel::Selection))
    }

    /// The writes that toggle the selection panel.
    pub fn toggle_selection_panel(&self) -> (writes: Vec<PanelWrite>)
        ensures
            writes@ == self.toggle_writes(Panel::Selection),
    {
        self.toggle_panel(Panel::Selection, Some(Panel::Blueprint))
    }

    /// The writes that toggle the time panel.
    pub fn toggle_time_panel(&self) -> (writes: Vec<PanelWrite>)
        ensures
            writes@ == self.toggle_writes(Panel::Time),
    {
        self.toggle_panel(Panel::Time, None)
    }

    /// Whether the state of the blueprint panel is forced.
    pub fn blueprint_panel_overridden(&self) -> (b: bool)
        ensures
            b == self.forced(Panel::Blueprint).is_some(),
    {
        self.forced_state(Panel::Blueprint).is_some()
    }

    /// Whether the state of the selection panel is forced.
    pub fn selection_panel_overridden(&self) -> (b: bool)
        ensures
            b == self.forced(Panel::Selection).is_some(),
    {
        self.forced_state(Panel::Selection).is_some()
    }

    /// Whether the state of the time panel is forced.
    pub fn time_panel_overridden(&self) -> (b: bool)
        ensures
            b == self.forced(Panel::Time).is_some(),
    {
        self.forced_state(Panel::Time).is_some()
    }
}

/// The panel states of the welcome screen: only the top bar is shown.
pub open spec fn welcome_screen_writes() -> Seq<PanelWrite> {
    seq![
        PanelWrite { panel: Panel::Top, state: PanelState::Expanded },
        PanelWrite { panel: Panel::Blueprint, state: PanelState::Hidden },
        PanelWrite { panel: Panel::Selection, state: PanelState::Hidden },
        PanelWrite { panel: Panel::Time, state: PanelState::Hidden },
    ]
}

/// The writes that set up the blueprint of the welcome screen, in the order
/// in which they are made.
pub fn setup_welcome_screen_blueprint() -> (writes: Vec<PanelWrite>)
    ensures
        writes@ == welcome_screen_writes(),
{
    let mut writes: Vec<PanelWrite> = Vec::new();
    writes.push(PanelWrite { panel: Panel::Top, state: PanelState::Expanded });
    writes.push(PanelWrite { panel: Panel::Blueprint, state: PanelState::Hidden });
    writes.push(PanelWrite { panel: Panel::Selection, state: PanelState::Hidden });
    writes.push(PanelWrite { panel: Panel::Time, state: PanelState::Hidden });
    assert(writes@ =~= welcome_screen_writes());
    writes
}

/// A panel whose state is forced is shown in that state and never toggled.
pub proof fn lemma_forced_panel_is_fixed(blueprint: AppBlueprint, panel: Panel, state: PanelState)
    requires
        blueprint.forced(panel) == Some(state),
    ensures
        blueprint.shown_state(panel) == state,
        blueprint.toggle_writes(panel) == Seq::<PanelWrite>::empty(),
{
}

/// A toggle writes to the toggled panel first, and to at most one other.
pub proof fn lemma_toggle_writes_own_panel_first(blueprint: AppBlueprint, panel: Panel)
    ensures
        blueprint.toggle_writes(panel).len() <= 2,
        blueprint.toggle_writes(panel).len() > 0 ==> blueprint.toggle_writes(panel)[0] == (
        PanelWrite { panel, state: blueprint.panel_states().spec_get(panel).spec_toggle() }),
        blueprint.toggle_writes(panel).len() == 2 ==> blueprint.is_narrow_screen()
            && blueprint.toggle_writes(panel)[1].state == PanelState::Hidden,
{
}

} // verus!
