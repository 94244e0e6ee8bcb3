//! The registry of component user interfaces and its dispatch.

use crate::component_name::ComponentName;
use crate::instance::{
    select, select_element, shown_cache_key, shown_items, Instance, Selection,
};
use crate::raw_value::RawValue;
use crate::table::HandlerTable;
use crate::typed::TypedOutcome;
use crate::ui_types::{ComponentUiTypes, UiCapability};
use vstd::prelude::*;

verus! {

/// Where a component is drawn, which decides how much room it may take.
#[derive(Clone, Copy, Debug, PartialEq, Eq, Structural)]
pub enum UiLayout {
    /// One line of a list: compact.
    List,
    /// A tooltip: compact.
    Tooltip,
    /// The selection panel: detailed, with room for several lines.
    SelectionPanel,
}

/// Whether an edit-or-view handler may change the value it shows.
#[derive(Clone, Copy, Debug, PartialEq, Eq, Structural)]
pub enum EditOrView {
    /// The user may view and change the value.
    Edit,
    /// The value is shown read-only.
    View,
}

/// Which handler a draw call went to.
#[derive(Clone, Copy, Debug, PartialEq, Eq, Structural)]
pub enum UiRoute {
    /// The fallback display, which shows any batch.
    Fallback,
    /// The display-only handler registered for the component.
    LegacyDisplay,
    /// The single-line handler, used read-only.
    SinglelineView,
    /// The multi-line handler, used read-only.
    MultilineView,
    /// The single-line handler, used as an editor.
    SinglelineEdit,
    /// The multi-line handler, used as an editor.
    MultilineEdit,
}

impl UiRoute {
    /// Whether the route is one of the two editors.
    pub open spec fn spec_is_edit(&self) -> bool {
        *self == UiRoute::SinglelineEdit || *self == UiRoute::MultilineEdit
    }

    /// Whether the route is one of the two editors.
    #[verifier::when_used_as_spec(spec_is_edit)]
    pub fn is_edit(&self) -> (b: bool)
        ensures
            b == self.spec_is_edit(),
    {
        match self {
            UiRoute::SinglelineEdit => true,
            UiRoute::MultilineEdit => true,
            _ => false,
        }
    }
}

/// An edited value to be written back.
///
/// The registry never writes: it hands the commit to its caller, who passes it
/// on to whatever persists values.
pub struct Commit<W> {
    /// Where the value is to be written.
    pub write_path: W,
    /// The component that the value belongs to.
    pub component_name: ComponentName,
    /// The new value: what the editor produced.
    pub value: RawValue,
}

/// What an edit call showed, and what it asks to be written back.
pub struct EditOutcome<W> {
    /// The handler that ran.
    pub route: UiRoute,
    /// The value to write back, if the user changed it.
    pub commit: Option<Commit<W>>,
}

/// Whether `commit` is what follows from an editor returning `produced`: no
/// commit without a value, else the value as it is, under the name and the
/// write path of the call.
pub open spec fn commit_matches<W>(
    commit: Option<Commit<W>>,
    produced: Option<RawValue>,
    write_path: W,
    name: Seq<char>,
) -> bool {
    match produced {
        None => commit is None,
        Some(value) => commit matches Some(c) && c.value == value && c.write_path == write_path
            && c.component_name@ == name,
    }
}

/// The commit that follows from an editor returning `produced`.
pub fn commit_of<W>(produced: Option<RawValue>, write_path: W, name: &ComponentName) -> (commit:
    Option<Commit<W>>)
    ensures
        commit_matches(commit, produced, write_path, name@),
{
    match produced {
        None => None,
        Some(value) => Some(Commit { write_path, component_name: name.clone(), value }),
    }
}

/// Whether `used` is the value that an edit starts from: the stored batch
/// where there is one with an instance in it, else what `provider` gives for the
/// component.
pub open spec fn edit_source<Ctx, Src, P>(
    component_array: Option<&RawValue>,
    provider: &P,
    ctx: &Ctx,
    src: &Src,
    name: &ComponentName,
    used: &RawValue,
) -> bool where P: Fn(&Ctx, &Src, &ComponentName) -> RawValue {
    match component_array {
        Some(array) if array@.len() > 0 => *used == *array,
        _ => call_ensures(*provider, (ctx, src, name), *used),
    }
}

/// Whether a display handler can be called on every input.
pub open spec fn display_total<Ctx, Ui, Src, L>(handler: L) -> bool where
    L: Fn(&Ctx, &mut Ui, UiLayout, &Src, &ComponentName, Option<u64>, &RawValue),
 {
    forall|
        ctx: &Ctx,
        ui: &mut Ui,
        layout: UiLayout,
        src: &Src,
        name: &ComponentName,
        cache_key: Option<u64>,
        value: &RawValue,
    | call_requires(handler, (ctx, ui, layout, src, name, cache_key, value))
}

/// Whether an edit-or-view handler can be called on every input.
pub open spec fn edit_or_view_total<Ctx, Ui, E>(handler: E) -> bool where
    E: Fn(&Ctx, &mut Ui, &RawValue, EditOrView) -> TypedOutcome,
 {
    forall|ctx: &Ctx, ui: &mut Ui, value: &RawValue, mode: EditOrView|
        call_requires(handler, (ctx, ui, value, mode))
}

/// Whether a display left the screen `after`, starting from `before`: in one
/// call, `first`, where it was `direct`; else in two calls, `second`
/// starting from where `first` ended.
pub open spec fn display_steps<Ui>(
    direct: bool,
    before: Ui,
    after: Ui,
    first: Ui,
    first_after: Ui,
    second: Ui,
    second_after: Ui,
) -> bool {
    first == before && (if direct {
        first_after == after
    } else {
        second == first_after && second_after == after
    })
}

/// Whether an edit call left the screen `after`, starting from `before`.
///
/// Where the editor took the value, its call alone did. Where there was an
/// editor and it declined, the display started from where the editor's call
/// ended. Without an editor the display started from `before`.
pub open spec fn edit_steps<Ui>(
    has_editor: bool,
    edited: bool,
    direct: bool,
    before: Ui,
    after: Ui,
    editor: Ui,
    editor_after: Ui,
    first: Ui,
    first_after: Ui,
    second: Ui,
    second_after: Ui,
) -> bool {
    if edited {
        editor == before && editor_after == after
    } else if has_editor {
        editor == before && display_steps(
            direct,
            editor_after,
            after,
            first,
            first_after,
            second,
            second_after,
        )
    } else {
        display_steps(direct, before, after, first, first_after, second, second_after)
    }
}

/// How to show, and maybe edit, the components in a user interface.
///
/// `L` is the type of the display-only handlers and of the fallback, `E` that
/// of the handlers that show and edit. The three tables are filled
/// independently of each other and never merged.
pub struct ComponentUiRegistry<L, E> {
    fallback_ui: L,
    legacy_display_component_uis: HandlerTable<L>,
    component_singleline_edit_or_view: HandlerTable<E>,
    component_multiline_edit_or_view: HandlerTable<E>,
}

impl<L, E> ComponentUiRegistry<L, E> {
    /// The display used where no handler applies.
    pub closed spec fn fallback(&self) -> L {
        self.fallback_ui
    }

    /// The display-only handlers, by component name.
    pub closed spec fn legacy_displays(&self) -> Map<Seq<char>, L> {
        self.legacy_display_component_uis@
    }

    /// The single-line handlers, by component name.
    pub closed spec fn singleline_uis(&self) -> Map<Seq<char>, E> {
        self.component_singleline_edit_or_view@
    }

    /// The multi-line handlers, by component name.
    pub closed spec fn multiline_uis(&self) -> Map<Seq<char>, E> {
        self.component_multiline_edit_or_view@
    }

    /// The capabilities that the registrations under `name` give.
    ///
    /// A handler that edits also displays; a display-only handler only
    /// displays.
    pub open spec fn capabilities(&self, name: Seq<char>) -> Set<UiCapability> {
        Set::new(
            |c: UiCapability|
                match c {
                    UiCapability::Display => self.legacy_displays().contains_key(name)
                        || self.singleline_uis().contains_key(name)
                        || self.multiline_uis().contains_key(name),
                    UiCapability::SingleLineEditor => self.singleline_uis().contains_key(name),
                    UiCapability::MultiLineEditor => self.multiline_uis().contains_key(name),
                },
        )
    }

    /// The handler that is chosen to show a batch of `len` instances of `name`
    /// read-only.
    ///
    /// Only a batch of one reaches a registered handler. The display-only
    /// handler comes first; then, in the selection panel, the multi-line
    /// handler; then the single-line handler; the fallback comes last.
    pub open spec fn display_route(&self, name: Seq<char>, len: nat, layout: UiLayout) -> UiRoute {
        if len != 1 {
            UiRoute::Fallback
        } else if self.legacy_displays().contains_key(name) {
            UiRoute::LegacyDisplay
        } else if layout == UiLayout::SelectionPanel && self.multiline_uis().contains_key(name) {
            UiRoute::MultilineView
        } else if self.singleline_uis().contains_key(name) {
            UiRoute::SinglelineView
        } else {
            UiRoute::Fallback
        }
    }

    /// The editor for a batch of `len` instances of `name`, if one applies.
    ///
    /// Only a batch of one can be edited. Where several lines are allowed the
    /// multi-line handler comes first. A display-only handler never edits.
    pub open spec fn edit_route(&self, name: Seq<char>, len: nat, allow_multiline: bool) -> Option<
        UiRoute,
    > {
        if len != 1 {
            None
        } else if allow_multiline && self.multiline_uis().contains_key(name) {
            Some(UiRoute::MultilineEdit)
        } else if self.singleline_uis().contains_key(name) {
            Some(UiRoute::SinglelineEdit)
        } else {
            None
        }
    }

    /// The handler that an edit call ends in where no handler declines the
    /// value: the editor where one applies, else what displays the value in a
    /// list.
    pub open spec fn edit_or_display_route(
        &self,
        name: Seq<char>,
        len: nat,
        allow_multiline: bool,
    ) -> UiRoute {
        match self.edit_route(name, len, allow_multiline) {
            Some(route) => route,
            None => self.display_route(name, len, UiLayout::List),
        }
    }

    /// Whether the fallback and every display-only handler can be called on
    /// every input.
    pub open spec fn displays_total<Ctx, Ui, Src>(&self) -> bool where
        L: Fn(&Ctx, &mut Ui, UiLayout, &Src, &ComponentName, Option<u64>, &RawValue),
     {
        &&& display_total::<Ctx, Ui, Src, L>(self.fallback())
        &&& forall|name: Seq<char>| #[trigger]
            self.legacy_displays().contains_key(name) ==> display_total::<Ctx, Ui, Src, L>(
                self.legacy_displays()[name],
            )
    }

    /// Whether every edit-or-view handler can be called on every input.
    pub open spec fn editors_total<Ctx, Ui>(&self) -> bool where
        E: Fn(&Ctx, &mut Ui, &RawValue, EditOrView) -> TypedOutcome,
     {
        &&& forall|name: Seq<char>| #[trigger]
            self.singleline_uis().contains_key(name) ==> edit_or_view_total::<Ctx, Ui, E>(
                self.singleline_uis()[name],
            )
        &&& forall|name: Seq<char>| #[trigger]
            self.multiline_uis().contains_key(name) ==> edit_or_view_total::<Ctx, Ui, E>(
                self.multiline_uis()[name],
            )
    }

    /// Whether every registered handler, and the fallback, can be called on
    /// every input.
    pub open spec fn handlers_total<Ctx, Ui, Src>(&self) -> bool where
        L: Fn(&Ctx, &mut Ui, UiLayout, &Src, &ComponentName, Option<u64>, &RawValue),
        E: Fn(&Ctx, &mut Ui, &RawValue, EditOrView) -> TypedOutcome,
     {
        self.displays_total::<Ctx, Ui, Src>() && self.editors_total::<Ctx, Ui>()
    }

    /// The handler that shows `instance` of a batch of `len` instances of
    /// `name`: the fallback where no single instance is selected, else what
    /// displays a batch of one.
    pub open spec fn instance_route(
        &self,
        name: Seq<char>,
        len: nat,
        instance: Instance,
        layout: UiLayout,
    ) -> UiRoute {
        match select(len, instance) {
            Selection::Summary => UiRoute::Fallback,
            Selection::Element(_) => self.display_route(name, 1, layout),
        }
    }

    /// The registry with `fallback_ui` and no other handler.
    pub fn new(fallback_ui: L) -> (r: Self)
        ensures
            r.fallback() == fallback_ui,
            r.legacy_displays() == Map::<Seq<char>, L>::empty(),
            r.singleline_uis() == Map::<Seq<char>, E>::empty(),
            r.multiline_uis() == Map::<Seq<char>, E>::empty(),
    {
        ComponentUiRegistry {
            fallback_ui,
            legacy_display_component_uis: HandlerTable::new(),
            component_singleline_edit_or_view: HandlerTable::new(),
            component_multiline_edit_or_view: HandlerTable::new(),
        }
    }

    /// Registers how to show the component `name`.
    ///
    /// A display handler that the component already had is replaced.
    pub fn add_legacy_display_ui(&mut self, name: ComponentName, callback: L)
        ensures
            final(self).legacy_displays() == old(self).legacy_displays().insert(name@, callback),
            final(self).fallback() == old(self).fallback(),
            final(self).singleline_uis() == old(self).singleline_uis(),
            final(self).multiline_uis() == old(self).multiline_uis(),
    {
        self.legacy_display_component_uis.insert(name, callback);
    }

    /// Registers how to view, and maybe edit, the component `name` in a single
    /// list item line.
    ///
    /// A single-line handler that the component already had is replaced.
    pub fn add_singleline_edit_or_view(&mut self, name: ComponentName, callback: E)
        ensures
            final(self).singleline_uis() == old(self).singleline_uis().insert(name@, callback),
            final(self).fallback() == old(self).fallback(),
            final(self).legacy_displays() == old(self).legacy_displays(),
            final(self).multiline_uis() == old(self).multiline_uis(),
    {
        let multiline = false;
        self.add_editor_ui(multiline, name, callback);
    }

    /// Registers how to view, and maybe edit, the component `name` over
    /// several list items.
    ///
    /// A multi-line handler that the component already had is replaced.
    pub fn add_multiline_edit_or_view(&mut self, name: ComponentName, callback: E)
        ensures
            final(self).multiline_uis() == old(self).multiline_uis().insert(name@, callback),
            final(self).fallback() == old(self).fallback(),
            final(self).legacy_displays() == old(self).legacy_displays(),
            final(self).singleline_uis() == old(self).singleline_uis(),
    {
        let multiline = true;
        self.add_editor_ui(multiline, name, callback);
    }

    /// Registers `callback` for `name` in the multi-line table or in the
    /// single-line table.
    fn add_editor_ui(&mut self, multiline: bool, name: ComponentName, callback: E)
        ensures
            final(self).fallback() == old(self).fallback(),
            final(self).legacy_displays() == old(self).legacy_displays(),
            final(self).multiline_uis() == (if multiline {
                old(self).multiline_uis().insert(name@, callback)
            } else {
                old(self).multiline_uis()
            }),
            final(self).singleline_uis() == (if multiline {
                old(self).singleline_uis()
            } else {
                old(self).singleline_uis().insert(name@, callback)
            }),
    {
        if multiline {
            self.component_multiline_edit_or_view.insert(name, callback);
        } else {
            self.component_singleline_edit_or_view.insert(name, callback);
        }
    }

    /// Which kinds of user interface are registered for the component `name`.
    ///
    /// The fallback display, which every component has, is not counted.
    pub fn registered_ui_types(&self, name: &ComponentName) -> (types: ComponentUiTypes)
        ensures
            types@ == self.capabilities(name@),
    {
        let mut types = ComponentUiTypes::empty();
        if self.legacy_display_component_uis.contains_key(name) {
            types.insert(ComponentUiTypes::only(UiCapability::Display));
        }
        if self.component_singleline_edit_or_view.contains_key(name) {
            types.insert(ComponentUiTypes::only(UiCapability::Display));
            types.insert(ComponentUiTypes::only(UiCapability::SingleLineEditor));
        }
        if self.component_multiline_edit_or_view.contains_key(name) {
            types.insert(ComponentUiTypes::only(UiCapability::Display));
            types.insert(ComponentUiTypes::only(UiCapability::MultiLineEditor));
        }
        assert(types@ =~= self.capabilities(name@));
        types
    }

    /// Whether the handler of `route` for `name`, run read-only on `ui` and
    /// `value`, can have shown the value and left `ui` as its final value
    /// says. An edit-or-view handler that declines the value has not shown it.
    pub open spec fn shown_by<Ctx, Ui, Src>(
        &self,
        route: UiRoute,
        name: &ComponentName,
        ctx: &Ctx,
        ui: &mut Ui,
        layout: UiLayout,
        src: &Src,
        cache_key: Option<u64>,
        value: &RawValue,
    ) -> bool where
        L: Fn(&Ctx, &mut Ui, UiLayout, &Src, &ComponentName, Option<u64>, &RawValue),
        E: Fn(&Ctx, &mut Ui, &RawValue, EditOrView) -> TypedOutcome,
     {
        match route {
            UiRoute::Fallback => call_ensures(
                self.fallback(),
                (ctx, ui, layout, src, name, cache_key, value),
                (),
            ),
            UiRoute::LegacyDisplay => call_ensures(
                self.legacy_displays()[name@],
                (ctx, ui, layout, src, name, cache_key, value),
                (),
            ),
            UiRoute::SinglelineView => exists|outcome: TypedOutcome|
                call_ensures(
                    self.singleline_uis()[name@],
                    (ctx, ui, value, EditOrView::View),
                    outcome,
                ) && !outcome.spec_declined(),
            UiRoute::MultilineView => exists|outcome: TypedOutcome|
                call_ensures(
                    self.multiline_uis()[name@],
                    (ctx, ui, value, EditOrView::View),
                    outcome,
                ) && !outcome.spec_declined(),
            _ => false,
        }
    }

    /// Whether the edit-or-view handler of `route` for `name`, run on `ui` and
    /// `value`, can have declined the value and left `ui` as its final value
    /// says.
    pub open spec fn declined_by<Ctx, Ui>(
        &self,
        route: UiRoute,
        name: Seq<char>,
        ctx: &Ctx,
        ui: &mut Ui,
        value: &RawValue,
    ) -> bool where E: Fn(&Ctx, &mut Ui, &RawValue, EditOrView) -> TypedOutcome {
        match route {
            UiRoute::SinglelineView => exists|outcome: TypedOutcome|
                call_ensures(
                    self.singleline_uis()[name],
                    (ctx, ui, value, EditOrView::View),
                    outcome,
                ) && outcome.spec_declined(),
            UiRoute::MultilineView => exists|outcome: TypedOutcome|
                call_ensures(
                    self.multiline_uis()[name],
                    (ctx, ui, value, EditOrView::View),
                    outcome,
                ) && outcome.spec_declined(),
            UiRoute::SinglelineEdit => exists|outcome: TypedOutcome|
                call_ensures(
                    self.singleline_uis()[name],
                    (ctx, ui, value, EditOrView::Edit),
                    outcome,
                ) && outcome.spec_declined(),
            UiRoute::MultilineEdit => exists|outcome: TypedOutcome|
                call_ensures(
                    self.multiline_uis()[name],
                    (ctx, ui, value, EditOrView::Edit),
                    outcome,
                ) && outcome.spec_declined(),
            _ => false,
        }
    }

    /// Whether a display of `value` that ended in `route` can have run as
    /// `first` and `second` say.
    ///
    /// The handler that [`Self::display_route`] names runs first. Where it
    /// shows the value, it is the route and the only call. Where it declines
    /// the value, the route is the fallback, which runs second and shows the
    /// value as it is.
    pub open spec fn displayed_by<Ctx, Ui, Src>(
        &self,
        route: UiRoute,
        name: &ComponentName,
        ctx: &Ctx,
        first: &mut Ui,
        second: &mut Ui,
        layout: UiLayout,
        src: &Src,
        cache_key: Option<u64>,
        value: &RawValue,
    ) -> bool where
        L: Fn(&Ctx, &mut Ui, UiLayout, &Src, &ComponentName, Option<u64>, &RawValue),
        E: Fn(&Ctx, &mut Ui, &RawValue, EditOrView) -> TypedOutcome,
     {
        let chosen = self.display_route(name@, value@.len(), layout);
        if route == chosen {
            self.shown_by(route, name, ctx, first, layout, src, cache_key, value)
        } else {
            &&& route == UiRoute::Fallback
            &&& self.declined_by(chosen, name@, ctx, first, value)
            &&& self.shown_by(UiRoute::Fallback, name, ctx, second, layout, src, cache_key, value)
        }
    }

    /// Shows a single raw component value read-only.
    ///
    /// The handler that [`Self::display_route`] names runs on `value` as it
    /// is. Where that is an edit-or-view handler and it declines the value,
    /// because it cannot decode it, the fallback display shows the value
    /// instead: something is always shown. What an edit-or-view handler
    /// produces is dropped: a display never yields a value to write back.
    pub fn ui_raw<Ctx, Ui, Src>(
        &self,
        ctx: &Ctx,
        ui: &mut Ui,
        ui_layout: UiLayout,
        src: &Src,
        component_name: &ComponentName,
        cache_key: Option<u64>,
        component_raw: &RawValue,
    ) -> (route: UiRoute) where
        L: Fn(&Ctx, &mut Ui, UiLayout, &Src, &ComponentName, Option<u64>, &RawValue),
        E: Fn(&Ctx, &mut Ui, &RawValue, EditOrView) -> TypedOutcome,

        requires
            self.handlers_total::<Ctx, Ui, Src>(),
        ensures
            route == self.display_route(component_name@, component_raw@.len(), ui_layout) || route
                == UiRoute::Fallback,
            exists|first: &mut Ui, second: &mut Ui|
                display_steps(
                    route == self.display_route(
                        component_name@,
                        component_raw@.len(),
                        ui_layout,
                    ),
                    *old(ui),
                    *final(ui),
                    *first,
                    *final(first),
                    *second,
                    *final(second),
                ) && #[trigger] self.displayed_by(
                    route,
                    component_name,
                    ctx,
                    first,
                    second,
                    ui_layout,
                    src,
                    cache_key,
                    component_raw,
                ),
    {
        if component_raw.len() != 1 {
            return self.show_fallback(
                ctx,
                ui,
                ui_layout,
                src,
                component_name,
                cache_key,
                component_raw,
            );
        }
        // Prefer the versatile display callback if there is one.
        if let Some(ui_callback) = self.legacy_display_component_uis.get(component_name) {
            ui_callback(ctx, ui, ui_layout, src, component_name, cache_key, component_raw);
            proof {
                let w = choose|u: &mut Ui|
                    *u == *old(ui) && *final(u) == *ui && #[trigger] call_ensures(
                        *ui_callback,
                        (ctx, u, ui_layout, src, component_name, cache_key, component_raw),
                        (),
                    );
                assert(self.displayed_by(
                    UiRoute::LegacyDisplay,
                    component_name,
                    ctx,
                    w,
                    w,
                    ui_layout,
                    src,
                    cache_key,
                    component_raw,
                ));
            }
            return UiRoute::LegacyDisplay;
        }
        // Then the more specialized callbacks, in view mode.
        if ui_layout == UiLayout::SelectionPanel {
            if let Some(edit_or_view_ui) = self.component_multiline_edit_or_view.get(
                component_name,
            ) {
                return self.view_or_fallback(
                    UiRoute::MultilineView,
                    edit_or_view_ui,
                    ctx,
                    ui,
                    ui_layout,
                    src,
                    component_name,
                    cache_key,
                    component_raw,
                );
            }
        }
        if let Some(edit_or_view_ui) = self.component_singleline_edit_or_view.get(component_name) {
            return self.view_or_fallback(
                UiRoute::SinglelineView,
                edit_or_view_ui,
                ctx,
                ui,
                ui_layout,
                src,
                component_name,
                cache_key,
                component_raw,
            );
        }
        self.show_fallback(ctx, ui, ui_layout, src, component_name, cache_key, component_raw)
    }

    /// Shows `value` with the fallback display, where no other handler is to
    /// show it.
    fn show_fallback<Ctx, Ui, Src>(
        &self,
        ctx: &Ctx,
        ui: &mut Ui,
        ui_layout: UiLayout,
        src: &Src,
        component_name: &ComponentName,
        cache_key: Option<u64>,
        component_raw: &RawValue,
    ) -> (route: UiRoute) where
        L: Fn(&Ctx, &mut Ui, UiLayout, &Src, &ComponentName, Option<u64>, &RawValue),
        E: Fn(&Ctx, &mut Ui, &RawValue, EditOrView) -> TypedOutcome,

        requires
            self.handlers_total::<Ctx, Ui, Src>(),
        ensures
            route == UiRoute::Fallback,
            exists|u: &mut Ui|
                *u == *old(ui) && *final(u) == *final(ui) && #[trigger] self.shown_by(
                    UiRoute::Fallback,
                    component_name,
                    ctx,
                    u,
                    ui_layout,
                    src,
                    cache_key,
                    component_raw,
                ),
            self.display_route(component_name@, component_raw@.len(), ui_layout)
                == UiRoute::Fallback ==> exists|first: &mut Ui, second: &mut Ui|
                display_steps(
                    true,
                    *old(ui),
                    *final(ui),
                    *first,
                    *final(first),
                    *second,
                    *final(second),
                ) && #[trigger] self.displayed_by(
                    route,
                    component_name,
                    ctx,
                    first,
                    second,
                    ui_layout,
                    src,
                    cache_key,
                    component_raw,
                ),
    {
        (self.fallback_ui)(ctx, ui, ui_layout, src, component_name, cache_key, component_raw);
        proof {
            let w = choose|u: &mut Ui|
                *u == *old(ui) && *final(u) == *ui && #[trigger] call_ensures(
                    self.fallback_ui,
                    (ctx, u, ui_layout, src, component_name, cache_key, component_raw),
                    (),
                );
            assert(self.shown_by(
                UiRoute::Fallback,
                component_name,
                ctx,
                w,
                ui_layout,
                src,
                cache_key,
                component_raw,
            ));
            if self.display_route(component_name@, component_raw@.len(), ui_layout)
                == UiRoute::Fallback {
                assert(self.displayed_by(
                    UiRoute::Fallback,
                    component_name,
                    ctx,
                    w,
                    w,
                    ui_layout,
                    src,
                    cache_key,
                    component_raw,
                ));
            }
        }
        UiRoute::Fallback
    }

    /// Shows `value` with the edit-or-view handler that was chosen for it, in
    /// view mode, and with the fallback display where that handler declines.
    fn view_or_fallback<Ctx, Ui, Src>(
        &self,
        chosen: UiRoute,
        edit_or_view_ui: &E,
        ctx: &Ctx,
        ui: &mut Ui,
        ui_layout: UiLayout,
        src: &Src,
        component_name: &ComponentName,
        cache_key: Option<u64>,
        component_raw: &RawValue,
    ) -> (route: UiRoute) where
        L: Fn(&Ctx, &mut Ui, UiLayout, &Src, &ComponentName, Option<u64>, &RawValue),
        E: Fn(&Ctx, &mut Ui, &RawValue, EditOrView) -> TypedOutcome,

        requires
            self.handlers_total::<Ctx, Ui, Src>(),
            chosen == self.display_route(component_name@, component_raw@.len(), ui_layout),
            chosen == UiRoute::SinglelineView || chosen == UiRoute::MultilineView,
            chosen == UiRoute::SinglelineView ==> self.singleline_uis().contains_key(
                component_name@,
            ) && *edit_or_view_ui == self.singleline_uis()[component_name@],
            chosen == UiRoute::MultilineView ==> self.multiline_uis().contains_key(
                component_name@,
            ) && *edit_or_view_ui == self.multiline_uis()[component_name@],
        ensures
            route == chosen || route == UiRoute::Fallback,
            exists|first: &mut Ui, second: &mut Ui|
                display_steps(
                    route == chosen,
                    *old(ui),
                    *final(ui),
                    *first,
                    *final(first),
                    *second,
                    *final(second),
                ) && #[trigger] self.displayed_by(
                    route,
                    component_name,
                    ctx,
                    first,
                    second,
                    ui_layout,
                    src,
                    cache_key,
                    component_raw,
                ),
    {
        let outcome = edit_or_view_ui(ctx, ui, component_raw, EditOrView::View);
        let ghost mid = *ui;
        assert(exists|u: &mut Ui|
            *u == *old(ui) && *final(u) == mid && #[trigger] call_ensures(
                *edit_or_view_ui,
                (ctx, u, component_raw, EditOrView::View),
                outcome,
            ));
        if outcome.declined() {
            // The handler could not take the value: show it all the same.
            let route = self.show_fallback(
                ctx,
                ui,
                ui_layout,
                src,
                component_name,
                cache_key,
                component_raw,
            );
            proof {
                let first = choose|u: &mut Ui|
                    *u == *old(ui) && *final(u) == mid && #[trigger] call_ensures(
                        *edit_or_view_ui,
                        (ctx, u, component_raw, EditOrView::View),
                        outcome,
                    );
                let second = choose|u: &mut Ui|
                    *u == mid && *final(u) == *ui && #[trigger] self.shown_by(
                        UiRoute::Fallback,
                        component_name,
                        ctx,
                        u,
                        ui_layout,
                        src,
                        cache_key,
                        component_raw,
                    );
                assert(self.declined_by(chosen, component_name@, ctx, first, component_raw));
                assert(self.displayed_by(
                    route,
                    component_name,
                    ctx,
                    first,
                    second,
                    ui_layout,
                    src,
                    cache_key,
                    component_raw,
                ));
            }
            route
        } else {
            proof {
                let first = choose|u: &mut Ui|
                    *u == *old(ui) && *final(u) == mid && #[trigger] call_ensures(
                        *edit_or_view_ui,
                        (ctx, u, component_raw, EditOrView::View),
                        outcome,
                    );
                assert(self.shown_by(
                    chosen,
                    component_name,
                    ctx,
                    first,
                    ui_layout,
                    src,
                    cache_key,
                    component_raw,
                ));
                assert(self.displayed_by(
                    chosen,
                    component_name,
                    ctx,
                    first,
                    first,
                    ui_layout,
                    src,
                    cache_key,
                    component_raw,
                ));
            }
            chosen
        }
    }

    /// Shows one instance of a batch of component values read-only.
    ///
    /// Without a batch nothing is shown and `None` comes back. An empty batch,
    /// and all instances of a batch of more than one, go whole to the fallback
    /// display, without a cache key. Else the selected instance alone, sliced
    /// out of the batch, is shown as [`Self::ui_raw`] shows a batch of one; an
    /// index beyond the batch selects the last instance.
    pub fn ui<Ctx, Ui, Src>(
        &self,
        ctx: &Ctx,
        ui: &mut Ui,
        ui_layout: UiLayout,
        src: &Src,
        component_name: &ComponentName,
        cache_key: Option<u64>,
        batch: Option<&RawValue>,
        instance: &Instance,
    ) -> (shown_as: Option<UiRoute>) where
        L: Fn(&Ctx, &mut Ui, UiLayout, &Src, &ComponentName, Option<u64>, &RawValue),
        E: Fn(&Ctx, &mut Ui, &RawValue, EditOrView) -> TypedOutcome,

        requires
            self.handlers_total::<Ctx, Ui, Src>(),
        ensures
            batch is None ==> shown_as is None && *final(ui) == *old(ui),
            batch matches Some(array) ==> shown_as matches Some(route) && (route
                == self.instance_route(component_name@, array@.len(), *instance, ui_layout)
                || route == UiRoute::Fallback) && exists|
                first: &mut Ui,
                second: &mut Ui,
                shown: &RawValue,
            |
                shown@ == shown_items(array@, *instance) && display_steps(
                    route == self.instance_route(
                        component_name@,
                        array@.len(),
                        *instance,
                        ui_layout,
                    ),
                    *old(ui),
                    *final(ui),
                    *first,
                    *final(first),
                    *second,
                    *final(second),
                ) && #[trigger] self.displayed_by(
                    route,
                    component_name,
                    ctx,
                    first,
                    second,
                    ui_layout,
                    src,
                    shown_cache_key(array@.len(), *instance, cache_key),
                    shown,
                ),
    {
        let Some(array) = batch else {
            return None;
        };
        // A component handler can only show a single instance.
        match select_element(array, *instance) {
            None => {
                assert(array@ == shown_items(array@, *instance));
                let route = self.show_fallback(
                    ctx,
                    ui,
                    ui_layout,
                    src,
                    component_name,
                    None,
                    array,
                );
                proof {
                    let (first, second) = choose|first: &mut Ui, second: &mut Ui|
                        display_steps(
                            true,
                            *old(ui),
                            *ui,
                            *first,
                            *final(first),
                            *second,
                            *final(second),
                        ) && #[trigger] self.displayed_by(
                            route,
                            component_name,
                            ctx,
                            first,
                            second,
                            ui_layout,
                            src,
                            None,
                            array,
                        );
                    assert(self.displayed_by(
                        route,
                        component_name,
                        ctx,
                        first,
                        second,
                        ui_layout,
                        src,
                        shown_cache_key(array@.len(), *instance, cache_key),
                        array,
                    ));
                }
                Some(route)
            },
            Some(component_raw) => {
                assert(component_raw@.len() == 1);
                assert(component_raw@ == shown_items(array@, *instance));
                let route = self.ui_raw(
                    ctx,
                    ui,
                    ui_layout,
                    src,
                    component_name,
                    cache_key,
                    &component_raw,
                );
                proof {
                    let (first, second) = choose|first: &mut Ui, second: &mut Ui|
                        display_steps(
                            route == self.display_route(component_name@, 1, ui_layout),
                            *old(ui),
                            *ui,
                            *first,
                            *final(first),
                            *second,
                            *final(second),
                        ) && #[trigger] self.displayed_by(
                            route,
                            component_name,
                            ctx,
                            first,
                            second,
                            ui_layout,
                            src,
                            cache_key,
                            &component_raw,
                        );
                    assert(self.displayed_by(
                        route,
                        component_name,
                        ctx,
                        first,
                        second,
                        ui_layout,
                        src,
                        shown_cache_key(array@.len(), *instance, cache_key),
                        &component_raw,
                    ));
                }
                Some(route)
            },
        }
    }

    /// Whether the editor of `route` for `name`, run on `ui` and `value`, can
    /// have taken the value, produced `produced` and left `ui` as its final
    /// value says.
    pub open spec fn edited_by<Ctx, Ui>(
        &self,
        route: UiRoute,
        name: Seq<char>,
        ctx: &Ctx,
        ui: &mut Ui,
        value: &RawValue,
        produced: Option<RawValue>,
    ) -> bool where E: Fn(&Ctx, &mut Ui, &RawValue, EditOrView) -> TypedOutcome {
        match route {
            UiRoute::SinglelineEdit => exists|outcome: TypedOutcome|
                call_ensures(
                    self.singleline_uis()[name],
                    (ctx, ui, value, EditOrView::Edit),
                    outcome,
                ) && !outcome.spec_declined() && outcome.produced == produced,
            UiRoute::MultilineEdit => exists|outcome: TypedOutcome|
                call_ensures(
                    self.multiline_uis()[name],
                    (ctx, ui, value, EditOrView::Edit),
                    outcome,
                ) && !outcome.spec_declined() && outcome.produced == produced,
            _ => false,
        }
    }

    /// Whether an edit call on `value` that ended in `route`, with `produced`
    /// to write back, can have run as `editor`, `first` and `second` say.
    ///
    /// The editor that [`Self::edit_route`] names runs first. Where it takes
    /// the value it is the route, and what it produces is written back.
    /// Where it declines the value, or where there is no editor, nothing is
    /// written back and the value is displayed as in a list: see
    /// [`Self::displayed_by`].
    pub open spec fn handled_by<Ctx, Ui, Src>(
        &self,
        route: UiRoute,
        name: &ComponentName,
        ctx: &Ctx,
        editor: &mut Ui,
        first: &mut Ui,
        second: &mut Ui,
        src: &Src,
        cache_key: Option<u64>,
        value: &RawValue,
        produced: Option<RawValue>,
        allow_multiline: bool,
    ) -> bool where
        L: Fn(&Ctx, &mut Ui, UiLayout, &Src, &ComponentName, Option<u64>, &RawValue),
        E: Fn(&Ctx, &mut Ui, &RawValue, EditOrView) -> TypedOutcome,
     {
        match self.edit_route(name@, value@.len(), allow_multiline) {
            Some(edit) => if route == edit {
                self.edited_by(edit, name@, ctx, editor, value, produced)
            } else {
                &&& produced is None
                &&& self.declined_by(edit, name@, ctx, editor, value)
                &&& self.displayed_by(
                    route,
                    name,
                    ctx,
                    first,
                    second,
                    UiLayout::List,
                    src,
                    cache_key,
                    value,
                )
            },
            None => {
                &&& produced is None
                &&& self.displayed_by(
                    route,
                    name,
                    ctx,
                    first,
                    second,
                    UiLayout::List,
                    src,
                    cache_key,
                    value,
                )
            },
        }
    }

    /// Runs the editor that was chosen for a value. `None` comes back where
    /// it declines the value.
    fn edit_with<Ctx, Ui, W>(
        &self,
        route: UiRoute,
        edit_or_view: &E,
        ctx: &Ctx,
        ui: &mut Ui,
        raw_current_value: &RawValue,
        blueprint_write_path: W,
        component_name: &ComponentName,
    ) -> (shown: Option<EditOutcome<W>>) where
        E: Fn(&Ctx, &mut Ui, &RawValue, EditOrView) -> TypedOutcome,

        requires
            self.editors_total::<Ctx, Ui>(),
            route == UiRoute::SinglelineEdit || route == UiRoute::MultilineEdit,
            route == UiRoute::SinglelineEdit ==> self.singleline_uis().contains_key(
                component_name@,
            ) && *edit_or_view == self.singleline_uis()[component_name@],
            route == UiRoute::MultilineEdit ==> self.multiline_uis().contains_key(
                component_name@,
            ) && *edit_or_view == self.multiline_uis()[component_name@],
        ensures
            shown matches Some(outcome) ==> outcome.route == route && exists|
                u: &mut Ui,
                produced: Option<RawValue>,
            |
                *u == *old(ui) && *final(u) == *final(ui) && commit_matches(
                    outcome.commit,
                    produced,
                    blueprint_write_path,
                    component_name@,
                ) && #[trigger] self.edited_by(
                    route,
                    component_name@,
                    ctx,
                    u,
                    raw_current_value,
                    produced,
                ),
            shown is None ==> exists|u: &mut Ui|
                *u == *old(ui) && *final(u) == *final(ui) && #[trigger] self.declined_by(
                    route,
                    component_name@,
                    ctx,
                    u,
                    raw_current_value,
                ),
    {
        let updated = edit_or_view(ctx, ui, raw_current_value, EditOrView::Edit);
        if updated.declined() {
            proof {
                let w = choose|u: &mut Ui|
                    *u == *old(ui) && *final(u) == *ui && #[trigger] call_ensures(
                        *edit_or_view,
                        (ctx, u, raw_current_value, EditOrView::Edit),
                        updated,
                    );
                assert(self.declined_by(route, component_name@, ctx, w, raw_current_value));
            }
            None
        } else {
            proof {
                let w = choose|u: &mut Ui|
                    *u == *old(ui) && *final(u) == *ui && #[trigger] call_ensures(
                        *edit_or_view,
                        (ctx, u, raw_current_value, EditOrView::Edit),
                        updated,
                    );
                assert(self.edited_by(
                    route,
                    component_name@,
                    ctx,
                    w,
                    raw_current_value,
                    updated.produced,
                ));
            }
            let commit = commit_of(updated.produced, blueprint_write_path, component_name);
            Some(EditOutcome { route, commit })
        }
    }

    /// Tries to show an editor for a component value.
    ///
    /// An editor runs exactly when the value is a single instance and the
    /// component has an editor of the kind asked for: see
    /// [`Self::edit_route`]. Where it takes the value, what it produces
    /// becomes the commit, unchanged, under `component_name` and
    /// `blueprint_write_path`. `None` comes back where there is no such
    /// editor, and nothing is drawn then; and where the editor declines the
    /// value because it cannot decode it.
    pub fn try_show_edit_ui<Ctx, Ui, W>(
        &self,
        ctx: &Ctx,
        ui: &mut Ui,
        raw_current_value: &RawValue,
        blueprint_write_path: W,
        component_name: &ComponentName,
        allow_multiline: bool,
    ) -> (shown: Option<EditOutcome<W>>) where
        E: Fn(&Ctx, &mut Ui, &RawValue, EditOrView) -> TypedOutcome,

        requires
            self.editors_total::<Ctx, Ui>(),
        ensures
            shown matches Some(outcome) ==> Some(outcome.route) == self.edit_route(
                component_name@,
                raw_current_value@.len(),
                allow_multiline,
            ) && exists|u: &mut Ui, produced: Option<RawValue>|
                *u == *old(ui) && *final(u) == *final(ui) && commit_matches(
                    outcome.commit,
                    produced,
                    blueprint_write_path,
                    component_name@,
                ) && #[trigger] self.edited_by(
                    outcome.route,
                    component_name@,
                    ctx,
                    u,
                    raw_current_value,
                    produced,
                ),
            shown is None ==> (match self.edit_route(
                component_name@,
                raw_current_value@.len(),
                allow_multiline,
            ) {
                None => *final(ui) == *old(ui),
                Some(edit) => exists|u: &mut Ui|
                    *u == *old(ui) && *final(u) == *final(ui) && #[trigger] self.declined_by(
                        edit,
                        component_name@,
                        ctx,
                        u,
                        raw_current_value,
                    ),
            }),
    {
        if raw_current_value.len() != 1 {
            return None;
        }
        if allow_multiline {
            if let Some(edit_or_view) = self.component_multiline_edit_or_view.get(component_name) {
                return self.edit_with(
                    UiRoute::MultilineEdit,
                    edit_or_view,
                    ctx,
                    ui,
                    raw_current_value,
                    blueprint_write_path,
                    component_name,
                );
            }
        }
        if let Some(edit_or_view) = self.component_singleline_edit_or_view.get(component_name) {
            return self.edit_with(
                UiRoute::SinglelineEdit,
                edit_or_view,
                ctx,
                ui,
                raw_current_value,
                blueprint_write_path,
                component_name,
            );
        }
        None
    }

    /// Shows an editor for a component value, or the value read-only where it
    /// cannot be edited.
    ///
    /// The editor is the one that [`Self::edit_route`] names. Without one,
    /// and where the editor declines the value, the value is displayed as in
    /// a list, by [`Self::ui_raw`], and nothing is to be written back.
    pub fn edit_ui_raw<Ctx, Ui, Src, W>(
        &self,
        ctx: &Ctx,
        ui: &mut Ui,
        src: &Src,
        blueprint_write_path: W,
        component_name: &ComponentName,
        cache_key: Option<u64>,
        component_raw: &RawValue,
        allow_multiline: bool,
    ) -> (outcome: EditOutcome<W>) where
        L: Fn(&Ctx, &mut Ui, UiLayout, &Src, &ComponentName, Option<u64>, &RawValue),
        E: Fn(&Ctx, &mut Ui, &RawValue, EditOrView) -> TypedOutcome,

        requires
            self.handlers_total::<Ctx, Ui, Src>(),
        ensures
            !outcome.route.spec_is_edit() ==> outcome.commit is None,
            exists|
                editor: &mut Ui,
                first: &mut Ui,
                second: &mut Ui,
                produced: Option<RawValue>,
            |
                edit_steps(
                    self.edit_route(component_name@, component_raw@.len(), allow_multiline) is Some,
                    self.edit_route(component_name@, component_raw@.len(), allow_multiline) == Some(outcome.route),
                    outcome.route == self.display_route(
                        component_name@,
                        component_raw@.len(),
                        UiLayout::List,
                    ),
                    *old(ui),
                    *final(ui),
                    *editor,
                    *final(editor),
                    *first,
                    *final(first),
                    *second,
                    *final(second),
                ) && commit_matches(
                    outcome.commit,
                    produced,
                    blueprint_write_path,
                    component_name@,
                ) && #[trigger] self.handled_by(
                    outcome.route,
                    component_name,
                    ctx,
                    editor,
                    first,
                    second,
                    src,
                    cache_key,
                    component_raw,
                    produced,
                    allow_multiline,
                ),
    {
        let shown = self.try_show_edit_ui(
            ctx,
            ui,
            component_raw,
            blueprint_write_path,
            component_name,
            allow_multiline,
        );
        let ghost mid = *ui;
        let ghost edit = self.edit_route(component_name@, component_raw@.len(), allow_multiline);
        match shown {
            Some(outcome) => {
                proof {
                    let (w, produced) = choose|u: &mut Ui, produced: Option<RawValue>|
                        *u == *old(ui) && *final(u) == mid && commit_matches(
                            outcome.commit,
                            produced,
                            blueprint_write_path,
                            component_name@,
                        ) && #[trigger] self.edited_by(
                            outcome.route,
                            component_name@,
                            ctx,
                            u,
                            component_raw,
                            produced,
                        );
                    assert(self.handled_by(
                        outcome.route,
                        component_name,
                        ctx,
                        w,
                        w,
                        w,
                        src,
                        cache_key,
                        component_raw,
                        produced,
                        allow_multiline,
                    ));
                }
                outcome
            },
            None => {
                assert(edit matches Some(declining) ==> exists|u: &mut Ui|
                    *u == *old(ui) && *final(u) == mid && #[trigger] self.declined_by(
                        declining,
                        component_name@,
                        ctx,
                        u,
                        component_raw,
                    ));
                // Even if the component cannot be edited, it helps to show its value.
                let route = self.ui_raw(
                    ctx,
                    ui,
                    UiLayout::List,
                    src,
                    component_name,
                    cache_key,
                    component_raw,
                );
                proof {
                    let (first, second) = choose|first: &mut Ui, second: &mut Ui|
                        display_steps(
                            route == self.display_route(
                                component_name@,
                                component_raw@.len(),
                                UiLayout::List,
                            ),
                            mid,
                            *ui,
                            *first,
                            *final(first),
                            *second,
                            *final(second),
                        ) && #[trigger] self.displayed_by(
                            route,
                            component_name,
                            ctx,
                            first,
                            second,
                            UiLayout::List,
                            src,
                            cache_key,
                            component_raw,
                        );
                    let editor = match edit {
                        Some(declining) => choose|u: &mut Ui|
                            *u == *old(ui) && *final(u) == mid && #[trigger] self.declined_by(
                                declining,
                                component_name@,
                                ctx,
                                u,
                                component_raw,
                            ),
                        None => first,
                    };
                    assert(self.handled_by(
                        route,
                        component_name,
                        ctx,
                        editor,
                        first,
                        second,
                        src,
                        cache_key,
                        component_raw,
                        None,
                        allow_multiline,
                    ));
                }
                EditOutcome { route, commit: None }
            },
        }
    }

    /// Shows a multi-line editor for a component.
    ///
    /// The edit starts from `component_array` where it holds an instance, else
    /// from what `fallback_provider` gives. A multi-line editor comes first,
    /// then a single-line one; without either, or where the editor declines
    /// the value, the value is displayed read-only. What the editor produces
    /// is handed back to be written at `blueprint_write_path`.
    pub fn multiline_edit_ui<Ctx, Ui, Src, W, P>(
        &self,
        ctx: &Ctx,
        ui: &mut Ui,
        src: &Src,
        blueprint_write_path: W,
        component_name: &ComponentName,
        cache_key: Option<u64>,
        component_array: Option<&RawValue>,
        fallback_provider: &P,
    ) -> (outcome: EditOutcome<W>) where
        L: Fn(&Ctx, &mut Ui, UiLayout, &Src, &ComponentName, Option<u64>, &RawValue),
        E: Fn(&Ctx, &mut Ui, &RawValue, EditOrView) -> TypedOutcome,
        P: Fn(&Ctx, &Src, &ComponentName) -> RawValue,

        requires
            self.handlers_total::<Ctx, Ui, Src>(),
            forall|c: &Ctx, s: &Src, n: &ComponentName| call_requires(*fallback_provider, (c, s, n)),
        ensures
            !outcome.route.spec_is_edit() ==> outcome.commit is None,
            exists|
                editor: &mut Ui,
                first: &mut Ui,
                second: &mut Ui,
                produced: Option<RawValue>,
                used: &RawValue,
            |
                edit_source(
                    component_array,
                    fallback_provider,
                    ctx,
                    src,
                    component_name,
                    used,
                ) && edit_steps(
                    self.edit_route(component_name@, used@.len(), true) is Some,
                    self.edit_route(component_name@, used@.len(), true) == Some(outcome.route),
                    outcome.route == self.display_route(
                        component_name@,
                        used@.len(),
                        UiLayout::List,
                    ),
                    *old(ui),
                    *final(ui),
                    *editor,
                    *final(editor),
                    *first,
                    *final(first),
                    *second,
                    *final(second),
                ) && commit_matches(
                    outcome.commit,
                    produced,
                    blueprint_write_path,
                    component_name@,
                ) && #[trigger] self.handled_by(
                    outcome.route,
                    component_name,
                    ctx,
                    editor,
                    first,
                    second,
                    src,
                    cache_key,
                    used,
                    produced,
                    true,
                ),
    {
        let multiline = true;
        self.edit_ui(
            ctx,
            ui,
            src,
            blueprint_write_path,
            component_name,
            cache_key,
            component_array,
            fallback_provider,
            multiline,
        )
    }

    /// Shows a single-line editor for a component.
    ///
    /// The edit starts from `component_array` where it holds an instance, else
    /// from what `fallback_provider` gives. Only a single-line editor is used;
    /// without one, or where it declines the value, the value is displayed
    /// read-only. What the editor produces is handed back to be written at
    /// `blueprint_write_path`.
    pub fn singleline_edit_ui<Ctx, Ui, Src, W, P>(
        &self,
        ctx: &Ctx,
        ui: &mut Ui,
        src: &Src,
        blueprint_write_path: W,
        component_name: &ComponentName,
        cache_key: Option<u64>,
        component_array: Option<&RawValue>,
        fallback_provider: &P,
    ) -> (outcome: EditOutcome<W>) where
        L: Fn(&Ctx, &mut Ui, UiLayout, &Src, &ComponentName, Option<u64>, &RawValue),
        E: Fn(&Ctx, &mut Ui, &RawValue, EditOrView) -> TypedOutcome,
        P: Fn(&Ctx, &Src, &ComponentName) -> RawValue,

        requires
            self.handlers_total::<Ctx, Ui, Src>(),
            forall|c: &Ctx, s: &Src, n: &ComponentName| call_requires(*fallback_provider, (c, s, n)),
        ensures
            !outcome.route.spec_is_edit() ==> outcome.commit is None,
            exists|
                editor: &mut Ui,
                first: &mut Ui,
                second: &mut Ui,
                produced: Option<RawValue>,
                used: &RawValue,
            |
                edit_source(
                    component_array,
                    fallback_provider,
                    ctx,
                    src,
                    component_name,
                    used,
                ) && edit_steps(
                    self.edit_route(component_name@, used@.len(), false) is Some,
                    self.edit_route(component_name@, used@.len(), false) == Some(outcome.route),
                    outcome.route == self.display_route(
                        component_name@,
                        used@.len(),
                        UiLayout::List,
                    ),
                    *old(ui),
                    *final(ui),
                    *editor,
                    *final(editor),
                    *first,
                    *final(first),
                    *second,
                    *final(second),
                ) && commit_matches(
                    outcome.commit,
                    produced,
                    blueprint_write_path,
                    component_name@,
                ) && #[trigger] self.handled_by(
                    outcome.route,
                    component_name,
                    ctx,
                    editor,
                    first,
                    second,
                    src,
                    cache_key,
                    used,
                    produced,
                    false,
                ),
    {
        let multiline = false;
        self.edit_ui(
            ctx,
            ui,
            src,
            blueprint_write_path,
            component_name,
            cache_key,
            component_array,
            fallback_provider,
            multiline,
        )
    }

    /// Shows an editor for a component, starting from the stored batch or,
    /// where there is none or it is empty, from the provider's fallback value.
    fn edit_ui<Ctx, Ui, Src, W, P>(
        &self,
        ctx: &Ctx,
        ui: &mut Ui,
        src: &Src,
        blueprint_write_path: W,
        component_name: &ComponentName,
        cache_key: Option<u64>,
        component_array: Option<&RawValue>,
        fallback_provider: &P,
        allow_multiline: bool,
    ) -> (outcome: EditOutcome<W>) where
        L: Fn(&Ctx, &mut Ui, UiLayout, &Src, &ComponentName, Option<u64>, &RawValue),
        E: Fn(&Ctx, &mut Ui, &RawValue, EditOrView) -> TypedOutcome,
        P: Fn(&Ctx, &Src, &ComponentName) -> RawValue,

        requires
            self.handlers_total::<Ctx, Ui, Src>(),
            forall|c: &Ctx, s: &Src, n: &ComponentName| call_requires(*fallback_provider, (c, s, n)),
        ensures
            !outcome.route.spec_is_edit() ==> outcome.commit is None,
            exists|
                editor: &mut Ui,
                first: &mut Ui,
                second: &mut Ui,
                produced: Option<RawValue>,
                used: &RawValue,
            |
                edit_source(
                    component_array,
                    fallback_provider,
                    ctx,
                    src,
                    component_name,
                    used,
                ) && edit_steps(
                    self.edit_route(component_name@, used@.len(), allow_multiline) is Some,
                    self.edit_route(component_name@, used@.len(), allow_multiline) == Some(outcome.route),
                    outcome.route == self.display_route(
                        component_name@,
                        used@.len(),
                        UiLayout::List,
                    ),
                    *old(ui),
                    *final(ui),
                    *editor,
                    *final(editor),
                    *first,
                    *final(first),
                    *second,
                    *final(second),
                ) && commit_matches(
                    outcome.commit,
                    produced,
                    blueprint_write_path,
                    component_name@,
                ) && #[trigger] self.handled_by(
                    outcome.route,
                    component_name,
                    ctx,
                    editor,
                    first,
                    second,
                    src,
                    cache_key,
                    used,
                    produced,
                    allow_multiline,
                ),
    {
        // Use a fallback if there is no component data at all or the batch is empty.
        let use_stored = match component_array {
            Some(array) => !array.is_empty(),
            None => false,
        };
        if use_stored {
            let array = component_array.unwrap();
            let outcome = self.edit_ui_raw(
                ctx,
                ui,
                src,
                blueprint_write_path,
                component_name,
                cache_key,
                array,
                allow_multiline,
            );
            outcome
        } else {
            let fallback = fallback_provider(ctx, src, component_name);
            let outcome = self.edit_ui_raw(
                ctx,
                ui,
                src,
                blueprint_write_path,
                component_name,
                cache_key,
                &fallback,
                allow_multiline,
            );
            outcome
        }
    }
}

/// A component without any registered handler is shown by the fallback
/// display, from the display calls and from the edit calls alike, whatever
/// the batch, the instance and the layout; it has no capability, and an edit
/// call on it goes to no editor.
pub proof fn lemma_unregistered_uses_fallback<L, E>(
    registry: ComponentUiRegistry<L, E>,
    name: Seq<char>,
    len: nat,
    instance: Instance,
    layout: UiLayout,
    allow_multiline: bool,
)
    requires
        !registry.legacy_displays().contains_key(name),
        !registry.singleline_uis().contains_key(name),
        !registry.multiline_uis().contains_key(name),
    ensures
        registry.display_route(name, len, layout) == UiRoute::Fallback,
        registry.instance_route(name, len, instance, layout) == UiRoute::Fallback,
        registry.edit_route(name, len, allow_multiline) is None,
        registry.edit_or_display_route(name, len, allow_multiline) == UiRoute::Fallback,
        registry.capabilities(name) == Set::<UiCapability>::empty(),
{
    assert(registry.capabilities(name) =~= Set::<UiCapability>::empty());
}

/// An empty batch never reaches a registered handler: it goes whole to the
/// fallback display, and no editor is shown for it.
pub proof fn lemma_empty_batch_uses_fallback<L, E>(
    registry: ComponentUiRegistry<L, E>,
    name: Seq<char>,
    items: Seq<int>,
    instance: Instance,
    layout: UiLayout,
    allow_multiline: bool,
)
    requires
        items.len() == 0,
    ensures
        registry.display_route(name, items.len(), layout) == UiRoute::Fallback,
        registry.instance_route(name, items.len(), instance, layout) == UiRoute::Fallback,
        registry.edit_route(name, items.len(), allow_multiline) is None,
        registry.edit_or_display_route(name, items.len(), allow_multiline) == UiRoute::Fallback,
        shown_items(items, instance) == items,
{
}

/// All instances of a batch of more than one never reach a handler that
/// shows a single value: the whole batch, with its count, goes to the
/// fallback display.
pub proof fn lemma_all_of_many_uses_fallback<L, E>(
    registry: ComponentUiRegistry<L, E>,
    name: Seq<char>,
    items: Seq<int>,
    instance: Instance,
    layout: UiLayout,
)
    requires
        items.len() > 1,
        instance.spec_is_all(),
    ensures
        registry.instance_route(name, items.len(), instance, layout) == UiRoute::Fallback,
        shown_items(items, instance) == items,
        shown_items(items, instance).len() == items.len(),
{
}

/// A batch of one goes first to exactly the first handler that is there, in
/// this order: the display-only handler; in the selection panel the
/// multi-line handler; the single-line handler; the fallback. Outside the
/// selection panel a multi-line handler is never used. Which instance is
/// asked for makes no difference.
pub proof fn lemma_display_precedence<L, E>(
    registry: ComponentUiRegistry<L, E>,
    name: Seq<char>,
    instance: Instance,
    layout: UiLayout,
)
    ensures
        registry.instance_route(name, 1, instance, layout) == registry.display_route(
            name,
            1,
            layout,
        ),
        registry.legacy_displays().contains_key(name) ==> registry.display_route(name, 1, layout)
            == UiRoute::LegacyDisplay,
        !registry.legacy_displays().contains_key(name) && layout == UiLayout::SelectionPanel
            && registry.multiline_uis().contains_key(name) ==> registry.display_route(
            name,
            1,
            layout,
        ) == UiRoute::MultilineView,
        !registry.legacy_displays().contains_key(name) && !(layout == UiLayout::SelectionPanel
            && registry.multiline_uis().contains_key(name)) && registry.singleline_uis().contains_key(
            name,
        ) ==> registry.display_route(name, 1, layout) == UiRoute::SinglelineView,
        !registry.legacy_displays().contains_key(name) && !(layout == UiLayout::SelectionPanel
            && registry.multiline_uis().contains_key(name)) && !registry.singleline_uis().contains_key(
            name,
        ) ==> registry.display_route(name, 1, layout) == UiRoute::Fallback,
        layout != UiLayout::SelectionPanel ==> registry.display_route(name, 1, layout)
            != UiRoute::MultilineView,
{
}

/// A display call never goes to an editor, so it never yields a value to
/// write back; and an edit call that went to no editor yields none either.
/// The route of a call depends on the registry and on the arguments alone,
/// so repeating a display call repeats the same display.
pub proof fn lemma_display_never_edits<L, E>(
    registry: ComponentUiRegistry<L, E>,
    name: Seq<char>,
    len: nat,
    instance: Instance,
    layout: UiLayout,
)
    ensures
        !registry.display_route(name, len, layout).spec_is_edit(),
        !registry.instance_route(name, len, instance, layout).spec_is_edit(),
        forall|allow_multiline: bool|
            !(#[trigger] registry.edit_or_display_route(name, len, allow_multiline)).spec_is_edit()
                ==> registry.edit_or_display_route(name, len, allow_multiline)
                == registry.display_route(name, len, UiLayout::List),
{
}

/// An edit call never goes to a display-only handler as an editor: its
/// editor is the multi-line handler, where several lines are allowed, or the
/// single-line one. It is a display exactly when the edit route is none.
pub proof fn lemma_edit_precedence<L, E>(
    registry: ComponentUiRegistry<L, E>,
    name: Seq<char>,
    len: nat,
    allow_multiline: bool,
)
    ensures
        registry.edit_route(name, len, allow_multiline) matches Some(route) ==> len == 1
            && route.spec_is_edit() && route == (if allow_multiline
            && registry.multiline_uis().contains_key(name) {
            UiRoute::MultilineEdit
        } else {
            UiRoute::SinglelineEdit
        }),
        registry.edit_or_display_route(name, len, allow_multiline).spec_is_edit()
            == registry.edit_route(name, len, allow_multiline).is_some(),
        !allow_multiline ==> registry.edit_or_display_route(name, len, allow_multiline)
            != UiRoute::MultilineEdit,
{
}

/// Once an editor is registered for a component, an edit of a single
/// instance goes to it: the last registration wins. What that editor
/// produces decides the commit: a produced value is committed once, as it
/// is, under the component's name and the call's write path; without a
/// produced value nothing is committed.
pub proof fn lemma_edit_round_trip<L, E, W>(
    before: ComponentUiRegistry<L, E>,
    after: ComponentUiRegistry<L, E>,
    name: Seq<char>,
    callback: E,
    produced: Option<RawValue>,
    commit: Option<Commit<W>>,
    write_path: W,
)
    requires
        after.singleline_uis() == before.singleline_uis().insert(name, callback),
        after.multiline_uis() == before.multiline_uis(),
        commit_matches(commit, produced, write_path, name),
    ensures
        after.edit_route(name, 1, false) == Some(UiRoute::SinglelineEdit),
        !after.multiline_uis().contains_key(name) ==> after.edit_route(name, 1, true) == Some(
            UiRoute::SinglelineEdit,
        ),
        after.singleline_uis()[name] == callback,
        produced matches Some(value) ==> commit matches Some(c) && c.value == value
            && c.component_name@ == name && c.write_path == write_path,
        produced is None ==> commit is None,
{
}

/// Registering a handler for one component changes nothing for another.
pub proof fn lemma_registration_is_local<L, E>(
    before: ComponentUiRegistry<L, E>,
    after: ComponentUiRegistry<L, E>,
    name: Seq<char>,
    other: Seq<char>,
    len: nat,
    layout: UiLayout,
    allow_multiline: bool,
)
    requires
        other != name,
        forall|key: Seq<char>|
            key != name ==> (after.legacy_displays().contains_key(key)
                == before.legacy_displays().contains_key(key)),
        forall|key: Seq<char>|
            key != name ==> (after.singleline_uis().contains_key(key)
                == before.singleline_uis().contains_key(key)),
        forall|key: Seq<char>|
            key != name ==> (after.multiline_uis().contains_key(key)
                == before.multiline_uis().contains_key(key)),
    ensures
        after.display_route(other, len, layout) == before.display_route(other, len, layout),
        after.edit_route(other, len, allow_multiline) == before.edit_route(
            other,
            len,
            allow_multiline,
        ),
        after.capabilities(other) == before.capabilities(other),
{
    assert(after.capabilities(other) =~= before.capabilities(other));
}

/// An index at or beyond the end of a batch shows the last instance: the
/// request is clamped, never refused.
pub proof fn lemma_index_beyond_batch_shows_last<L, E>(
    registry: ComponentUiRegistry<L, E>,
    name: Seq<char>,
    items: Seq<int>,
    instance: Instance,
    layout: UiLayout,
)
    requires
        0 < items.len() <= usize::MAX,
        !instance.spec_is_all(),
        instance.spec_get() >= items.len(),
    ensures
        shown_items(items, instance) == seq![items[items.len() - 1]],
        registry.instance_route(name, items.len(), instance, layout) == registry.display_route(
            name,
            1,
            layout,
        ),
{
}

/// A value that the chosen handler does not show is shown all the same: the
/// display ends in the fallback, which runs after the handler that declined
/// and gets the value as it is.
pub proof fn lemma_declined_value_is_shown_by_fallback<Ctx, Ui, Src, L, E>(
    registry: ComponentUiRegistry<L, E>,
    route: UiRoute,
    name: &ComponentName,
    ctx: &Ctx,
    first: &mut Ui,
    second: &mut Ui,
    layout: UiLayout,
    src: &Src,
    cache_key: Option<u64>,
    value: &RawValue,
) where
    L: Fn(&Ctx, &mut Ui, UiLayout, &Src, &ComponentName, Option<u64>, &RawValue),
    E: Fn(&Ctx, &mut Ui, &RawValue, EditOrView) -> TypedOutcome,

    requires
        registry.displayed_by(route, name, ctx, first, second, layout, src, cache_key, value),
        !registry.shown_by(
            registry.display_route(name@, value@.len(), layout),
            name,
            ctx,
            first,
            layout,
            src,
            cache_key,
            value,
        ),
    ensures
        route == UiRoute::Fallback,
        registry.declined_by(
            registry.display_route(name@, value@.len(), layout),
            name@,
            ctx,
            first,
            value,
        ),
        registry.shown_by(UiRoute::Fallback, name, ctx, second, layout, src, cache_key, value),
{
}

/// An edit call that does not end in an editor writes nothing back and
/// displays the value as in a list: so it is without an editor, and so it
/// is where the editor declines the value.
pub proof fn lemma_unedited_value_is_displayed<Ctx, Ui, Src, L, E>(
    registry: ComponentUiRegistry<L, E>,
    route: UiRoute,
    name: &ComponentName,
    ctx: &Ctx,
    editor: &mut Ui,
    first: &mut Ui,
    second: &mut Ui,
    src: &Src,
    cache_key: Option<u64>,
    value: &RawValue,
    produced: Option<RawValue>,
    allow_multiline: bool,
) where
    L: Fn(&Ctx, &mut Ui, UiLayout, &Src, &ComponentName, Option<u64>, &RawValue),
    E: Fn(&Ctx, &mut Ui, &RawValue, EditOrView) -> TypedOutcome,

    requires
        registry.handled_by(
            route,
            name,
            ctx,
            editor,
            first,
            second,
            src,
            cache_key,
            value,
            produced,
            allow_multiline,
        ),
    ensures
        route.spec_is_edit() ==> registry.edit_route(name@, value@.len(), allow_multiline) == Some(
            route,
        ),
        !route.spec_is_edit() ==> produced is None && registry.displayed_by(
            route,
            name,
            ctx,
            first,
            second,
            UiLayout::List,
            src,
            cache_key,
            value,
        ),
        registry.edit_route(name@, value@.len(), allow_multiline) matches Some(edit) ==> (
        !route.spec_is_edit() ==> registry.declined_by(edit, name@, ctx, editor, value)),
{
}

} // verus!
