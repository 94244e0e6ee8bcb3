//! What is shown of the components of one entity instance.

use crate::instance::Instance;
use crate::registry::UiLayout;
use vstd::prelude::*;
use vstd::string::StringExecFns;

verus! {

/// The store in which an entity is known.
#[derive(Clone, Copy, Debug, PartialEq, Eq, Structural)]
pub enum EntityStore {
    /// The recording.
    Recording,
    /// The blueprint.
    Blueprint,
}

/// The store to read an entity from: the recording where it knows the
/// entity, else the blueprint where that knows it, else none.
pub fn store_of_entity(known_in_recording: bool, known_in_blueprint: bool) -> (store: Option<
    EntityStore,
>)
    ensures
        store == (if known_in_recording {
            Some(EntityStore::Recording)
        } else if known_in_blueprint {
            Some(EntityStore::Blueprint)
        } else {
            None
        }),
{
    if known_in_recording {
        Some(EntityStore::Recording)
    } else if known_in_blueprint {
        Some(EntityStore::Blueprint)
    } else {
        None
    }
}

/// What the list needs to know of one component of an entity.
#[derive(Clone, Copy, Debug, PartialEq, Eq, Structural)]
pub struct ComponentEntry {
    /// The component only marks the entity as an instance of an archetype.
    pub is_indicator: bool,
    /// The component is the one that holds the edges of a graph.
    pub is_graph_edge: bool,
    /// The component was logged as static, outside of any timeline.
    pub is_static: bool,
}

/// The icon of a component in the list.
#[derive(Clone, Copy, Debug, PartialEq, Eq, Structural)]
pub enum ComponentIcon {
    Static,
    Temporal,
}

/// What stands in the row of a component.
#[derive(Clone, Copy, Debug, PartialEq, Eq, Structural)]
pub enum RowContent {
    /// The name alone: an indicator has no value to show.
    Label,
    /// The name and the latest values of all instances.
    AllInstances,
    /// The name and the value of the one instance, shown through the
    /// registry of component user interfaces.
    OneInstance,
}

/// One row of the list of components.
#[derive(Clone, Copy, Debug, PartialEq, Eq, Structural)]
pub struct ComponentRow {
    /// The place of the component among those of the entity.
    pub index: usize,
    pub icon: ComponentIcon,
    pub content: RowContent,
    /// Whether the row reacts to hovering and selecting.
    pub interactive: bool,
}

/// How many of the first `n` of `components` are indicators.
pub open spec fn indicators_among(components: Seq<ComponentEntry>, n: nat) -> nat
    decreases n,
{
    if n == 0 {
        0
    } else {
        indicators_among(components, (n - 1) as nat) + (if components[n - 1].is_indicator {
            1nat
        } else {
            0nat
        })
    }
}

/// How many of `components` are indicators.
pub fn indicator_count(components: &Vec<ComponentEntry>) -> (count: usize)
    ensures
        count == indicators_among(components@, components@.len()),
        count <= components@.len(),
{
    let mut count: usize = 0;
    let mut i: usize = 0;
    while i < components.len()
        invariant
            i <= components@.len(),
            count == indicators_among(components@, i as nat),
            count <= i,
        decreases components@.len() - i,
    {
        if components[i].is_indicator {
            count = count + 1;
        }
        i = i + 1;
    }
    count
}

/// Whether the list shows indicator components: always in the selection
/// panel, never in a list; in a tooltip only where the entity has no other
/// component.
pub open spec fn shows_indicators(layout: UiLayout, components: Seq<ComponentEntry>) -> bool {
    match layout {
        UiLayout::Tooltip => indicators_among(components, components.len()) == components.len(),
        UiLayout::SelectionPanel => true,
        UiLayout::List => false,
    }
}

/// Whether the list has a row for the component at `index`: indicators have
/// one only where the list shows them.
pub open spec fn has_row(show_indicators: bool, components: Seq<ComponentEntry>, index: int) -> bool {
    0 <= index < components.len() && (show_indicators || !components[index].is_indicator)
}

/// The row of the component `entry`, which stands at `index`.
pub open spec fn row_of(
    layout: UiLayout,
    instance: Instance,
    index: usize,
    entry: ComponentEntry,
) -> ComponentRow {
    ComponentRow {
        index,
        icon: if entry.is_static {
            ComponentIcon::Static
        } else {
            ComponentIcon::Temporal
        },
        content: if entry.is_indicator {
            RowContent::Label
        } else if instance.spec_is_all() {
            RowContent::AllInstances
        } else {
            RowContent::OneInstance
        },
        interactive: layout != UiLayout::Tooltip,
    }
}

/// Whether `rows` are rows of `components`, in their order, each as
/// [`row_of`] gives it, with a row for each component that has one below
/// `upto` and for no other.
pub open spec fn rows_upto(
    rows: Seq<ComponentRow>,
    layout: UiLayout,
    instance: Instance,
    show_indicators: bool,
    components: Seq<ComponentEntry>,
    upto: int,
) -> bool {
    &&& forall|k: int|
        0 <= k < rows.len() ==> (#[trigger] rows[k]).index < upto && has_row(
            show_indicators,
            components,
            rows[k].index as int,
        ) && rows[k] == row_of(layout, instance, rows[k].index, components[rows[k].index as int])
    &&& forall|k: int, l: int|
        0 <= k < l < rows.len() ==> (#[trigger] rows[k]).index < (#[trigger] rows[l]).index
    &&& forall|i: int|
        0 <= i < upto && #[trigger] has_row(show_indicators, components, i) ==> exists|k: int|
            0 <= k < rows.len() && (#[trigger] rows[k]).index == i
}

/// Whether `rows` is the list of `components`: a row for each component that
/// has one, in the order of the components, and no other.
pub open spec fn is_component_list(
    rows: Seq<ComponentRow>,
    layout: UiLayout,
    instance: Instance,
    components: Seq<ComponentEntry>,
) -> bool {
    rows_upto(
        rows,
        layout,
        instance,
        shows_indicators(layout, components),
        components,
        components.len() as int,
    )
}

/// The rows of the list of the components of an entity.
pub fn component_list_ui(
    ui_layout: UiLayout,
    instance: &Instance,
    components: &Vec<ComponentEntry>,
) -> (rows: Vec<ComponentRow>)
    ensures
        is_component_list(rows@, ui_layout, *instance, components@),
{
    let indicator_count = indicator_count(components);
    let show_indicator_comps = match ui_layout {
        // Skip indicator components in a tooltip, unless there is nothing else.
        UiLayout::Tooltip => indicator_count == components.len(),
        UiLayout::SelectionPanel => true,
        UiLayout::List => false,
    };
    let interactive = ui_layout != UiLayout::Tooltip;
    let mut rows: Vec<ComponentRow> = Vec::new();
    let mut i: usize = 0;
    while i < components.len()
        invariant
            i <= components@.len(),
            interactive == (ui_layout != UiLayout::Tooltip),
            rows_upto(rows@, ui_layout, *instance, show_indicator_comps, components@, i as int),
        decreases components@.len() - i,
    {
        let entry = components[i];
        let ghost before = rows@;
        if show_indicator_comps || !entry.is_indicator {
            let icon = if entry.is_static {
                ComponentIcon::Static
            } else {
                ComponentIcon::Temporal
            };
            let content = if entry.is_indicator {
                RowContent::Label
            } else if instance.is_all() {
                RowContent::AllInstances
            } else {
                RowContent::OneInstance
            };
            rows.push(ComponentRow { index: i, icon, content, interactive });
        }
        proof {
            lemma_rows_step(
                before,
                rows@,
                ui_layout,
                *instance,
                show_indicator_comps,
                components@,
                i as int,
            );
        }
        i = i + 1;
    }
    rows
}

/// One more component, with its row where it has one, keeps the rows those
/// of the components so far.
proof fn lemma_rows_step(
    before: Seq<ComponentRow>,
    after: Seq<ComponentRow>,
    layout: UiLayout,
    instance: Instance,
    show_indicators: bool,
    components: Seq<ComponentEntry>,
    i: int,
)
    requires
        0 <= i < components.len(),
        i <= usize::MAX,
        rows_upto(before, layout, instance, show_indicators, components, i),
        after == (if has_row(show_indicators, components, i) {
            before.push(row_of(layout, instance, i as usize, components[i]))
        } else {
            before
        }),
    ensures
        rows_upto(after, layout, instance, show_indicators, components, i + 1),
{
    assert forall|j: int|
        0 <= j < i + 1 && #[trigger] has_row(show_indicators, components, j) implies exists|k: int|
        0 <= k < after.len() && (#[trigger] after[k]).index == j by {
        if j < i {
            let k = choose|k: int| 0 <= k < before.len() && (#[trigger] before[k]).index == j;
            assert(after[k].index == j);
        } else {
            assert(after[before.len() as int].index == j);
        }
    }
    assert forall|k: int| 0 <= k < after.len() implies (#[trigger] after[k]).index < i + 1
        && has_row(show_indicators, components, after[k].index as int) && after[k] == row_of(
        layout,
        instance,
        after[k].index,
        components[after[k].index as int],
    ) by {
        if k < before.len() {
            assert(after[k] == before[k]);
        }
    }
    assert forall|k: int, l: int| 0 <= k < l < after.len() implies (#[trigger] after[k]).index < (
    #[trigger] after[l]).index by {
        if l < before.len() {
            assert(after[k] == before[k] && after[l] == before[l]);
        } else {
            assert(after[k] == before[k]);
        }
    }
}

/// What is shown for an instance of an entity.
#[derive(Debug)]
pub enum InstanceDataUi {
    /// The entity is in no store: an error is shown.
    UnknownEntity,
    /// The entity has no component on the timeline of the query.
    NoComponents,
    /// The entity has components, but none has a value at the time of the query.
    NothingLogged,
    /// On a single line, only the counts are shown.
    Summary {
        /// How many components have a value.
        components: usize,
        /// How many components of the entity are indicators.
        indicators: usize,
        /// Whether the word for the components stands in the plural.
        plural_components: bool,
        /// Whether the word for the indicators stands in the plural.
        plural_indicators: bool,
        /// Whether the previews of images and blobs follow.
        with_previews: bool,
    },
    /// The list of the components.
    List {
        rows: Vec<ComponentRow>,
        /// Whether the previews of images and blobs follow.
        with_previews: bool,
    },
}

/// The components whose rows are listed for `instance`: all of them for all
/// instances; for one instance those but the edges of a graph, which belong
/// to no single node.
pub open spec fn listed(instance: Instance, components: Seq<ComponentEntry>) -> Seq<
    ComponentEntry,
> {
    if instance.spec_is_all() {
        components
    } else {
        components.filter(|c: ComponentEntry| !c.is_graph_edge)
    }
}

/// Whether `shown` is what is to be shown for `instance` of an entity that
/// `store` holds: of its components on the timeline, `indicators` are
/// indicators, and `components` are those that have a value.
pub open spec fn is_instance_data_ui(
    shown: InstanceDataUi,
    store: Option<EntityStore>,
    has_components: bool,
    indicators: usize,
    components: Seq<ComponentEntry>,
    layout: UiLayout,
    instance: Instance,
) -> bool {
    if store is None {
        shown is UnknownEntity
    } else if !has_components {
        shown is NoComponents
    } else if components.len() == 0 {
        shown is NothingLogged
    } else if layout == UiLayout::List {
        shown == (InstanceDataUi::Summary {
            components: components.len() as usize,
            indicators,
            plural_components: components.len() > 1,
            plural_indicators: indicators > 1,
            with_previews: instance.spec_is_all(),
        })
    } else {
        &&& shown matches InstanceDataUi::List { rows, with_previews }
        &&& with_previews == instance.spec_is_all()
        &&& is_component_list(rows@, layout, instance, listed(instance, components))
    }
}

/// What is shown for an instance of an entity.
///
/// `store` is where the entity is known, `has_components` whether it has any
/// component on the timeline of the query, `indicators` how many of those
/// are indicators, and `components` those that have a value at the time of
/// the query.
pub fn data_ui(
    store: Option<EntityStore>,
    has_components: bool,
    indicators: usize,
    components: &Vec<ComponentEntry>,
    ui_layout: UiLayout,
    instance: &Instance,
) -> (shown: InstanceDataUi)
    ensures
        is_instance_data_ui(
            shown,
            store,
            has_components,
            indicators,
            components@,
            ui_layout,
            *instance,
        ),
{
    if store.is_none() {
        return InstanceDataUi::UnknownEntity;
    }
    if !has_components {
        // This is fine: the user may only have logged to a child of the entity.
        return InstanceDataUi::NoComponents;
    }
    if components.len() == 0 {
        return InstanceDataUi::NothingLogged;
    }
    if ui_layout == UiLayout::List {
        return InstanceDataUi::Summary {
            components: components.len(),
            indicators,
            plural_components: components.len() > 1,
            plural_indicators: indicators > 1,
            with_previews: instance.is_all(),
        };
    }
    if instance.is_all() {
        let rows = component_list_ui(ui_layout, instance, components);
        InstanceDataUi::List { rows, with_previews: true }
    } else {
        // The edges of a graph belong to no single node: leave them out.
        let ghost keep = |c: ComponentEntry| !c.is_graph_edge;
        let mut kept: Vec<ComponentEntry> = Vec::new();
        let mut i: usize = 0;
        while i < components.len()
            invariant
                i <= components@.len(),
                keep == (|c: ComponentEntry| !c.is_graph_edge),
                kept@ == components@.take(i as int).filter(keep),
            decreases components@.len() - i,
        {
            if !components[i].is_graph_edge {
                kept.push(components[i]);
            }
            proof {
                let before = components@.take(i as int);
                assert(components@.take(i + 1) =~= before.push(components@[i as int]));
                before.lemma_filter_push(components@[i as int], keep);
            }
            i = i + 1;
        }
        assert(components@.take(i as int) =~= components@);
        let rows = component_list_ui(ui_layout, instance, &kept);
        InstanceDataUi::List { rows, with_previews: false }
    }
}

/// Whether `found` holds the places of the components for which a lookup
/// gave a value, in the order of the components, each with a value that the
/// lookup can give for it; and for every other component below `upto` the
/// lookup can give none.
pub open spec fn is_latest_at<D, U, F: Fn(&D) -> Option<U>>(
    found: Seq<(usize, U)>,
    components: Seq<D>,
    lookup: F,
    upto: int,
) -> bool {
    &&& forall|k: int|
        0 <= k < found.len() ==> (#[trigger] found[k]).0 < upto && call_ensures(
            lookup,
            (&components[found[k].0 as int],),
            Some(found[k].1),
        )
    &&& forall|k: int, l: int|
        0 <= k < l < found.len() ==> (#[trigger] found[k]).0 < (#[trigger] found[l]).0
    &&& forall|i: int|
        0 <= i < upto ==> #[trigger] call_ensures(lookup, (&components[i],), None::<U>) || exists|
            k: int,
        |
            0 <= k < found.len() && (#[trigger] found[k]).0 == i
}

/// Looks each component up, and keeps the place and the value of those that
/// have one: components that are unset at the time of the query are left
/// out.
pub fn latest_at<D, U, F: Fn(&D) -> Option<U>>(components: &Vec<D>, lookup: &F) -> (found: Vec<
    (usize, U),
>)
    requires
        forall|component: &D| call_requires(*lookup, (component,)),
    ensures
        is_latest_at(found@, components@, *lookup, components@.len() as int),
{
    let mut found: Vec<(usize, U)> = Vec::new();
    let mut i: usize = 0;
    while i < components.len()
        invariant
            i <= components@.len(),
            forall|component: &D| call_requires(*lookup, (component,)),
            is_latest_at(found@, components@, *lookup, i as int),
        decreases components@.len() - i,
    {
        let ghost before = found@;
        let result = lookup(&components[i]);
        if let Some(unit) = result {
            found.push((i, unit));
            proof {
                assert forall|j: int| 0 <= j < i + 1 implies #[trigger] call_ensures(
                    *lookup,
                    (&components@[j],),
                    None::<U>,
                ) || exists|k: int| 0 <= k < found@.len() && (#[trigger] found@[k]).0 == j by {
                    if j < i {
                        if !call_ensures(*lookup, (&components@[j],), None::<U>) {
                            let k = choose|k: int|
                                0 <= k < before.len() && (#[trigger] before[k]).0 == j;
                            assert(found@[k].0 == j);
                        }
                    } else {
                        assert(found@[before.len() as int].0 == j);
                    }
                }
                assert forall|k: int| 0 <= k < found@.len() implies (#[trigger] found@[k]).0 < i
                    + 1 && call_ensures(
                    *lookup,
                    (&components@[found@[k].0 as int],),
                    Some(found@[k].1),
                ) by {
                    if k < before.len() {
                        assert(found@[k] == before[k]);
                    }
                }
                assert forall|k: int, l: int| 0 <= k < l < found@.len() implies (
                #[trigger] found@[k]).0 < (#[trigger] found@[l]).0 by {
                    if l < before.len() {
                        assert(found@[k] == before[k] && found@[l] == before[l]);
                    } else {
                        assert(found@[k] == before[k]);
                    }
                }
            }
        }
        i = i + 1;
    }
    found
}

/// The kind of an image.
#[derive(Clone, Copy, Debug, PartialEq, Eq, Structural)]
pub enum ImageKind {
    Color,
    Depth,
    Segmentation,
}

/// The kind of the image of an entity: a depth image where the entity is
/// marked as one, else a segmentation image where it is marked as one, else a
/// color image.
pub fn image_kind(has_depth_indicator: bool, has_segmentation_indicator: bool) -> (kind: ImageKind)
    ensures
        kind == (if has_depth_indicator {
            ImageKind::Depth
        } else if has_segmentation_indicator {
            ImageKind::Segmentation
        } else {
            ImageKind::Color
        }),
{
    if has_depth_indicator {
        ImageKind::Depth
    } else if has_segmentation_indicator {
        ImageKind::Segmentation
    } else {
        ImageKind::Color
    }
}

/// What follows the preview of an image.
#[derive(Clone, Copy, Debug, PartialEq, Eq, Structural)]
pub struct ImageExtras {
    /// The buttons that save and copy the image.
    pub buttons: bool,
    /// The histogram of the three channels.
    pub histogram: bool,
}

/// What follows the preview of an image: nothing on a single line or in a
/// tooltip; else the buttons, and the histogram where the image is plain
/// RGB with eight bits per channel.
pub fn image_extras(ui_layout: UiLayout, is_plain_rgb8: bool) -> (extras: ImageExtras)
    ensures
        extras.buttons == (ui_layout == UiLayout::SelectionPanel),
        extras.histogram == (ui_layout == UiLayout::SelectionPanel && is_plain_rgb8),
{
    match ui_layout {
        UiLayout::SelectionPanel => ImageExtras { buttons: true, histogram: is_plain_rgb8 },
        _ => ImageExtras { buttons: false, histogram: false },
    }
}

/// The name of the file that an image is saved to: the last part of the
/// entity's path, or `image` where the path has none, with the ending `.png`.
pub fn image_file_name(last_part: Option<&str>) -> (name: String)
    ensures
        name@ == (match last_part {
            Some(part) => part@,
            None => "image"@,
        }) + ".png"@,
{
    let stem = match last_part {
        Some(part) => part,
        None => "image",
    };
    stem.to_owned().concat(".png")
}

} // verus!
