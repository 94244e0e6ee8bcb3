//! The query of a dataframe view: what the blueprint holds of it, and the
//! writes that change it.

use vstd::prelude::*;

verus! {

/// The earliest time that a range can start at.
pub const TIME_MIN: i64 = -0x7fff_ffff_ffff_ffff;

/// The latest time that a range can end at.
pub const TIME_MAX: i64 = 0x7fff_ffff_ffff_ffff;

/// A range of times, both ends included.
#[derive(Clone, Copy, Debug, PartialEq, Eq, Structural)]
pub struct TimeRange {
    pub min: i64,
    pub max: i64,
}

impl TimeRange {
    /// The range of all times.
    pub open spec fn spec_everything() -> TimeRange {
        TimeRange { min: TIME_MIN, max: TIME_MAX }
    }

    /// The range of all times.
    #[verifier::when_used_as_spec(spec_everything)]
    pub fn everything() -> (r: TimeRange)
        ensures
            r == TimeRange::spec_everything(),
    {
        TimeRange { min: TIME_MIN, max: TIME_MAX }
    }

    /// Whether the range is that of all times.
    pub fn is_everything(&self) -> (b: bool)
        ensures
            b == (*self == TimeRange::spec_everything()),
    {
        self.min == TIME_MIN && self.max == TIME_MAX
    }
}

/// The component column of an entity, named as the user named it.
#[derive(Debug)]
pub struct ComponentColumnSelector {
    pub entity_path: String,
    pub component_name: String,
}

impl Clone for ComponentColumnSelector {
    fn clone(&self) -> (r: Self)
        ensures
            r == *self,
    {
        ComponentColumnSelector {
            entity_path: self.entity_path.clone(),
            component_name: self.component_name.clone(),
        }
    }
}

/// The filter that keeps the rows in which one component column is not null.
#[derive(Debug)]
pub struct FilterIsNotNull {
    /// Whether the filter applies.
    pub active: bool,
    /// The column that must not be null.
    pub column: ComponentColumnSelector,
}

impl Clone for FilterIsNotNull {
    fn clone(&self) -> (r: Self)
        ensures
            r == *self,
    {
        FilterIsNotNull { active: self.active, column: self.column.clone() }
    }
}

/// A column, as a selection names it.
#[derive(Debug)]
pub enum ColumnSelector {
    /// The time column of a timeline.
    Time { timeline: String },
    /// A component column.
    Component(ComponentColumnSelector),
}

impl Clone for ColumnSelector {
    fn clone(&self) -> (r: Self)
        ensures
            r == *self,
    {
        match self {
            ColumnSelector::Time { timeline } => ColumnSelector::Time { timeline: timeline.clone() },
            ColumnSelector::Component(selector) => ColumnSelector::Component(selector.clone()),
        }
    }
}

/// The columns that a view shows, as the blueprint holds them.
#[derive(Debug)]
pub struct SelectedColumns {
    /// The timelines whose time column is shown.
    pub time_columns: Vec<String>,
    /// The component columns that are shown.
    pub component_columns: Vec<ComponentColumnSelector>,
}

/// What the blueprint holds of a query. A part that is `None` has not been
/// set and has its default.
#[derive(Debug)]
pub struct QueryProperties {
    pub timeline_name: Option<String>,
    pub filter_by_range: Option<TimeRange>,
    pub filter_is_not_null: Option<FilterIsNotNull>,
    pub apply_latest_at: Option<bool>,
    pub selected_columns: Option<SelectedColumns>,
}

/// A change to what the blueprint holds of a query.
#[derive(Debug)]
pub enum BlueprintWrite {
    SaveTimelineName(String),
    SaveFilterByRange(TimeRange),
    ClearFilterByRange,
    SaveFilterIsNotNull(FilterIsNotNull),
    SaveApplyLatestAt(bool),
    SaveSelectedColumns(SelectedColumns),
    ClearSelectedColumns,
}

/// What the blueprint holds after `write` is applied to `before`.
pub open spec fn after_write(before: QueryProperties, write: BlueprintWrite) -> QueryProperties {
    match write {
        BlueprintWrite::SaveTimelineName(name) => QueryProperties {
            timeline_name: Some(name),
            ..before
        },
        BlueprintWrite::SaveFilterByRange(range) => QueryProperties {
            filter_by_range: Some(range),
            ..before
        },
        BlueprintWrite::ClearFilterByRange => QueryProperties { filter_by_range: None, ..before },
        BlueprintWrite::SaveFilterIsNotNull(filter) => QueryProperties {
            filter_is_not_null: Some(filter),
            ..before
        },
        BlueprintWrite::SaveApplyLatestAt(enabled) => QueryProperties {
            apply_latest_at: Some(enabled),
            ..before
        },
        BlueprintWrite::SaveSelectedColumns(columns) => QueryProperties {
            selected_columns: Some(columns),
            ..before
        },
        BlueprintWrite::ClearSelectedColumns => QueryProperties { selected_columns: None, ..before },
    }
}

/// Whether `writes` are those that set the query's timeline to `name`: the
/// name is saved, then the range filter is cleared.
pub open spec fn saves_timeline(writes: Seq<BlueprintWrite>, name: Seq<char>) -> bool {
    &&& writes.len() == 2
    &&& writes[0] matches BlueprintWrite::SaveTimelineName(saved)
    &&& saved@ == name
    &&& writes[1] is ClearFilterByRange
}

/// Whether `place` is where `name` first stands among `timelines`, or `None`
/// where it stands nowhere.
pub open spec fn is_first_place(place: Option<usize>, timelines: Seq<String>, name: Seq<char>) -> bool {
    match place {
        Some(i) => i < timelines.len() && timelines[i as int]@ == name && forall|j: int|
            0 <= j < i ==> (#[trigger] timelines[j])@ != name,
        None => forall|j: int| 0 <= j < timelines.len() ==> (#[trigger] timelines[j])@ != name,
    }
}

/// The query of a dataframe view, as read from the blueprint.
pub struct Query {
    query_property: QueryProperties,
}

impl View for Query {
    type V = QueryProperties;

    closed spec fn view(&self) -> QueryProperties {
        self.query_property
    }
}

impl Query {
    /// The query range where none is stored: all times.
    pub open spec fn range_of(stored: Option<TimeRange>) -> TimeRange {
        match stored {
            Some(range) => range,
            None => TimeRange::spec_everything(),
        }
    }

    /// The query that holds `query_property`.
    pub fn from_blueprint(query_property: QueryProperties) -> (q: Self)
        ensures
            q@ == query_property,
    {
        Query { query_property }
    }

    /// What the query holds, to be stored again.
    pub fn into_properties(self) -> (p: QueryProperties)
        ensures
            p == self@,
    {
        self.query_property
    }

    /// The query of a view of which the blueprint holds nothing yet.
    pub fn unset() -> (q: Self)
        ensures
            q@.timeline_name is None,
            q@.filter_by_range is None,
            q@.filter_is_not_null is None,
            q@.apply_latest_at is None,
            q@.selected_columns is None,
    {
        Query {
            query_property: QueryProperties {
                timeline_name: None,
                filter_by_range: None,
                filter_is_not_null: None,
                apply_latest_at: None,
                selected_columns: None,
            },
        }
    }

    /// Applies a write, as the blueprint store does.
    pub fn apply(&mut self, write: BlueprintWrite)
        ensures
            final(self)@ == after_write(old(self)@, write),
    {
        match write {
            BlueprintWrite::SaveTimelineName(name) => {
                self.query_property.timeline_name = Some(name);
            },
            BlueprintWrite::SaveFilterByRange(range) => {
                self.query_property.filter_by_range = Some(range);
            },
            BlueprintWrite::ClearFilterByRange => {
                self.query_property.filter_by_range = None;
            },
            BlueprintWrite::SaveFilterIsNotNull(filter) => {
                self.query_property.filter_is_not_null = Some(filter);
            },
            BlueprintWrite::SaveApplyLatestAt(enabled) => {
                self.query_property.apply_latest_at = Some(enabled);
            },
            BlueprintWrite::SaveSelectedColumns(columns) => {
                self.query_property.selected_columns = Some(columns);
            },
            BlueprintWrite::ClearSelectedColumns => {
                self.query_property.selected_columns = None;
            },
        }
    }

    /// The name of the query's timeline, and the writes that go with reading
    /// it.
    ///
    /// A stored name is returned as it is, whether or not a timeline of that
    /// name exists. Where none is stored the query is frozen to
    /// `current_timeline`: that name is returned, and saved.
    pub fn timeline_name(&self, current_timeline: &str) -> (r: (String, Vec<BlueprintWrite>))
        ensures
            (match self@.timeline_name {
                Some(name) => r.0@ == name@ && r.1@.len() == 0,
                None => r.0@ == current_timeline@ && saves_timeline(r.1@, current_timeline@),
            }),
    {
        match &self.query_property.timeline_name {
            Some(name) => (name.clone(), Vec::new()),
            None => (current_timeline.to_owned(), Self::save_timeline_name(current_timeline)),
        }
    }

    /// The query's timeline, as its place among the `timelines` of the
    /// recording, and the writes that go with reading its name.
    ///
    /// The place is the first at which the name stands; `None` where the
    /// recording has no timeline of that name.
    pub fn timeline(&self, current_timeline: &str, timelines: &Vec<String>) -> (r: (
        Option<usize>,
        Vec<BlueprintWrite>,
    ))
        ensures
            (match self@.timeline_name {
                Some(name) => is_first_place(r.0, timelines@, name@) && r.1@.len() == 0,
                None => is_first_place(r.0, timelines@, current_timeline@) && saves_timeline(
                    r.1@,
                    current_timeline@,
                ),
            }),
    {
        let (timeline_name, writes) = self.timeline_name(current_timeline);
        let mut i: usize = 0;
        while i < timelines.len()
            invariant
                i <= timelines@.len(),
                forall|j: int| 0 <= j < i ==> (#[trigger] timelines@[j])@ != timeline_name@,
                match self@.timeline_name {
                    Some(name) => timeline_name@ == name@ && writes@.len() == 0,
                    None => timeline_name@ == current_timeline@ && saves_timeline(
                        writes@,
                        current_timeline@,
                    ),
                },
            decreases timelines@.len() - i,
        {
            if timelines[i] == timeline_name {
                return (Some(i), writes);
            }
            i = i + 1;
        }
        (None, writes)
    }

    /// The writes that set the query's timeline.
    ///
    /// The range filter is cleared with it: its times are those of the old
    /// timeline.
    pub fn save_timeline_name(timeline_name: &str) -> (writes: Vec<BlueprintWrite>)
        ensures
            saves_timeline(writes@, timeline_name@),
    {
        let mut writes: Vec<BlueprintWrite> = Vec::new();
        writes.push(BlueprintWrite::SaveTimelineName(timeline_name.to_owned()));
        // Clearing the range filter is the same as setting it to all times.
        writes.push(BlueprintWrite::ClearFilterByRange);
        writes
    }

    /// The range of times that the query keeps: all times where none is
    /// stored.
    pub fn filter_by_range(&self) -> (range: TimeRange)
        ensures
            range == Self::range_of(self@.filter_by_range),
    {
        match self.query_property.filter_by_range {
            Some(range) => range,
            None => TimeRange::everything(),
        }
    }

    /// The write that sets the range of times: the range of all times is the
    /// default, so the stored range is cleared for it.
    pub fn save_filter_by_range(range: TimeRange) -> (write: BlueprintWrite)
        ensures
            range == TimeRange::spec_everything() ==> write is ClearFilterByRange,
            range != TimeRange::spec_everything() ==> write == BlueprintWrite::SaveFilterByRange(
                range,
            ),
    {
        if range.is_everything() {
            BlueprintWrite::ClearFilterByRange
        } else {
            BlueprintWrite::SaveFilterByRange(range)
        }
    }

    /// The column that must not be null, where that filter is stored and
    /// active.
    pub fn filter_is_not_null(&self) -> (column: Option<ComponentColumnSelector>)
        ensures
            column == (match self@.filter_is_not_null {
                Some(filter) => if filter.active {
                    Some(filter.column)
                } else {
                    None
                },
                None => None,
            }),
    {
        match &self.query_property.filter_is_not_null {
            Some(filter) => if filter.active {
                Some(filter.column.clone())
            } else {
                None
            },
            None => None,
        }
    }

    /// The not-null filter as it is stored, active or not.
    pub fn filter_is_not_null_raw(&self) -> (filter: Option<FilterIsNotNull>)
        ensures
            filter == self@.filter_is_not_null,
    {
        match &self.query_property.filter_is_not_null {
            Some(filter) => Some(filter.clone()),
            None => None,
        }
    }

    /// The write that stores the not-null filter.
    pub fn save_filter_is_not_null(filter_is_not_null: &FilterIsNotNull) -> (write: BlueprintWrite)
        ensures
            write == BlueprintWrite::SaveFilterIsNotNull(*filter_is_not_null),
    {
        BlueprintWrite::SaveFilterIsNotNull(filter_is_not_null.clone())
    }

    /// Whether rows are filled with the latest value at their time: only
    /// where that is stored, and stored as true.
    pub fn latest_at_enabled(&self) -> (enabled: bool)
        ensures
            enabled == (self@.apply_latest_at == Some(true)),
    {
        match self.query_property.apply_latest_at {
            Some(enabled) => enabled,
            None => false,
        }
    }

    /// The write that stores whether rows are filled with the latest value.
    pub fn save_latest_at_enabled(enabled: bool) -> (write: BlueprintWrite)
        ensures
            write == BlueprintWrite::SaveApplyLatestAt(enabled),
    {
        BlueprintWrite::SaveApplyLatestAt(enabled)
    }

    /// The write after which all columns are shown: the selection is cleared.
    pub fn save_all_columns_selected() -> (write: BlueprintWrite)
        ensures
            write is ClearSelectedColumns,
    {
        BlueprintWrite::ClearSelectedColumns
    }

    /// The write after which no column is selected: an empty selection.
    pub fn save_all_columns_unselected() -> (write: BlueprintWrite)
        ensures
            write matches BlueprintWrite::SaveSelectedColumns(columns)
                && columns.time_columns@.len() == 0 && columns.component_columns@.len() == 0,
    {
        BlueprintWrite::SaveSelectedColumns(
            SelectedColumns { time_columns: Vec::new(), component_columns: Vec::new() },
        )
    }
}

/// A column of a view, as the store describes it.
#[derive(Debug)]
pub enum ColumnDescriptor {
    /// The time column of a timeline.
    Time { timeline: String },
    /// A component column: the entity it belongs to and the two forms of the
    /// component's name.
    Component { entity_path: String, full_name: String, short_name: String },
}

/// The request to hide one column of a view.
#[derive(Debug)]
pub enum HideColumnAction {
    /// Hide the time column of a timeline.
    HideTimeColumn { timeline_name: String },
    /// Hide the column of a component of an entity.
    HideComponentColumn { entity_path: String, full_name: String, short_name: String },
}

/// The lower-case form of a string, as `str::to_lowercase` gives it.
pub uninterp spec fn lowercase(s: Seq<char>) -> Seq<char>;

/// `str::to_lowercase` returns the lower-case form of the string, which
/// depends on the characters of the string alone.
#[verifier::external_body]
fn to_lowercase(s: &str) -> (r: String)
    ensures
        r@ == lowercase(s@),
{
    s.to_lowercase()
}

/// Whether one of `time_columns` is `timeline`.
pub open spec fn time_selected(time_columns: Seq<String>, timeline: Seq<char>) -> bool {
    exists|i: int| 0 <= i < time_columns.len() && #[trigger] time_columns[i]@ == timeline
}

/// Whether one of `columns` is the column `name` of `entity_path`.
pub open spec fn component_selected(
    columns: Seq<ComponentColumnSelector>,
    entity_path: Seq<char>,
    name: Seq<char>,
) -> bool {
    exists|i: int|
        0 <= i < columns.len() && (#[trigger] columns[i]).entity_path@ == entity_path
            && columns[i].component_name@ == name
}

/// Whether a view shows `column` under the selection `selected`.
///
/// The time column of the query's own timeline is always shown. A component
/// column is shown where the selection names it by its full or by its short
/// name.
pub open spec fn column_visible(
    column: ColumnDescriptor,
    query_timeline: Seq<char>,
    selected: SelectedColumns,
) -> bool {
    match column {
        ColumnDescriptor::Time { timeline } => timeline@ == query_timeline || time_selected(
            selected.time_columns@,
            timeline@,
        ),
        ColumnDescriptor::Component {
            entity_path,
            full_name,
            short_name,
        } => component_selected(selected.component_columns@, entity_path@, full_name@)
            || component_selected(selected.component_columns@, entity_path@, short_name@),
    }
}

/// Whether `positions` are the places of the visible columns among
/// `view_columns`, each once, in the order of the view.
pub open spec fn visible_positions(
    positions: Seq<usize>,
    view_columns: Seq<ColumnDescriptor>,
    query_timeline: Seq<char>,
    selected: SelectedColumns,
) -> bool {
    &&& forall|k: int|
        0 <= k < positions.len() ==> (#[trigger] positions[k]) < view_columns.len()
            && column_visible(view_columns[positions[k] as int], query_timeline, selected)
    &&& forall|k: int, l: int| 0 <= k < l < positions.len() ==> positions[k] < positions[l]
    &&& forall|i: int|
        0 <= i < view_columns.len() && column_visible(
            #[trigger] view_columns[i],
            query_timeline,
            selected,
        ) ==> exists|k: int| 0 <= k < positions.len() && #[trigger] positions[k] == i
}

/// Whether a component named `full_name`, or `short_name` for short, is what
/// `other` names: the full name as it is, or either name without regard to
/// case.
pub open spec fn name_matches(full_name: Seq<char>, short_name: Seq<char>, other: Seq<char>) -> bool {
    full_name == other || lowercase(full_name) == lowercase(other) || lowercase(short_name)
        == lowercase(other)
}

/// Whether `action` hides `column`.
pub open spec fn hides(action: HideColumnAction, column: ColumnSelector) -> bool {
    match action {
        HideColumnAction::HideTimeColumn { timeline_name } => match column {
            ColumnSelector::Time { timeline } => timeline@ == timeline_name@,
            ColumnSelector::Component(_) => false,
        },
        HideColumnAction::HideComponentColumn { entity_path, full_name, short_name } => match column {
            ColumnSelector::Component(selector) => selector.entity_path@ == entity_path@
                && name_matches(full_name@, short_name@, selector.component_name@),
            ColumnSelector::Time { .. } => false,
        },
    }
}

/// Whether none of `actions` hides `column`.
pub open spec fn stays(actions: Seq<HideColumnAction>, column: ColumnSelector) -> bool {
    forall|j: int| 0 <= j < actions.len() ==> !hides(#[trigger] actions[j], column)
}

/// The timelines of the time columns among `columns`, in order.
pub open spec fn timelines_of(columns: Seq<ColumnSelector>) -> Seq<String> {
    columns.filter_map(
        |c: ColumnSelector|
            match c {
                ColumnSelector::Time { timeline } => Some(timeline),
                ColumnSelector::Component(_) => None,
            },
    )
}

/// The component columns among `columns`, in order.
pub open spec fn components_of(columns: Seq<ColumnSelector>) -> Seq<ComponentColumnSelector> {
    columns.filter_map(
        |c: ColumnSelector|
            match c {
                ColumnSelector::Time { .. } => None,
                ColumnSelector::Component(selector) => Some(selector),
            },
    )
}

/// Whether `write` stores the selection of exactly `columns`.
pub open spec fn saves_columns(write: BlueprintWrite, columns: Seq<ColumnSelector>) -> bool {
    &&& write matches BlueprintWrite::SaveSelectedColumns(saved)
    &&& saved.time_columns@ == timelines_of(columns)
    &&& saved.component_columns@ == components_of(columns)
}

/// Whether a component named `full_name`, or `short_name` for short, is what
/// `other` names.
pub fn component_name_matches(full_name: &String, short_name: &String, other: &String) -> (b: bool)
    ensures
        b == name_matches(full_name@, short_name@, other@),
{
    if *full_name == *other {
        return true;
    }
    let other_lower = to_lowercase(other.as_str());
    to_lowercase(full_name.as_str()) == other_lower || to_lowercase(short_name.as_str())
        == other_lower
}

/// Whether `action` hides `column`.
pub fn action_hides(action: &HideColumnAction, column: &ColumnSelector) -> (b: bool)
    ensures
        b == hides(*action, *column),
{
    match action {
        HideColumnAction::HideTimeColumn { timeline_name } => match column {
            ColumnSelector::Time { timeline } => *timeline == *timeline_name,
            ColumnSelector::Component(_) => false,
        },
        HideColumnAction::HideComponentColumn { entity_path, full_name, short_name } => match column {
            ColumnSelector::Component(selector) => selector.entity_path == *entity_path
                && component_name_matches(full_name, short_name, &selector.component_name),
            ColumnSelector::Time { .. } => false,
        },
    }
}

fn is_time_selected(time_columns: &Vec<String>, timeline: &String) -> (b: bool)
    ensures
        b == time_selected(time_columns@, timeline@),
{
    let mut i: usize = 0;
    while i < time_columns.len()
        invariant
            i <= time_columns@.len(),
            forall|j: int| 0 <= j < i ==> (#[trigger] time_columns@[j])@ != timeline@,
        decreases time_columns@.len() - i,
    {
        if time_columns[i] == *timeline {
            return true;
        }
        i = i + 1;
    }
    false
}

fn is_component_selected(
    columns: &Vec<ComponentColumnSelector>,
    entity_path: &String,
    name: &String,
) -> (b: bool)
    ensures
        b == component_selected(columns@, entity_path@, name@),
{
    let mut i: usize = 0;
    while i < columns.len()
        invariant
            i <= columns@.len(),
            forall|j: int|
                0 <= j < i ==> !((#[trigger] columns@[j]).entity_path@ == entity_path@
                    && columns@[j].component_name@ == name@),
        decreases columns@.len() - i,
    {
        if columns[i].entity_path == *entity_path && columns[i].component_name == *name {
            return true;
        }
        i = i + 1;
    }
    false
}

fn is_column_visible(
    column: &ColumnDescriptor,
    query_timeline: &String,
    selected: &SelectedColumns,
) -> (b: bool)
    ensures
        b == column_visible(*column, query_timeline@, *selected),
{
    match column {
        ColumnDescriptor::Time { timeline } => {
            // The query timeline's column is always kept: the view needs it.
            *timeline == *query_timeline || is_time_selected(&selected.time_columns, timeline)
        },
        ColumnDescriptor::Component { entity_path, full_name, short_name } => {
            // Both the full and the short name count, as the user may have used either.
            is_component_selected(&selected.component_columns, entity_path, full_name)
                || is_component_selected(&selected.component_columns, entity_path, short_name)
        },
    }
}

fn stays_after(actions: &Vec<HideColumnAction>, column: &ColumnSelector) -> (b: bool)
    ensures
        b == stays(actions@, *column),
{
    let mut j: usize = 0;
    while j < actions.len()
        invariant
            j <= actions@.len(),
            forall|k: int| 0 <= k < j ==> !hides(#[trigger] actions@[k], *column),
        decreases actions@.len() - j,
    {
        if action_hides(&actions[j], column) {
            return false;
        }
        j = j + 1;
    }
    true
}

impl Query {
    /// The write that stores `columns` as the selection of the view: the
    /// timelines of its time columns, and its component columns, each in the
    /// order given.
    pub fn save_selected_columns(columns: &Vec<ColumnSelector>) -> (write: BlueprintWrite)
        ensures
            saves_columns(write, columns@),
    {
        let mut time_columns: Vec<String> = Vec::new();
        let mut component_columns: Vec<ComponentColumnSelector> = Vec::new();
        let mut i: usize = 0;
        while i < columns.len()
            invariant
                i <= columns@.len(),
                time_columns@ == timelines_of(columns@.take(i as int)),
                component_columns@ == components_of(columns@.take(i as int)),
            decreases columns@.len() - i,
        {
            proof {
                assert(columns@.take(i + 1).drop_last() =~= columns@.take(i as int));
            }
            match &columns[i] {
                ColumnSelector::Time { timeline } => {
                    time_columns.push(timeline.clone());
                },
                ColumnSelector::Component(selector) => {
                    component_columns.push(selector.clone());
                },
            }
            i = i + 1;
        }
        assert(columns@.take(i as int) =~= columns@);
        BlueprintWrite::SaveSelectedColumns(SelectedColumns { time_columns, component_columns })
    }

    /// The places, among `view_columns`, of the columns that the view shows,
    /// or `None` where no selection is stored and all columns are shown.
    ///
    /// Entity paths and names are compared as they are written.
    pub fn apply_column_visibility_to_view_columns(
        &self,
        query_timeline_name: &str,
        view_columns: &Vec<ColumnDescriptor>,
    ) -> (shown: Option<Vec<usize>>)
        ensures
            (match self@.selected_columns {
                None => shown is None,
                Some(selected) => shown matches Some(positions) && visible_positions(
                    positions@,
                    view_columns@,
                    query_timeline_name@,
                    selected,
                ),
            }),
    {
        // No selected columns means that all columns are visible.
        let selected = match &self.query_property.selected_columns {
            Some(selected) => selected,
            None => {
                return None;
            },
        };
        let query_timeline = query_timeline_name.to_owned();
        let mut positions: Vec<usize> = Vec::new();
        let mut i: usize = 0;
        while i < view_columns.len()
            invariant
                i <= view_columns@.len(),
                query_timeline@ == query_timeline_name@,
                forall|k: int|
                    0 <= k < positions@.len() ==> (#[trigger] positions@[k]) < i && column_visible(
                        view_columns@[positions@[k] as int],
                        query_timeline_name@,
                        *selected,
                    ),
                forall|k: int, l: int|
                    0 <= k < l < positions@.len() ==> positions@[k] < positions@[l],
                forall|j: int|
                    0 <= j < i && column_visible(
                        #[trigger] view_columns@[j],
                        query_timeline_name@,
                        *selected,
                    ) ==> exists|k: int| 0 <= k < positions@.len() && #[trigger] positions@[k] == j,
            decreases view_columns@.len() - i,
        {
            if is_column_visible(&view_columns[i], &query_timeline, selected) {
                let ghost before = positions@;
                positions.push(i);
                proof {
                    assert forall|j: int|
                        0 <= j < i + 1 && column_visible(
                            #[trigger] view_columns@[j],
                            query_timeline_name@,
                            *selected,
                        ) implies exists|k: int|
                        0 <= k < positions@.len() && #[trigger] positions@[k] == j by {
                        if j < i {
                            let k = choose|k: int| 0 <= k < before.len() && #[trigger] before[k] == j;
                            assert(positions@[k] == j);
                        } else {
                            assert(positions@[before.len() as int] == j);
                        }
                    }
                }
            }
            i = i + 1;
        }
        Some(positions)
    }

    /// The write that hides columns of a view, or `None` where there is
    /// nothing to hide.
    ///
    /// `selected_columns` are the columns that the view shows now. Those that
    /// no action hides stay, in their order, and are stored as the selection.
    pub fn handle_hide_column_actions(
        selected_columns: &Vec<ColumnSelector>,
        actions: &Vec<HideColumnAction>,
    ) -> (write: Option<BlueprintWrite>)
        ensures
            actions@.len() == 0 ==> write is None,
            actions@.len() > 0 ==> (write matches Some(w) && saves_columns(
                w,
                selected_columns@.filter(|c: ColumnSelector| stays(actions@, c)),
            )),
    {
        if actions.len() == 0 {
            return None;
        }
        let ghost keep = |c: ColumnSelector| stays(actions@, c);
        let mut kept: Vec<ColumnSelector> = Vec::new();
        let mut i: usize = 0;
        while i < selected_columns.len()
            invariant
                i <= selected_columns@.len(),
                keep == (|c: ColumnSelector| stays(actions@, c)),
                kept@ == selected_columns@.take(i as int).filter(keep),
            decreases selected_columns@.len() - i,
        {
            if stays_after(actions, &selected_columns[i]) {
                kept.push(selected_columns[i].clone());
            }
            proof {
                let before = selected_columns@.take(i as int);
                assert(selected_columns@.take(i + 1) =~= before.push(selected_columns@[i as int]));
                before.lemma_filter_push(selected_columns@[i as int], keep);
            }
            i = i + 1;
        }
        assert(selected_columns@.take(i as int) =~= selected_columns@);
        Some(Self::save_selected_columns(&kept))
    }
}

/// What is saved can be read again: after the write of
/// [`Query::save_latest_at_enabled`] is applied, the query has that setting.
pub proof fn lemma_latest_at_round_trip(before: QueryProperties, enabled: bool)
    ensures
        after_write(before, BlueprintWrite::SaveApplyLatestAt(enabled)).apply_latest_at == Some(
            enabled,
        ),
{
}

/// A saved range is read again as it was saved, the range of all times
/// included, which is stored as no range.
pub proof fn lemma_filter_by_range_round_trip(before: QueryProperties, range: TimeRange)
    ensures
        Query::range_of(
            after_write(
                before,
                if range == TimeRange::spec_everything() {
                    BlueprintWrite::ClearFilterByRange
                } else {
                    BlueprintWrite::SaveFilterByRange(range)
                },
            ).filter_by_range,
        ) == range,
{
}

} // verus!
