//! Dispatch of component values to the user interface code registered for them.
//!
//! A component is a kind of data, named at run time by a [`ComponentName`]. Its
//! values arrive as a [`RawValue`]: a batch of encoded instances whose element
//! type the registry never looks at. The [`ComponentUiRegistry`] holds three
//! tables of handlers, picks one per draw call under a fixed precedence, and
//! hands back what an edit produced so that the caller can persist it.
//!
//! The widget toolkit, the viewer context and the data source are type
//! parameters: the registry only carries them to the handlers.
//!
//! Around the registry stand the decisions of the views that use it: which
//! rows the list of an entity's components has, what a dataframe query
//! stores and which columns it shows, how the application's panels toggle,
//! and the histograms of an image. Each of them computes on plain values and
//! leaves drawing, reading and writing to its caller.

pub mod app_blueprint;
pub mod component_name;
pub mod dataframe_query;
pub mod histogram;
pub mod instance;
pub mod instance_path;
pub mod raw_value;
pub mod registry;
pub mod table;
pub mod typed;
pub mod ui_types;

pub use app_blueprint::{
    setup_welcome_screen_blueprint, AppBlueprint, Panel, PanelState, PanelStateOverrides, PanelStates,
    PanelWrite, ScreenFit,
};
pub use component_name::ComponentName;
pub use dataframe_query::{
    BlueprintWrite, ColumnDescriptor, ColumnSelector, ComponentColumnSelector, FilterIsNotNull,
    HideColumnAction, Query, QueryProperties, SelectedColumns, TimeRange,
};
pub use histogram::{rgb8_histograms, RgbHistograms};
pub use instance::{select_element, select_instance, Instance, Selection};
pub use instance_path::{
    component_list_ui, data_ui, image_extras, image_file_name, image_kind, indicator_count,
    latest_at, store_of_entity, ComponentEntry, ComponentIcon, ComponentRow, EntityStore, ImageExtras,
    ImageKind, InstanceDataUi, RowContent,
};
pub use raw_value::RawValue;
pub use registry::{
    commit_of, Commit, ComponentUiRegistry, EditOrView, EditOutcome, UiLayout, UiRoute,
};
pub use table::HandlerTable;
pub use typed::{
    edit_or_view_typed, first_decoded, reencoded, try_deserialize, typed_edit_or_view, Decoded,
    MaybeMutRef, TypedOutcome, UiIssue,
};
pub use ui_types::{ComponentUiTypes, UiCapability};
