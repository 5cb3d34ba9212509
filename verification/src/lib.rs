//! A verified model of a file-selection dialog bridge.
//!
//! The library models the safe side of a dialog context that is ultimately
//! driven by a native, immediate-mode dialog engine: the request builder with
//! its per-mode defaults, the per-frame display/poll session protocol, and the
//! result-extraction layer that hands out owned values.  The native engine
//! itself is an external collaborator; its reports enter the model as plain
//! values and every decision taken on them here is verified.

mod dialog;
mod nulfree;
mod request;
mod selection;

pub use crate::dialog::clear_styles_spec;
pub use crate::dialog::deserialize_bookmarks_spec;
pub use crate::dialog::dialog_wf;
pub use crate::dialog::display_spec;
pub use crate::dialog::display_visible;
pub use crate::dialog::has_style;
pub use crate::dialog::lemma_bookmarks_round_trip;
pub use crate::dialog::lemma_clear_extension_infos_idempotent;
pub use crate::dialog::serialize_bookmarks_spec;
pub use crate::dialog::spec_current_filter;
pub use crate::dialog::spec_current_path;
pub use crate::dialog::spec_file_path_name;
pub use crate::dialog::spec_is_ok;
pub use crate::dialog::spec_selection;
pub use crate::dialog::DialogOutcome;
pub use crate::dialog::DialogView;
pub use crate::dialog::DisplayReport;
pub use crate::dialog::ExtensionInfo;
pub use crate::dialog::FileDialog;
pub use crate::dialog::OutcomeView;
pub use crate::dialog::ReportView;
pub use crate::dialog::StyleColor;
pub use crate::dialog::StyleView;
pub use crate::nulfree::has_nul;
pub use crate::nulfree::is_nul_free;
pub use crate::request::builder_strings_ok;
pub use crate::request::cap_allows;
pub use crate::request::default_title;
pub use crate::request::lemma_default_filter;
pub use crate::request::lemma_unlimited_selection;
pub use crate::request::resolve_request;
pub use crate::request::resolved_filters;
pub use crate::request::BuilderView;
pub use crate::request::DialogError;
pub use crate::request::DialogMode;
pub use crate::request::FileDialogBuilder;
pub use crate::request::OpenRequest;
pub use crate::request::OpenRequestView;
pub use crate::request::DIALOG_FLAGS_NONE;
pub use crate::request::DIALOG_FLAG_CONFIRM_OVERWRITE;
pub use crate::selection::PairView;
pub use crate::selection::Selection;
pub use crate::selection::SelectionPair;
