//! The open-request builder.
//!
//! A builder accumulates the typed configuration of one dialog-open request:
//! title, filter expression, initial directory, default file name, selection
//! cap, modal flag and overwrite-confirmation flag.  Finalizing the builder
//! resolves the per-mode defaults and yields the exact argument record of the
//! one native open call that the request stands for.

use vstd::prelude::*;

use crate::dialog::DialogView;
use crate::dialog::FileDialog;
use crate::nulfree::has_nul;
use crate::nulfree::is_nul_free;

verus! {

/// The kind of dialog a request opens.
#[derive(Debug, Clone, Copy, PartialEq, Eq, Structural)]
pub enum DialogMode {
    OpenFile,
    OpenDirectory,
    SaveFile,
}

/// Why a call on the dialog context was rejected before reaching the native
/// boundary.
#[derive(Debug, Clone, Copy, PartialEq, Eq, Structural)]
pub enum DialogError {
    /// An application-supplied string holds an embedded terminator character
    /// and cannot be passed as a null-terminated byte string.
    EmbeddedNul,
    /// The dialog key is still in an open-to-close cycle; it must be closed
    /// before it can be reopened.
    KeyAlreadyOpened,
}

/// No request flags.
pub const DIALOG_FLAGS_NONE: i32 = 0;

/// Ask the native layer for a confirmation dialog before overwriting a file.
pub const DIALOG_FLAG_CONFIRM_OVERWRITE: i32 = 1;

/// The abstract value of a builder: the configuration accumulated so far,
/// with `None` for every field still at its default.
#[verifier::ext_equal]
pub ghost struct BuilderView {
    pub mode: DialogMode,
    pub title: Option<Seq<char>>,
    pub filters: Option<Seq<char>>,
    pub path: Option<Seq<char>>,
    pub file_name: Option<Seq<char>>,
    pub max_selection: i32,
    pub modal: bool,
    pub flags: i32,
}

impl BuilderView {
    /// The configuration a fresh builder starts from: nothing set, single
    /// selection, non-modal, no flags.
    pub open spec fn init(mode: DialogMode) -> BuilderView {
        BuilderView {
            mode,
            title: None,
            filters: None,
            path: None,
            file_name: None,
            max_selection: 1,
            modal: false,
            flags: DIALOG_FLAGS_NONE,
        }
    }
}

/// The abstract value of a finalized request: the exact arguments of the one
/// native open call it stands for.  `filters` is `None` exactly when the
/// native call receives a null filter argument.
#[verifier::ext_equal]
pub ghost struct OpenRequestView {
    pub key: Seq<char>,
    pub title: Seq<char>,
    pub filters: Option<Seq<char>>,
    pub path: Seq<char>,
    pub file_name: Seq<char>,
    pub max_selection: i32,
    pub modal: bool,
    pub flags: i32,
}

/// The default title substituted when a request of the given mode sets none.
pub open spec fn default_title(mode: DialogMode) -> Seq<char> {
    match mode {
        DialogMode::OpenFile => "Open File"@,
        DialogMode::OpenDirectory => "Select Directory"@,
        DialogMode::SaveFile => "Save File"@,
    }
}

/// The filter argument a finalized request passes to the native call:
/// suppressed entirely in directory mode, the configured expression or the
/// match-all default `.*` in the file modes.
pub open spec fn resolved_filters(mode: DialogMode, filters: Option<Seq<char>>) -> Option<
    Seq<char>,
> {
    match mode {
        DialogMode::OpenDirectory => None,
        _ => match filters {
            Some(f) => Some(f),
            None => Some(".*"@),
        },
    }
}

/// The argument record of the native open call that finalizing configuration
/// `b` under dialog key `key` issues, defaults resolved.
pub open spec fn resolve_request(b: BuilderView, key: Seq<char>) -> OpenRequestView {
    OpenRequestView {
        key,
        title: match b.title {
            Some(t) => t,
            None => default_title(b.mode),
        },
        filters: resolved_filters(b.mode, b.filters),
        path: match b.path {
            Some(p) => p,
            None => "."@,
        },
        file_name: match b.file_name {
            Some(f) => f,
            None => ""@,
        },
        max_selection: b.max_selection,
        modal: b.modal,
        flags: b.flags,
    }
}

/// Whether every string of configuration `b`, and the key, can cross the
/// native boundary as a null-terminated byte string.
pub open spec fn builder_strings_ok(b: BuilderView, key: Seq<char>) -> bool {
    &&& !has_nul(key)
    &&& (b.title matches Some(t) ==> !has_nul(t))
    &&& (b.filters matches Some(f) ==> !has_nul(f))
    &&& (b.path matches Some(p) ==> !has_nul(p))
    &&& (b.file_name matches Some(f) ==> !has_nul(f))
}

/// Whether a selection of `count` entries respects a request's selection
/// cap: a cap of zero caps nothing, a positive cap bounds the count.
///
/// A correctly behaving native layer never reports a selection whose count
/// exceeds the cap of the request that opened the dialog; the bridge passes
/// the cap through verbatim and cannot enforce this locally.
pub open spec fn cap_allows(max_selection: i32, count: nat) -> bool {
    max_selection == 0 || count <= max_selection
}

/// For every dialog mode, a request finalized without an explicit filter
/// expression uses the match-all filter `.*` in the file modes and passes no
/// filter argument at all — not an empty one — in directory mode.
pub proof fn lemma_default_filter(b: BuilderView, key: Seq<char>)
    requires
        b.filters is None,
    ensures
        b.mode == DialogMode::OpenDirectory ==> resolve_request(b, key).filters is None,
        b.mode != DialogMode::OpenDirectory ==> resolve_request(b, key).filters == Some(".*"@),
{
}

/// A request finalized with a selection cap of zero admits selections of
/// every size: no count is ever out of bounds for it.
pub proof fn lemma_unlimited_selection(b: BuilderView, key: Seq<char>, count: nat)
    requires
        b.max_selection == 0,
    ensures
        cap_allows(resolve_request(b, key).max_selection, count),
{
}

/// An open request under construction.
///
/// Each configuration call consumes the builder and returns it for chaining;
/// finalizing it with [`FileDialogBuilder::build`] issues exactly one native
/// open call against a dialog context and consumes the builder for good.
pub struct FileDialogBuilder {
    mode: DialogMode,
    title: Option<String>,
    filters: Option<String>,
    path: Option<String>,
    file_name: Option<String>,
    max_selection: i32,
    modal: bool,
    flags: i32,
}

impl View for FileDialogBuilder {
    type V = BuilderView;

    closed spec fn view(&self) -> BuilderView {
        BuilderView {
            mode: self.mode,
            title: self.title.deep_view(),
            filters: self.filters.deep_view(),
            path: self.path.deep_view(),
            file_name: self.file_name.deep_view(),
            max_selection: self.max_selection,
            modal: self.modal,
            flags: self.flags,
        }
    }
}

impl FileDialogBuilder {
    /// A fresh builder for a request of the given mode, with every field
    /// still at its default.
    pub fn new(mode: DialogMode) -> (b: FileDialogBuilder)
        ensures
            b@ == BuilderView::init(mode),
    {
        let b = FileDialogBuilder {
            mode,
            title: None,
            filters: None,
            path: None,
            file_name: None,
            max_selection: 1,
            modal: false,
            flags: DIALOG_FLAGS_NONE,
        };
        proof {
            assert(b@ =~= BuilderView::init(mode));
        }
        b
    }

    /// Set the dialog title.
    pub fn title(self, title: &str) -> (r: Self)
        ensures
            r@ == (BuilderView { title: Some(title@), ..self@ }),
    {
        let r = FileDialogBuilder { title: Some(String::from_str(title)), ..self };
        proof {
            assert(r@ =~= (BuilderView { title: Some(title@), ..self@ }));
        }
        r
    }

    /// Set the file filter expression, e.g. `.txt,.md` or `.*`.
    ///
    /// Directory-mode requests suppress the filter argument entirely, whatever
    /// is set here.
    pub fn filters(self, filters: &str) -> (r: Self)
        ensures
            r@ == (BuilderView { filters: Some(filters@), ..self@ }),
    {
        let r = FileDialogBuilder { filters: Some(String::from_str(filters)), ..self };
        proof {
            assert(r@ =~= (BuilderView { filters: Some(filters@), ..self@ }));
        }
        r
    }

    /// Set the initial directory path.
    pub fn path(self, path: &str) -> (r: Self)
        ensures
            r@ == (BuilderView { path: Some(path@), ..self@ }),
    {
        let r = FileDialogBuilder { path: Some(String::from_str(path)), ..self };
        proof {
            assert(r@ =~= (BuilderView { path: Some(path@), ..self@ }));
        }
        r
    }

    /// Set the default file name offered by save dialogs.
    pub fn file_name(self, name: &str) -> (r: Self)
        ensures
            r@ == (BuilderView { file_name: Some(name@), ..self@ }),
    {
        let r = FileDialogBuilder { file_name: Some(String::from_str(name)), ..self };
        proof {
            assert(r@ =~= (BuilderView { file_name: Some(name@), ..self@ }));
        }
        r
    }

    /// Cap the number of selectable files: `0` means unlimited, `n > 0` caps
    /// the selection at `n`.  The default is `1`, single selection.
    pub fn multi_select(self, max: i32) -> (r: Self)
        ensures
            r@ == (BuilderView { max_selection: max, ..self@ }),
    {
        let r = FileDialogBuilder { max_selection: max, ..self };
        proof {
            assert(r@ =~= (BuilderView { max_selection: max, ..self@ }));
        }
        r
    }

    /// Make the dialog modal: finalization then goes through the modal native
    /// entry point.
    pub fn modal(self) -> (r: Self)
        ensures
            r@ == (BuilderView { modal: true, ..self@ }),
    {
        let r = FileDialogBuilder { modal: true, ..self };
        proof {
            assert(r@ =~= (BuilderView { modal: true, ..self@ }));
        }
        r
    }

    /// Ask for a confirmation dialog before overwriting an existing file.
    pub fn confirm_overwrite(self) -> (r: Self)
        ensures
            r@ == (BuilderView { flags: self@.flags | DIALOG_FLAG_CONFIRM_OVERWRITE, ..self@ }),
    {
        let new_flags = self.flags | DIALOG_FLAG_CONFIRM_OVERWRITE;
        let r = FileDialogBuilder { flags: new_flags, ..self };
        proof {
            assert(r@ =~= (BuilderView {
                flags: self@.flags | DIALOG_FLAG_CONFIRM_OVERWRITE,
                ..self@
            }));
        }
        r
    }

    /// Finalize the request under the given dialog key, consuming the
    /// builder and issuing exactly one native open call against `dialog`:
    /// the returned record holds the call's arguments verbatim, defaults
    /// resolved, and the key enters its open-to-close cycle.
    ///
    /// The request is rejected, and the context left untouched, when an
    /// application-supplied string cannot cross the native boundary, or when
    /// the key is still in an open-to-close cycle that no `close` has ended.
    pub fn build(self, dialog: &mut FileDialog, key: &str) -> (r: Result<
        OpenRequest,
        DialogError,
    >)
        requires
            old(dialog).wf(),
        ensures
            final(dialog).wf(),
            r is Ok <==> builder_strings_ok(self@, key@) && !old(dialog)@.open_keys.contains(key@),
            r matches Ok(req) ==> req@ == resolve_request(self@, key@) && final(dialog)@ == (
            DialogView { open_keys: old(dialog)@.open_keys.push(key@), ..old(dialog)@ }),
            r matches Err(e) ==> final(dialog)@ == old(dialog)@ && e == (
            if !builder_strings_ok(self@, key@) {
                DialogError::EmbeddedNul
            } else {
                DialogError::KeyAlreadyOpened
            }),
    {
        let ghost bv = self@;
        let strings_ok = is_nul_free(key) && opt_nul_free(&self.title) && opt_nul_free(
            &self.filters,
        ) && opt_nul_free(&self.path) && opt_nul_free(&self.file_name);
        if !strings_ok {
            return Err(DialogError::EmbeddedNul);
        }
        if dialog.is_key_opened(key) {
            return Err(DialogError::KeyAlreadyOpened);
        }
        let FileDialogBuilder { mode, title, filters, path, file_name, max_selection, modal, flags }
            = self;
        let key_owned = String::from_str(key);
        dialog.open_key(key_owned);
        let resolved_title = match title {
            Some(t) => t,
            None => match mode {
                DialogMode::OpenFile => String::from_str("Open File"),
                DialogMode::OpenDirectory => String::from_str("Select Directory"),
                DialogMode::SaveFile => String::from_str("Save File"),
            },
        };
        let resolved_filters = match mode {
            DialogMode::OpenDirectory => None,
            _ => match filters {
                Some(f) => Some(f),
                None => Some(String::from_str(".*")),
            },
        };
        let resolved_path = match path {
            Some(p) => p,
            None => String::from_str("."),
        };
        let resolved_file_name = match file_name {
            Some(f) => f,
            None => String::new(),
        };
        let req = OpenRequest {
            key: String::from_str(key),
            title: resolved_title,
            filters: resolved_filters,
            path: resolved_path,
            file_name: resolved_file_name,
            max_selection,
            modal,
            flags,
        };
        proof {
            reveal_strlit("");
            assert(Seq::<char>::empty() =~= ""@);
            assert(req@ =~= resolve_request(bv, key@));
        }
        Ok(req)
    }
}

/// Whether an optional configuration string, if set, can cross the native
/// boundary.
fn opt_nul_free(o: &Option<String>) -> (r: bool)
    ensures
        r == match o.deep_view() {
            Some(s) => !has_nul(s),
            None => true,
        },
{
    match o {
        Some(s) => is_nul_free(s.as_str()),
        None => true,
    }
}

/// A finalized open request: the exact arguments of the one native open call
/// that finalizing the builder issued.
///
/// `modal` selects between the plain and the modal native entry points; a
/// `filters` of `None` — directory mode — means the native call receives a
/// null filter argument, not an empty string.  The record is handed to the
/// glue that performs the native call and plays no further part in the
/// session.
#[derive(Debug)]
pub struct OpenRequest {
    pub key: String,
    pub title: String,
    pub filters: Option<String>,
    pub path: String,
    pub file_name: String,
    pub max_selection: i32,
    pub modal: bool,
    pub flags: i32,
}

impl View for OpenRequest {
    type V = OpenRequestView;

    open spec fn view(&self) -> OpenRequestView {
        OpenRequestView {
            key: self.key@,
            title: self.title@,
            filters: self.filters.deep_view(),
            path: self.path@,
            file_name: self.file_name@,
            max_selection: self.max_selection,
            modal: self.modal,
            flags: self.flags,
        }
    }
}

} // verus!
