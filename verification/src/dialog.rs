//! The dialog context and its session protocol.
//!
//! A [`FileDialog`] owns the state of one dialog context.  The native
//! renderer that actually draws the dialogs is an external collaborator: each
//! frame it either keeps a dialog on screen or reports that the user finished
//! it, and that report enters the model as a plain [`DisplayReport`] value.
//! Every decision taken on such a report — which keys count as opened, when
//! results may be handed out, what `close` tears down — is verified here.
//!
//! A session for one dialog key runs through one open-to-close cycle:
//! opened by finalizing a builder, polled once per frame with `display`,
//! queried through `is_ok` and the result accessors once it leaves the
//! screen, and torn down with `close` before the key can be reused.

use vstd::prelude::*;

use crate::nulfree::has_nul;
use crate::nulfree::is_nul_free;
use crate::request::BuilderView;
use crate::request::DialogError;
use crate::request::DialogMode;
use crate::request::FileDialogBuilder;
use crate::selection::PairView;
use crate::selection::Selection;
use crate::selection::SelectionPair;

verus! {

/// An RGBA color for per-extension styling, one byte per channel.
#[derive(Debug, Clone, Copy, PartialEq, Eq, Structural)]
pub struct StyleColor {
    pub red: u8,
    pub green: u8,
    pub blue: u8,
    pub alpha: u8,
}

/// The abstract value of one per-extension style entry.
#[verifier::ext_equal]
pub ghost struct StyleView {
    pub extension: Seq<char>,
    pub color: StyleColor,
    pub icon: Option<Seq<char>>,
}

/// Display styling for one extension filter: a color and an optional icon
/// text.  The entry lives on the dialog context; nothing is handed back to
/// the caller.
pub struct ExtensionInfo {
    pub extension: String,
    pub color: StyleColor,
    pub icon: Option<String>,
}

impl View for ExtensionInfo {
    type V = StyleView;

    open spec fn view(&self) -> StyleView {
        StyleView {
            extension: self.extension@,
            color: self.color,
            icon: self.icon.deep_view(),
        }
    }
}

impl DeepView for ExtensionInfo {
    type V = StyleView;

    open spec fn deep_view(&self) -> StyleView {
        self.view()
    }
}

/// The abstract value of a completion report.
#[verifier::ext_equal]
pub ghost struct OutcomeView {
    pub ok: bool,
    pub selection: Seq<PairView>,
    pub file_path_name: Option<Seq<char>>,
    pub current_path: Option<Seq<char>>,
    pub current_filter: Option<Seq<char>>,
}

/// Everything the native layer reports about a dialog that just left the
/// screen: whether the user confirmed, the selected entries, and the scalar
/// string results.  A `None` stands for a null result pointer — an absence,
/// never an error.
pub struct DialogOutcome {
    pub ok: bool,
    pub selection: Vec<SelectionPair>,
    pub file_path_name: Option<String>,
    pub current_path: Option<String>,
    pub current_filter: Option<String>,
}

impl View for DialogOutcome {
    type V = OutcomeView;

    open spec fn view(&self) -> OutcomeView {
        OutcomeView {
            ok: self.ok,
            selection: self.selection.deep_view(),
            file_path_name: self.file_path_name.deep_view(),
            current_path: self.current_path.deep_view(),
            current_filter: self.current_filter.deep_view(),
        }
    }
}

impl DeepView for DialogOutcome {
    type V = OutcomeView;

    open spec fn deep_view(&self) -> OutcomeView {
        self.view()
    }
}

/// What the native renderer reports for one dialog key in one frame: the
/// dialog is still on screen, or the user just finished it.
pub enum DisplayReport {
    /// The dialog is still visible; poll again next frame.
    Visible,
    /// The dialog left the screen this frame, with the given outcome.
    Completed(DialogOutcome),
}

/// The abstract value of a per-frame report.
pub ghost enum ReportView {
    Visible,
    Completed(OutcomeView),
}

impl View for DisplayReport {
    type V = ReportView;

    open spec fn view(&self) -> ReportView {
        match self {
            DisplayReport::Visible => ReportView::Visible,
            DisplayReport::Completed(o) => ReportView::Completed(o@),
        }
    }
}

/// The abstract state of a dialog context.
#[verifier::ext_equal]
pub ghost struct DialogView {
    /// Keys with an open-to-close cycle in progress, in order of opening.
    pub open_keys: Seq<Seq<char>>,
    /// The key whose session has completed but has not been closed yet.
    pub pending_close: Option<Seq<char>>,
    /// The most recent completion report, if any.
    pub outcome: Option<OutcomeView>,
    /// The serialized bookmark store.
    pub bookmarks: Seq<char>,
    /// The per-extension style entries, one per extension filter.
    pub styles: Seq<StyleView>,
}

impl DialogView {
    /// The state of a freshly created context: nothing opened, nothing
    /// reported, no bookmarks, no styles.
    pub open spec fn init() -> DialogView {
        DialogView {
            open_keys: Seq::empty(),
            pending_close: None,
            outcome: None,
            bookmarks: Seq::empty(),
            styles: Seq::empty(),
        }
    }
}

/// Whether the dialog has an outcome on record and that outcome is a
/// confirmation.
pub open spec fn spec_is_ok(v: DialogView) -> bool {
    v.outcome matches Some(o) && o.ok
}

/// Whether one `display` poll for `key` keeps the dialog on screen: the key
/// must be in an open-to-close cycle, its session must not already have
/// completed, and the native renderer must report it visible.
pub open spec fn display_visible(v: DialogView, key: Seq<char>, r: ReportView) -> bool {
    &&& v.open_keys.contains(key)
    &&& v.pending_close != Some(key)
    &&& r is Visible
}

/// The state after one `display` poll for `key`: a completion report for a
/// live session is recorded and marks the session as awaiting `close`;
/// everything else leaves the state unchanged.
pub open spec fn display_spec(v: DialogView, key: Seq<char>, r: ReportView) -> DialogView {
    if v.open_keys.contains(key) && v.pending_close != Some(key) {
        match r {
            ReportView::Visible => v,
            ReportView::Completed(o) => DialogView {
                pending_close: Some(key),
                outcome: Some(o),
                ..v
            },
        }
    } else {
        v
    }
}

/// The selection table of the outcome on record, empty when there is none.
pub open spec fn spec_selection(v: DialogView) -> Seq<PairView> {
    match v.outcome {
        Some(o) => o.selection,
        None => Seq::empty(),
    }
}

/// The full file path the outcome on record carries, `None` unless that
/// outcome is a confirmation that reported one.
pub open spec fn spec_file_path_name(v: DialogView) -> Option<Seq<char>> {
    match v.outcome {
        Some(o) => if o.ok {
            o.file_path_name
        } else {
            None
        },
        None => None,
    }
}

/// The current directory path the outcome on record carries, `None` unless
/// that outcome is a confirmation that reported one.
pub open spec fn spec_current_path(v: DialogView) -> Option<Seq<char>> {
    match v.outcome {
        Some(o) => if o.ok {
            o.current_path
        } else {
            None
        },
        None => None,
    }
}

/// The active filter the outcome on record carries, `None` unless that
/// outcome is a confirmation that reported one.
pub open spec fn spec_current_filter(v: DialogView) -> Option<Seq<char>> {
    match v.outcome {
        Some(o) => if o.ok {
            o.current_filter
        } else {
            None
        },
        None => None,
    }
}

/// Well-formedness of a dialog context: every key and style entry is unique
/// and fit to cross the native boundary, and a pending close refers to an
/// open key.
pub open spec fn dialog_wf(v: DialogView) -> bool {
    &&& forall|i: int, j: int|
        0 <= i < j < v.open_keys.len() ==> v.open_keys[i] != v.open_keys[j]
    &&& forall|i: int| 0 <= i < v.open_keys.len() ==> !has_nul(#[trigger] v.open_keys[i])
    &&& (v.pending_close matches Some(k) ==> v.open_keys.contains(k))
    &&& !has_nul(v.bookmarks)
    &&& forall|i: int, j: int|
        0 <= i < j < v.styles.len() ==> v.styles[i].extension != v.styles[j].extension
    &&& forall|i: int|
        0 <= i < v.styles.len() ==> !has_nul(#[trigger] v.styles[i].extension) && (v.styles[i].icon
            matches Some(ic) ==> !has_nul(ic))
}

/// One dialog context.
///
/// The context exclusively owns the state of one native dialog instance; it
/// can be moved but not duplicated, and everything obtained from it is an
/// owned value, so nothing can outlive or double-release it.
pub struct FileDialog {
    open_keys: Vec<String>,
    pending_close: Option<String>,
    outcome: Option<DialogOutcome>,
    bookmarks: String,
    styles: Vec<ExtensionInfo>,
}

impl Default for FileDialog {
    /// A fresh dialog context, as [`FileDialog::new`] creates it.
    fn default() -> (d: Self)
        ensures
            d@ == DialogView::init(),
            d.wf(),
    {
        FileDialog::new()
    }
}

impl View for FileDialog {
    type V = DialogView;

    closed spec fn view(&self) -> DialogView {
        DialogView {
            open_keys: self.open_keys.deep_view(),
            pending_close: self.pending_close.deep_view(),
            outcome: self.outcome.deep_view(),
            bookmarks: self.bookmarks@,
            styles: self.styles.deep_view(),
        }
    }
}

impl FileDialog {
    /// Whether the context is well formed.  `new` establishes this and every
    /// operation preserves it.
    pub open spec fn wf(&self) -> bool {
        dialog_wf(self@)
    }

    /// Create a fresh dialog context.
    pub fn new() -> (d: FileDialog)
        ensures
            d@ == DialogView::init(),
            d.wf(),
    {
        let d = FileDialog {
            open_keys: Vec::new(),
            pending_close: None,
            outcome: None,
            bookmarks: String::new(),
            styles: Vec::new(),
        };
        proof {
            assert(d@ =~= DialogView::init());
        }
        d
    }

    /// Start configuring a file-open request against this context.
    pub fn open_file(&self) -> (b: FileDialogBuilder)
        ensures
            b@ == BuilderView::init(DialogMode::OpenFile),
    {
        FileDialogBuilder::new(DialogMode::OpenFile)
    }

    /// Start configuring a directory-open request against this context.
    pub fn open_directory(&self) -> (b: FileDialogBuilder)
        ensures
            b@ == BuilderView::init(DialogMode::OpenDirectory),
    {
        FileDialogBuilder::new(DialogMode::OpenDirectory)
    }

    /// Start configuring a save-file request against this context.
    pub fn save_file(&self) -> (b: FileDialogBuilder)
        ensures
            b@ == BuilderView::init(DialogMode::SaveFile),
    {
        FileDialogBuilder::new(DialogMode::SaveFile)
    }

    /// Record that an open call for `key` was issued, starting the key's
    /// open-to-close cycle.
    pub(crate) fn open_key(&mut self, key: String)
        requires
            old(self).wf(),
            !has_nul(key@),
            !old(self)@.open_keys.contains(key@),
        ensures
            final(self).wf(),
            final(self)@ == (DialogView {
                open_keys: old(self)@.open_keys.push(key@),
                ..old(self)@
            }),
    {
        let ghost kv = key@;
        let ghost olds = old(self)@.open_keys;
        self.open_keys.push(key);
        proof {
            assert(self@ =~= (DialogView { open_keys: olds.push(kv), ..old(self)@ }));
            let news = self@.open_keys;
            assert forall|i: int, j: int| 0 <= i < j < news.len() implies news[i] != news[j] by {
                if j < olds.len() {
                    assert(news[i] == olds[i] && news[j] == olds[j]);
                } else {
                    assert(news[j] == kv);
                    assert(news[i] == olds[i]);
                    assert(!olds.contains(kv));
                }
            }
            assert forall|i: int| 0 <= i < news.len() implies !has_nul(#[trigger] news[i]) by {
                if i < olds.len() {
                    assert(news[i] == olds[i]);
                } else {
                    assert(news[i] == kv);
                }
            }
            if old(self)@.pending_close is Some {
                let pk = old(self)@.pending_close->Some_0;
                let wit = choose|w: int| 0 <= w < olds.len() && olds[w] == pk;
                assert(news[wit] == pk);
                assert(news.contains(pk));
            }
        }
    }

    /// Whether the user confirmed the most recently completed dialog.
    /// Reports `false` before any session completes, and after a
    /// cancellation.
    pub fn is_ok(&self) -> (r: bool)
        ensures
            r == spec_is_ok(self@),
    {
        match &self.outcome {
            Some(o) => o.ok,
            None => false,
        }
    }

    /// Whether any dialog key is currently in an open-to-close cycle.
    /// Usable at any time; reports `false` before any open call.
    pub fn is_opened(&self) -> (r: bool)
        ensures
            r == (self@.open_keys.len() != 0),
    {
        self.open_keys.len() != 0
    }

    /// Whether the given dialog key is currently in an open-to-close cycle.
    /// Usable at any time; reports `false` before any open call.
    pub fn is_key_opened(&self, key: &str) -> (r: bool)
        ensures
            r == self@.open_keys.contains(key@),
    {
        contains_string(&self.open_keys, key)
    }

    /// Whether the given dialog key's session has completed and now awaits
    /// its `close`.  While this holds, the dialog is no longer drawn: a
    /// `display` poll for the key resolves to not-visible without consulting
    /// the renderer.
    pub fn is_key_pending_close(&self, key: &str) -> (r: bool)
        ensures
            r == (self@.pending_close == Some(key@)),
    {
        match &self.pending_close {
            Some(k) => string_eq_str(k, key),
            None => false,
        }
    }

    /// Poll the dialog identified by `key` for one frame, handing in what the
    /// native renderer reports for it, and return whether the dialog is still
    /// visible.  While it is, the caller polls again next frame with the same
    /// key; once it is not, the caller queries [`FileDialog::is_ok`], extracts
    /// results, and calls [`FileDialog::close`].
    ///
    /// A key that is not in an open-to-close cycle, or whose session has
    /// already completed, shows nothing: the poll reports not-visible and
    /// changes no state.
    pub fn display(&mut self, key: &str, report: DisplayReport) -> (visible: bool)
        requires
            old(self).wf(),
        ensures
            final(self).wf(),
            visible == display_visible(old(self)@, key@, report@),
            final(self)@ == display_spec(old(self)@, key@, report@),
    {
        if !contains_string(&self.open_keys, key) {
            return false;
        }
        if self.is_key_pending_close(key) {
            return false;
        }
        assert(self@.pending_close != Some(key@));
        match report {
            DisplayReport::Visible => true,
            DisplayReport::Completed(outcome) => {
                let ghost ov = outcome@;
                self.outcome = Some(outcome);
                self.pending_close = Some(String::from_str(key));
                proof {
                    assert(self@ =~= (DialogView {
                        pending_close: Some(key@),
                        outcome: Some(ov),
                        ..old(self)@
                    }));
                }
                false
            },
        }
    }

    /// Tear down the completed session, freeing its key for reuse.
    ///
    /// Exactly one `close` ends each completed session; before any session
    /// completes — or right after a `close` — the call changes nothing.  The
    /// outcome on record stays readable until the next session completes.
    pub fn close(&mut self)
        requires
            old(self).wf(),
        ensures
            final(self).wf(),
            old(self)@.pending_close is None ==> final(self)@ == old(self)@,
            old(self)@.pending_close matches Some(k) ==> {
                &&& final(self)@.pending_close is None
                &&& !final(self)@.open_keys.contains(k)
                &&& exists|i: int|
                    0 <= i < old(self)@.open_keys.len() && old(self)@.open_keys[i] == k
                        && final(self)@ == (DialogView {
                        open_keys: old(self)@.open_keys.remove(i),
                        pending_close: None,
                        ..old(self)@
                    })
            },
    {
        let pending = self.pending_close.take();
        match pending {
            None => {
                proof {
                    assert(self@ =~= old(self)@);
                }
            },
            Some(k) => {
                let idx_opt = index_of_string(&self.open_keys, &k);
                match idx_opt {
                    Some(idx) => {
                        let ghost olds = old(self)@.open_keys;
                        let ghost kv = k@;
                        self.open_keys.remove(idx);
                        proof {
                            assert(self.open_keys@ == old(self).open_keys@.remove(idx as int));
                            assert forall|j: int|
                                0 <= j < self@.open_keys.len() implies self@.open_keys[j]
                                == olds.remove(idx as int)[j] by {
                                if j < idx as int {
                                    assert(self.open_keys@[j] == old(self).open_keys@[j]);
                                } else {
                                    assert(self.open_keys@[j] == old(self).open_keys@[j + 1]);
                                }
                            }
                            assert(self@.open_keys =~= olds.remove(idx as int));
                            assert(self@ =~= (DialogView {
                                open_keys: olds.remove(idx as int),
                                pending_close: None,
                                ..old(self)@
                            }));
                            assert forall|j: int|
                                0 <= j < self@.open_keys.len() implies self@.open_keys[j]
                                != kv by {
                                if j < idx as int {
                                    assert(olds[j] != olds[idx as int]);
                                } else {
                                    assert(olds[j + 1] != olds[idx as int]);
                                }
                            }
                            assert(!self@.open_keys.contains(kv));
                        }
                    },
                    None => {
                        proof {
                            // A pending close always refers to an open key.
                            assert(old(self)@.pending_close == Some(k@));
                            assert(old(self)@.open_keys.contains(k@));
                            assert(false);
                        }
                    },
                }
            },
        }
    }
}

impl FileDialog {
    /// The files the user selected, valid only after a confirmed session:
    /// without a confirmation on record there is nothing to hand out.  The
    /// returned table owns its entries; they are exactly what the native
    /// layer reported, unchanged in count and content.
    pub fn selection(&self) -> (r: Option<Selection>)
        ensures
            spec_is_ok(self@) ==> (r matches Some(s) && s@ == spec_selection(self@)),
            !spec_is_ok(self@) ==> r is None,
    {
        if !self.is_ok() {
            return None;
        }
        match &self.outcome {
            Some(o) => Some(Selection::new(clone_pairs(&o.selection))),
            None => {
                proof {
                    assert(false);
                }
                None
            },
        }
    }

    /// The full path of the chosen file — the result of a save dialog.
    /// `None` when the session was cancelled or the native layer reported
    /// nothing.
    pub fn file_path_name(&self) -> (r: Option<String>)
        ensures
            r.deep_view() == spec_file_path_name(self@),
    {
        if !self.is_ok() {
            return None;
        }
        match &self.outcome {
            Some(o) => clone_opt_string(&o.file_path_name),
            None => {
                proof {
                    assert(false);
                }
                None
            },
        }
    }

    /// The directory the dialog was browsing when it completed, valid only
    /// after a confirmed session: without a confirmation on record the
    /// browsing state is stale and is never exposed as a value.
    pub fn current_path(&self) -> (r: Option<String>)
        ensures
            r.deep_view() == spec_current_path(self@),
    {
        if !self.is_ok() {
            return None;
        }
        match &self.outcome {
            Some(o) => clone_opt_string(&o.current_path),
            None => {
                proof {
                    assert(false);
                }
                None
            },
        }
    }

    /// The filter that was active when the dialog completed, valid only
    /// after a confirmed session: without a confirmation on record the
    /// filter state is stale and is never exposed as a value.
    pub fn current_filter(&self) -> (r: Option<String>)
        ensures
            r.deep_view() == spec_current_filter(self@),
    {
        if !self.is_ok() {
            return None;
        }
        match &self.outcome {
            Some(o) => clone_opt_string(&o.current_filter),
            None => {
                proof {
                    assert(false);
                }
                None
            },
        }
    }
}

/// Whether the style table holds an entry for the given extension filter.
pub open spec fn has_style(styles: Seq<StyleView>, ext: Seq<char>) -> bool {
    exists|i: int| 0 <= i < styles.len() && styles[i].extension == ext
}

/// The state after clearing all per-extension styling.
pub open spec fn clear_styles_spec(v: DialogView) -> DialogView {
    DialogView { styles: Seq::empty(), ..v }
}

/// The state after replacing the bookmark store with `bookmarks`.
pub open spec fn deserialize_bookmarks_spec(v: DialogView, bookmarks: Seq<char>) -> DialogView {
    DialogView { bookmarks, ..v }
}

/// The serialized form of the bookmark store.
pub open spec fn serialize_bookmarks_spec(v: DialogView) -> Seq<char> {
    v.bookmarks
}

impl FileDialog {
    /// Set the display styling — a color and an optional icon text — for one
    /// extension filter on this context.  An existing entry for the same
    /// extension is replaced in place; otherwise a new entry is appended.
    /// Nothing is handed back to the caller: the entry's lifetime is tied to
    /// the context.
    ///
    /// Rejected, with the context untouched, when the extension or the icon
    /// cannot cross the native boundary.
    pub fn set_extension_infos(&mut self, extension: &str, color: StyleColor, icon: Option<&str>)
        -> (r: Result<(), DialogError>)
        requires
            old(self).wf(),
        ensures
            final(self).wf(),
            r is Ok <==> !has_nul(extension@) && (icon matches Some(ic) ==> !has_nul(ic@)),
            r matches Err(e) ==> final(self)@ == old(self)@ && e == DialogError::EmbeddedNul,
            r is Ok ==> {
                let e = (StyleView { extension: extension@, color, icon: icon.deep_view() });
                &&& final(self)@.open_keys == old(self)@.open_keys
                &&& final(self)@.pending_close == old(self)@.pending_close
                &&& final(self)@.outcome == old(self)@.outcome
                &&& final(self)@.bookmarks == old(self)@.bookmarks
                &&& if has_style(old(self)@.styles, extension@) {
                    exists|i: int|
                        0 <= i < old(self)@.styles.len() && old(self)@.styles[i].extension
                            == extension@ && final(self)@.styles == old(self)@.styles.update(i, e)
                } else {
                    final(self)@.styles == old(self)@.styles.push(e)
                }
            },
    {
        let ext_ok = is_nul_free(extension);
        let icon_ok = match icon {
            Some(ic) => is_nul_free(ic),
            None => true,
        };
        if !(ext_ok && icon_ok) {
            return Err(DialogError::EmbeddedNul);
        }
        let info = ExtensionInfo {
            extension: String::from_str(extension),
            color,
            icon: match icon {
                Some(ic) => Some(String::from_str(ic)),
                None => None,
            },
        };
        let ghost e = info@;
        let ghost olds = old(self)@.styles;
        let idx_opt = index_of_extension(&self.styles, extension);
        match idx_opt {
            Some(i) => {
                self.styles[i] = info;
                proof {
                    assert(self@.styles =~= olds.update(i as int, e));
                    assert(self@ =~= (DialogView {
                        styles: olds.update(i as int, e),
                        ..old(self)@
                    }));
                    lemma_styles_update_wf(olds, i as int, e);
                    assert(dialog_wf(self@));
                }
                Ok(())
            },
            None => {
                self.styles.push(info);
                proof {
                    assert(self@.styles =~= olds.push(e));
                    assert(self@ =~= (DialogView { styles: olds.push(e), ..old(self)@ }));
                    assert(!has_style(olds, extension@));
                    lemma_styles_push_wf(olds, e);
                    assert(dialog_wf(self@));
                }
                Ok(())
            },
        }
    }

    /// Drop every per-extension style entry from the context.  Clearing an
    /// already empty table changes nothing, so a second call in a row is a
    /// no-op.
    pub fn clear_extension_infos(&mut self)
        requires
            old(self).wf(),
        ensures
            final(self).wf(),
            final(self)@ == clear_styles_spec(old(self)@),
    {
        self.styles.clear();
        proof {
            assert(self@ =~= clear_styles_spec(old(self)@));
        }
    }

    /// The bookmark store, serialized for saving.  An empty store
    /// serializes to the empty string.
    pub fn serialize_bookmarks(&self) -> (r: String)
        ensures
            r@ == serialize_bookmarks_spec(self@),
    {
        self.bookmarks.clone()
    }

    /// Replace the bookmark store with a previously serialized one.
    ///
    /// Rejected, with the context untouched, when the string cannot cross
    /// the native boundary.
    pub fn deserialize_bookmarks(&mut self, bookmarks: &str) -> (r: Result<(), DialogError>)
        requires
            old(self).wf(),
        ensures
            final(self).wf(),
            r is Ok <==> !has_nul(bookmarks@),
            r matches Err(e) ==> final(self)@ == old(self)@ && e == DialogError::EmbeddedNul,
            r is Ok ==> final(self)@ == deserialize_bookmarks_spec(old(self)@, bookmarks@),
    {
        if !is_nul_free(bookmarks) {
            return Err(DialogError::EmbeddedNul);
        }
        self.bookmarks = String::from_str(bookmarks);
        proof {
            assert(self@ =~= deserialize_bookmarks_spec(old(self)@, bookmarks@));
        }
        Ok(())
    }
}

/// Updating a style entry in place keeps the style table well formed, as
/// long as the new entry keeps the replaced entry's extension.
proof fn lemma_styles_update_wf(styles: Seq<StyleView>, i: int, e: StyleView)
    requires
        0 <= i < styles.len(),
        styles[i].extension == e.extension,
        !has_nul(e.extension),
        e.icon matches Some(ic) ==> !has_nul(ic),
        forall|a: int, b: int|
            0 <= a < b < styles.len() ==> styles[a].extension != styles[b].extension,
        forall|a: int|
            0 <= a < styles.len() ==> !has_nul(#[trigger] styles[a].extension) && (styles[a].icon
                matches Some(ic) ==> !has_nul(ic)),
    ensures
        forall|a: int, b: int|
            0 <= a < b < styles.update(i, e).len() ==> styles.update(i, e)[a].extension
                != styles.update(i, e)[b].extension,
        forall|a: int|
            0 <= a < styles.update(i, e).len() ==> !has_nul(
                #[trigger] styles.update(i, e)[a].extension,
            ) && (styles.update(i, e)[a].icon matches Some(ic) ==> !has_nul(ic)),
{
    let news = styles.update(i, e);
    assert forall|a: int, b: int|
        0 <= a < b < news.len() implies news[a].extension != news[b].extension by {
        assert(news[a].extension == styles[a].extension);
        assert(news[b].extension == styles[b].extension);
    }
    assert forall|a: int|
        0 <= a < news.len() implies !has_nul(#[trigger] news[a].extension) && (news[a].icon
        matches Some(ic) ==> !has_nul(ic)) by {
        if a != i {
            assert(news[a] == styles[a]);
        }
    }
}

/// Appending a style entry for a fresh extension keeps the style table well
/// formed.
proof fn lemma_styles_push_wf(styles: Seq<StyleView>, e: StyleView)
    requires
        !has_style(styles, e.extension),
        !has_nul(e.extension),
        e.icon matches Some(ic) ==> !has_nul(ic),
        forall|a: int, b: int|
            0 <= a < b < styles.len() ==> styles[a].extension != styles[b].extension,
        forall|a: int|
            0 <= a < styles.len() ==> !has_nul(#[trigger] styles[a].extension) && (styles[a].icon
                matches Some(ic) ==> !has_nul(ic)),
    ensures
        forall|a: int, b: int|
            0 <= a < b < styles.push(e).len() ==> styles.push(e)[a].extension != styles.push(
                e,
            )[b].extension,
        forall|a: int|
            0 <= a < styles.push(e).len() ==> !has_nul(#[trigger] styles.push(e)[a].extension) && (
            styles.push(e)[a].icon matches Some(ic) ==> !has_nul(ic)),
{
    let news = styles.push(e);
    assert forall|a: int, b: int|
        0 <= a < b < news.len() implies news[a].extension != news[b].extension by {
        if b < styles.len() {
            assert(news[a] == styles[a] && news[b] == styles[b]);
        } else {
            assert(news[b] == e);
            assert(news[a] == styles[a]);
            assert(!(styles[a].extension == e.extension));
        }
    }
    assert forall|a: int|
        0 <= a < news.len() implies !has_nul(#[trigger] news[a].extension) && (news[a].icon
        matches Some(ic) ==> !has_nul(ic)) by {
        if a < styles.len() {
            assert(news[a] == styles[a]);
        } else {
            assert(news[a] == e);
        }
    }
}

/// The first position in `styles` holding an entry for `extension`, if any.
fn index_of_extension(styles: &Vec<ExtensionInfo>, extension: &str) -> (r: Option<usize>)
    ensures
        r matches Some(i) ==> (i as int) < styles.deep_view().len() && styles.deep_view()[i as int].extension
            == extension@,
        r is None ==> !has_style(styles.deep_view(), extension@),
{
    let needle = String::from_str(extension);
    let n = styles.len();
    let mut i: usize = 0;
    while i < n
        invariant
            n == styles.len(),
            i <= n,
            needle@ == extension@,
            forall|j: int| 0 <= j < i ==> styles.deep_view()[j].extension != extension@,
        decreases n - i,
    {
        if styles[i].extension == needle {
            assert(styles.deep_view()[i as int].extension == extension@);
            return Some(i);
        }
        i = i + 1;
    }
    proof {
        assert forall|j: int|
            0 <= j < styles.deep_view().len() implies styles.deep_view()[j].extension
            != extension@ by {}
    }
    None
}

/// An owned copy of a decoded selection table.
fn clone_pairs(pairs: &Vec<SelectionPair>) -> (r: Vec<SelectionPair>)
    ensures
        r.deep_view() == pairs.deep_view(),
{
    let mut r: Vec<SelectionPair> = Vec::new();
    let n = pairs.len();
    let mut i: usize = 0;
    while i < n
        invariant
            n == pairs.len(),
            i <= n,
            r.deep_view().len() == i as nat,
            forall|j: int| 0 <= j < i ==> r.deep_view()[j] == pairs.deep_view()[j],
        decreases n - i,
    {
        let pair = SelectionPair {
            file_name: pairs[i].file_name.clone(),
            file_path_name: pairs[i].file_path_name.clone(),
        };
        r.push(pair);
        i = i + 1;
    }
    proof {
        assert(r.deep_view() =~= pairs.deep_view());
    }
    r
}

/// An owned copy of an optional string result.
fn clone_opt_string(o: &Option<String>) -> (r: Option<String>)
    ensures
        r.deep_view() == o.deep_view(),
{
    match o {
        Some(s) => Some(s.clone()),
        None => None,
    }
}

/// Clearing the per-extension styling is idempotent: a second clearing in a
/// row finds the style table already empty and changes nothing at all.
pub proof fn lemma_clear_extension_infos_idempotent(v: DialogView)
    ensures
        clear_styles_spec(clear_styles_spec(v)) == clear_styles_spec(v),
{
    assert(clear_styles_spec(clear_styles_spec(v)) =~= clear_styles_spec(v));
}

/// Serializing the bookmark store and deserializing the result restores the
/// context exactly: the serialized form is always fit to cross the native
/// boundary again, and feeding it back changes nothing.
pub proof fn lemma_bookmarks_round_trip(v: DialogView)
    requires
        dialog_wf(v),
    ensures
        !has_nul(serialize_bookmarks_spec(v)),
        deserialize_bookmarks_spec(v, serialize_bookmarks_spec(v)) == v,
{
    assert(deserialize_bookmarks_spec(v, serialize_bookmarks_spec(v)) =~= v);
}

/// Whether the characters of `a` equal those of `key`.
fn string_eq_str(a: &String, key: &str) -> (r: bool)
    ensures
        r == (a@ == key@),
{
    let k = String::from_str(key);
    *a == k
}

/// The first position in `keys` holding a string whose characters equal
/// `key`'s, if there is one.
fn index_of_string(keys: &Vec<String>, key: &String) -> (r: Option<usize>)
    ensures
        r matches Some(i) ==> (i as int) < keys.deep_view().len() && keys.deep_view()[i as int]
            == key@,
        r is None ==> !keys.deep_view().contains(key@),
{
    let n = keys.len();
    let mut i: usize = 0;
    while i < n
        invariant
            n == keys.len(),
            i <= n,
            forall|j: int| 0 <= j < i ==> keys.deep_view()[j] != key@,
        decreases n - i,
    {
        if keys[i] == *key {
            return Some(i);
        }
        i = i + 1;
    }
    proof {
        assert forall|j: int|
            0 <= j < keys.deep_view().len() implies keys.deep_view()[j] != key@ by {}
    }
    None
}

/// Whether `keys` holds a string whose characters equal `key`'s.
fn contains_string(keys: &Vec<String>, key: &str) -> (r: bool)
    ensures
        r == keys.deep_view().contains(key@),
{
    let needle = String::from_str(key);
    let n = keys.len();
    let mut i: usize = 0;
    while i < n
        invariant
            n == keys.len(),
            i <= n,
            needle@ == key@,
            forall|j: int| 0 <= j < i ==> keys.deep_view()[j] != key@,
        decreases n - i,
    {
        if keys[i] == needle {
            assert(keys.deep_view()[i as int] == key@);
            return true;
        }
        i = i + 1;
    }
    proof {
        assert(forall|j: int| 0 <= j < keys.deep_view().len() ==> keys.deep_view()[j] != key@);
    }
    false
}

} // verus!
