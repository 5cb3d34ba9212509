//! Tests for the session protocol and the result-extraction layer: the
//! per-frame display/poll cycle, close discipline, and owned result values.

use imgui_filedialog::DialogError;
use imgui_filedialog::DialogOutcome;
use imgui_filedialog::DisplayReport;
use imgui_filedialog::FileDialog;
use imgui_filedialog::Selection;
use imgui_filedialog::SelectionPair;

fn pair(name: &str, path: &str) -> SelectionPair {
    SelectionPair {
        file_name: name.to_string(),
        file_path_name: path.to_string(),
    }
}

fn confirmed(pairs: Vec<SelectionPair>) -> DialogOutcome {
    DialogOutcome {
        ok: true,
        selection: pairs,
        file_path_name: None,
        current_path: None,
        current_filter: None,
    }
}

fn cancelled() -> DialogOutcome {
    DialogOutcome {
        ok: false,
        selection: Vec::new(),
        file_path_name: None,
        current_path: None,
        current_filter: None,
    }
}

#[test]
fn open_file_session_hands_selection_through_unchanged() {
    // Build an open-file request, poll it for a few frames, confirm it with
    // a simulated native report, and read back exactly what was reported.
    let mut d = FileDialog::new();
    d.open_file()
        .title("Select a File")
        .filters(".txt,.md")
        .path(".")
        .build(&mut d, "choose_file")
        .unwrap();

    assert!(d.display("choose_file", DisplayReport::Visible));
    assert!(d.display("choose_file", DisplayReport::Visible));
    assert!(!d.is_ok());

    let report = DisplayReport::Completed(confirmed(vec![
        pair("a.txt", "/home/user/a.txt"),
        pair("b.md", "/home/user/b.md"),
    ]));
    assert!(!d.display("choose_file", report));

    assert!(d.is_ok());
    let s = d.selection().unwrap();
    assert_eq!(s.count(), 2);
    assert_eq!(
        s.files(),
        vec!["/home/user/a.txt".to_string(), "/home/user/b.md".to_string()]
    );
    d.close();
    assert!(!d.is_key_opened("choose_file"));
}

#[test]
fn display_reports_not_visible_for_unopened_key() {
    let mut d = FileDialog::new();
    assert!(!d.display("never_opened", DisplayReport::Visible));
    assert!(!d.is_opened());
}

#[test]
fn display_reports_not_visible_after_completion() {
    let mut d = FileDialog::new();
    d.open_file().build(&mut d, "k").unwrap();
    assert!(!d.display("k", DisplayReport::Completed(cancelled())));
    // The session completed: the dialog is no longer drawn, whatever the
    // renderer would say, until the key is closed.
    assert!(!d.display("k", DisplayReport::Visible));
    assert!(d.is_key_opened("k"));
}

#[test]
fn reusing_a_key_requires_an_intervening_close() {
    let mut d = FileDialog::new();
    d.open_file().build(&mut d, "session").unwrap();
    assert!(!d.display("session", DisplayReport::Completed(cancelled())));

    // Reopening without close is rejected, not silently accepted.
    let second = d.open_file().build(&mut d, "session");
    assert_eq!(second.unwrap_err(), DialogError::KeyAlreadyOpened);

    d.close();
    assert!(!d.is_key_opened("session"));
    assert!(d.open_file().build(&mut d, "session").is_ok());
}

#[test]
fn close_without_a_completed_session_changes_nothing() {
    let mut d = FileDialog::new();
    d.close();
    assert!(!d.is_opened());
    d.open_file().build(&mut d, "k").unwrap();
    // No session has completed yet, so there is nothing to tear down.
    d.close();
    assert!(d.is_key_opened("k"));
}

#[test]
fn cancelled_session_yields_no_results_and_no_error() {
    let mut d = FileDialog::new();
    d.open_file().build(&mut d, "k").unwrap();
    assert!(!d.display("k", DisplayReport::Completed(cancelled())));
    assert!(!d.is_ok());
    assert!(d.selection().is_none());
    assert!(d.file_path_name().is_none());
    d.close();
}

#[test]
fn save_session_reports_the_chosen_path() {
    let mut d = FileDialog::new();
    d.save_file().file_name("out.txt").build(&mut d, "save").unwrap();
    let outcome = DialogOutcome {
        ok: true,
        selection: Vec::new(),
        file_path_name: Some("/home/user/out.txt".to_string()),
        current_path: Some("/home/user".to_string()),
        current_filter: Some(".txt".to_string()),
    };
    assert!(!d.display("save", DisplayReport::Completed(outcome)));
    assert!(d.is_ok());
    assert_eq!(d.file_path_name().as_deref(), Some("/home/user/out.txt"));
    assert_eq!(d.current_path().as_deref(), Some("/home/user"));
    assert_eq!(d.current_filter().as_deref(), Some(".txt"));
}

#[test]
fn absent_native_results_map_to_none() {
    let mut d = FileDialog::new();
    // Before any session completes there is nothing to report.
    assert!(d.current_path().is_none());
    assert!(d.current_filter().is_none());
    assert!(d.file_path_name().is_none());

    d.save_file().build(&mut d, "k").unwrap();
    assert!(!d.display("k", DisplayReport::Completed(confirmed(Vec::new()))));
    // The session was confirmed, but the native layer reported null
    // pointers: an absence, not an error.
    assert!(d.is_ok());
    assert!(d.file_path_name().is_none());
    assert!(d.current_path().is_none());
    assert!(d.current_filter().is_none());
}

#[test]
fn cancelled_session_withholds_every_result() {
    let mut d = FileDialog::new();
    d.open_file().build(&mut d, "k").unwrap();
    let outcome = DialogOutcome {
        ok: false,
        selection: Vec::new(),
        file_path_name: Some("/ignored".to_string()),
        current_path: Some("/browsed/here".to_string()),
        current_filter: Some(".txt".to_string()),
    };
    assert!(!d.display("k", DisplayReport::Completed(outcome)));
    assert!(!d.is_ok());
    // Without a confirmation, every result is stale and none is exposed as
    // a value, even though the report carried some.
    assert!(d.file_path_name().is_none());
    assert!(d.current_path().is_none());
    assert!(d.current_filter().is_none());
}

#[test]
fn completed_session_awaits_close() {
    let mut d = FileDialog::new();
    assert!(!d.is_key_pending_close("k"));
    d.open_file().build(&mut d, "k").unwrap();
    assert!(!d.is_key_pending_close("k"));
    assert!(!d.display("k", DisplayReport::Completed(cancelled())));
    assert!(d.is_key_pending_close("k"));
    assert!(!d.is_key_pending_close("other"));
    d.close();
    assert!(!d.is_key_pending_close("k"));
}

#[test]
fn unlimited_selection_passes_every_entry_through() {
    let mut d = FileDialog::new();
    d.open_file().multi_select(0).build(&mut d, "many").unwrap();
    let n = 1000;
    let pairs: Vec<SelectionPair> = (0..n)
        .map(|i| pair(&format!("f{i}"), &format!("/dir/f{i}")))
        .collect();
    assert!(!d.display("many", DisplayReport::Completed(confirmed(pairs))));
    let s = d.selection().unwrap();
    assert_eq!(s.count(), n);
    let files = s.into_vec();
    assert_eq!(files.len(), n);
    assert_eq!(files[999], "/dir/f999");
}

#[test]
fn selection_values_are_self_contained() {
    // A selection owns its entries: it stays readable after the session is
    // torn down and even after the context itself is gone.
    let mut d = FileDialog::new();
    d.open_file().build(&mut d, "k").unwrap();
    d.display("k", DisplayReport::Completed(confirmed(vec![pair("a", "/a")])));
    let s = d.selection().unwrap();
    d.close();
    drop(d);
    assert_eq!(s.count(), 1);
    assert_eq!(s.files(), vec!["/a".to_string()]);
}

#[test]
fn selection_table_is_restartable() {
    let s = Selection::new(vec![pair("a", "/a"), pair("b", "/b")]);
    assert_eq!(s.count(), 2);
    assert_eq!(s.files(), vec!["/a".to_string(), "/b".to_string()]);
    // Iterating does not consume the table.
    assert_eq!(s.files(), vec!["/a".to_string(), "/b".to_string()]);
    assert_eq!(s.into_vec(), vec!["/a".to_string(), "/b".to_string()]);
}

#[test]
fn default_context_is_fresh() {
    let d = FileDialog::default();
    assert!(!d.is_opened());
    assert!(!d.is_ok());
    assert_eq!(d.serialize_bookmarks(), "");
}
