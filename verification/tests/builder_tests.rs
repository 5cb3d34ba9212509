//! Tests for the request builder: per-mode defaults, configuration
//! passthrough, and rejection of strings that cannot cross the native
//! boundary.

use imgui_filedialog::DialogError;
use imgui_filedialog::DialogMode;
use imgui_filedialog::FileDialog;
use imgui_filedialog::FileDialogBuilder;
use imgui_filedialog::DIALOG_FLAG_CONFIRM_OVERWRITE;

#[test]
fn open_file_defaults() {
    let mut d = FileDialog::new();
    let req = d.open_file().build(&mut d, "k").unwrap();
    assert_eq!(req.key, "k");
    assert_eq!(req.title, "Open File");
    assert_eq!(req.filters.as_deref(), Some(".*"));
    assert_eq!(req.path, ".");
    assert_eq!(req.file_name, "");
    assert_eq!(req.max_selection, 1);
    assert!(!req.modal);
    assert_eq!(req.flags, 0);
}

#[test]
fn save_file_defaults() {
    let mut d = FileDialog::new();
    let req = d.save_file().build(&mut d, "k").unwrap();
    assert_eq!(req.title, "Save File");
    assert_eq!(req.filters.as_deref(), Some(".*"));
}

#[test]
fn open_directory_defaults() {
    let mut d = FileDialog::new();
    let req = d.open_directory().build(&mut d, "k").unwrap();
    assert_eq!(req.title, "Select Directory");
    assert!(req.filters.is_none());
}

#[test]
fn directory_mode_suppresses_explicit_filter() {
    // Even a filter that was set explicitly is suppressed, not emptied, in
    // directory mode.
    let mut d = FileDialog::new();
    let req = d
        .open_directory()
        .filters(".txt")
        .build(&mut d, "choose_dir")
        .unwrap();
    assert!(req.filters.is_none());
    assert_ne!(req.filters, Some(String::new()));
}

#[test]
fn configured_fields_pass_through_verbatim() {
    let mut d = FileDialog::new();
    let req = d
        .open_file()
        .title("Pick")
        .filters(".rs,.toml")
        .path("/tmp")
        .file_name("x.rs")
        .multi_select(7)
        .modal()
        .confirm_overwrite()
        .build(&mut d, "k")
        .unwrap();
    assert_eq!(req.title, "Pick");
    assert_eq!(req.filters.as_deref(), Some(".rs,.toml"));
    assert_eq!(req.path, "/tmp");
    assert_eq!(req.file_name, "x.rs");
    assert_eq!(req.max_selection, 7);
    assert!(req.modal);
    assert_eq!(req.flags, DIALOG_FLAG_CONFIRM_OVERWRITE);
}

#[test]
fn standalone_builder_matches_entry_points() {
    let mut d = FileDialog::new();
    let req = FileDialogBuilder::new(DialogMode::OpenFile)
        .build(&mut d, "k")
        .unwrap();
    assert_eq!(req.title, "Open File");
}

#[test]
fn nul_in_title_is_rejected_before_the_boundary() {
    let mut d = FileDialog::new();
    let r = d.open_file().title("bad\0title").build(&mut d, "k");
    assert_eq!(r.unwrap_err(), DialogError::EmbeddedNul);
    // Nothing was opened: the context was not touched.
    assert!(!d.is_key_opened("k"));
    assert!(!d.is_opened());
}

#[test]
fn nul_in_key_is_rejected_before_the_boundary() {
    let mut d = FileDialog::new();
    let r = d.open_file().build(&mut d, "bad\0key");
    assert_eq!(r.unwrap_err(), DialogError::EmbeddedNul);
    assert!(!d.is_opened());
}

#[test]
fn nul_in_filters_path_and_file_name_is_rejected() {
    let mut d = FileDialog::new();
    let r = d.open_file().filters(".t\0xt").build(&mut d, "k");
    assert_eq!(r.unwrap_err(), DialogError::EmbeddedNul);
    let r = d.open_file().path("/t\0mp").build(&mut d, "k");
    assert_eq!(r.unwrap_err(), DialogError::EmbeddedNul);
    let r = d.save_file().file_name("a\0b").build(&mut d, "k");
    assert_eq!(r.unwrap_err(), DialogError::EmbeddedNul);
    assert!(!d.is_opened());
}

#[test]
fn building_marks_the_key_opened() {
    let mut d = FileDialog::new();
    assert!(!d.is_key_opened("k"));
    d.open_file().build(&mut d, "k").unwrap();
    assert!(d.is_key_opened("k"));
    assert!(d.is_opened());
    assert!(!d.is_key_opened("other"));
}

#[test]
fn nul_scan_decides_boundary_fitness() {
    assert!(imgui_filedialog::is_nul_free(""));
    assert!(imgui_filedialog::is_nul_free("plain ascii"));
    assert!(imgui_filedialog::is_nul_free("üñíçødé ✓"));
    assert!(!imgui_filedialog::is_nul_free("\0"));
    assert!(!imgui_filedialog::is_nul_free("middle\0here"));
    assert!(!imgui_filedialog::is_nul_free("trailing\0"));
}

#[test]
fn non_ascii_configuration_passes_through() {
    let mut d = FileDialog::new();
    let req = d
        .open_file()
        .title("Wähle eine Datei")
        .path("/home/üser")
        .build(&mut d, "schlüssel")
        .unwrap();
    assert_eq!(req.title, "Wähle eine Datei");
    assert_eq!(req.path, "/home/üser");
    assert!(d.is_key_opened("schlüssel"));
}

#[test]
fn distinct_keys_may_be_open_concurrently() {
    let mut d = FileDialog::new();
    d.open_file().build(&mut d, "a").unwrap();
    d.save_file().build(&mut d, "b").unwrap();
    assert!(d.is_key_opened("a"));
    assert!(d.is_key_opened("b"));
}
