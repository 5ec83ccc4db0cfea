use crust_ai::app_shell::{
    copy_button_label, html_theme_class, sidenav_backdrop_class, sidenav_open_from_storage,
    sidenav_panel_class, sidenav_storage_key, sidenav_storage_value,
};

#[test]
fn sidenav_storage_round_trip() {
    assert_eq!(sidenav_storage_key(), "sidenav_open");
    assert_eq!(sidenav_storage_value(true), "true");
    assert_eq!(sidenav_storage_value(false), "false");
    for open in [true, false] {
        assert_eq!(sidenav_open_from_storage(sidenav_storage_value(open)), open);
    }
}

#[test]
fn only_exact_true_opens_sidenav() {
    assert!(sidenav_open_from_storage("true"));
    assert!(!sidenav_open_from_storage("True"));
    assert!(!sidenav_open_from_storage("1"));
    assert!(!sidenav_open_from_storage(""));
    assert!(!sidenav_open_from_storage("true "));
}

#[test]
fn theme_and_sidenav_classes() {
    assert_eq!(html_theme_class(true), "dark");
    assert_eq!(html_theme_class(false), "");
    assert_eq!(sidenav_backdrop_class(true), "fixed inset-0 z-40 bg-black/40 transition-opacity");
    assert_eq!(
        sidenav_backdrop_class(false),
        "fixed inset-0 z-40 bg-black/40 transition-opacity opacity-0 pointer-events-none"
    );
    assert_eq!(
        sidenav_panel_class(true),
        "fixed top-0 left-0 z-50 h-full w-72 bg-background border-r border-border flex flex-col transition-transform duration-300 translate-x-0"
    );
    assert_eq!(
        sidenav_panel_class(false),
        "fixed top-0 left-0 z-50 h-full w-72 bg-background border-r border-border flex flex-col transition-transform duration-300 -translate-x-full"
    );
}

#[test]
fn copy_label_confirms_after_copy() {
    assert_eq!(copy_button_label(false), "Copy");
    assert_eq!(copy_button_label(true), "✓ Copied!");
}
