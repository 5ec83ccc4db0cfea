use vstd::prelude::*;
use crate::text::text_equals;

verus! {

/// The browser storage key that remembers whether the side navigation is open.
pub fn sidenav_storage_key() -> (key: &'static str)
    ensures
        key@ == "sidenav_open"@,
{
    "sidenav_open"
}

/// The stored text for the side navigation's open state.
pub fn sidenav_storage_value(open: bool) -> (value: &'static str)
    ensures
        value@ == (if open { "true"@ } else { "false"@ }),
{
    if open {
        "true"
    } else {
        "false"
    }
}

/// Reads the side navigation's open state back from storage: open exactly
/// when the stored text is `true`.
pub fn sidenav_open_from_storage(stored: &str) -> (open: bool)
    ensures
        open == (stored@ == "true"@),
{
    text_equals(stored, "true")
}

/// Storing the side navigation's state and reading it back gives the same
/// state.
pub proof fn lemma_sidenav_storage_round_trip(open: bool)
    ensures
        ((if open { "true"@ } else { "false"@ }) == "true"@) == open,
{
    reveal_strlit("true");
    reveal_strlit("false");
    if !open {
        assert("false"@.len() != "true"@.len());
    }
}

/// The class of the page's `html` element: `dark` in dark mode.
pub fn html_theme_class(is_dark: bool) -> (class: &'static str)
    ensures
        class@ == (if is_dark { "dark"@ } else { ""@ }),
{
    if is_dark {
        "dark"
    } else {
        ""
    }
}

/// The class of the backdrop behind the side navigation; hidden and click
/// through when the navigation is closed.
pub fn sidenav_backdrop_class(open: bool) -> (class: &'static str)
    ensures
        class@ == (if open {
            "fixed inset-0 z-40 bg-black/40 transition-opacity"@
        } else {
            "fixed inset-0 z-40 bg-black/40 transition-opacity opacity-0 pointer-events-none"@
        }),
{
    if open {
        "fixed inset-0 z-40 bg-black/40 transition-opacity"
    } else {
        "fixed inset-0 z-40 bg-black/40 transition-opacity opacity-0 pointer-events-none"
    }
}

/// The common classes of the side navigation panel.
pub open spec fn sidenav_panel_base() -> Seq<char> {
    "fixed top-0 left-0 z-50 h-full w-72 bg-background border-r border-border flex flex-col transition-transform duration-300 "@
}

/// The class of the side navigation panel: slid in when open, out otherwise.
pub fn sidenav_panel_class(open: bool) -> (class: String)
    ensures
        class@ == sidenav_panel_base() + (if open {
            "translate-x-0"@
        } else {
            "-translate-x-full"@
        }),
{
    let mut class = String::from_str(
        "fixed top-0 left-0 z-50 h-full w-72 bg-background border-r border-border flex flex-col transition-transform duration-300 ",
    );
    if open {
        class.append("translate-x-0");
    } else {
        class.append("-translate-x-full");
    }
    class
}

/// The label of a code block's copy button: confirmed for a moment after
/// copying.
pub fn copy_button_label(copied: bool) -> (label: &'static str)
    ensures
        label@ == (if copied { "✓ Copied!"@ } else { "Copy"@ }),
{
    if copied {
        "✓ Copied!"
    } else {
        "Copy"
    }
}

} // verus!
