use vstd::prelude::*;
use vstd::string::StringExecFns;

verus! {

/// Identifiers of the application-menu items whose clicks are forwarded to
/// the user interface as `menu-event`.
pub open spec fn forwarded_menu_ids() -> Seq<Seq<char>> {
    seq![
        "new-session"@,
        "toggle-sidebar"@,
        "reload"@,
        "zoom-in"@,
        "zoom-out"@,
        "zoom-reset"@,
        "fullscreen"@,
    ]
}

/// Whether a click on the application-menu item `id` is forwarded.
pub fn is_forwarded_menu_item(id: &String) -> (r: bool)
    ensures
        r == forwarded_menu_ids().contains(id@),
{
    let ids: Vec<String> = vec![
        String::from_str("new-session"),
        String::from_str("toggle-sidebar"),
        String::from_str("reload"),
        String::from_str("zoom-in"),
        String::from_str("zoom-out"),
        String::from_str("zoom-reset"),
        String::from_str("fullscreen"),
    ];
    assert(ids@.map_values(|s: String| s@) =~= forwarded_menu_ids());
    let mut i: usize = 0;
    while i < ids.len()
        invariant
            i <= ids@.len(),
            ids@.map_values(|s: String| s@) == forwarded_menu_ids(),
            forall|j: int| 0 <= j < i ==> ids@[j]@ != id@,
        decreases ids@.len() - i,
    {
        if ids[i] == *id {
            assert(forwarded_menu_ids()[i as int] == id@);
            return true;
        }
        i = i + 1;
    }
    assert forall|j: int| 0 <= j < forwarded_menu_ids().len() implies forwarded_menu_ids()[j]
        != id@ by {
        assert(forwarded_menu_ids()[j] == ids@[j]@);
    }
    false
}

/// What a click in the tray menu does.
#[derive(Debug, Clone, Copy, PartialEq, Eq)]
pub enum TrayMenuAction {
    ShowMain,
    Quit,
    Ignore,
}

pub open spec fn tray_menu_action_of(id: Seq<char>) -> TrayMenuAction {
    if id == "show"@ {
        TrayMenuAction::ShowMain
    } else if id == "quit-app"@ {
        TrayMenuAction::Quit
    } else {
        TrayMenuAction::Ignore
    }
}

pub fn tray_menu_action(id: &String) -> (r: TrayMenuAction)
    ensures
        r == tray_menu_action_of(id@),
{
    if *id == String::from_str("show") {
        TrayMenuAction::ShowMain
    } else if *id == String::from_str("quit-app") {
        TrayMenuAction::Quit
    } else {
        TrayMenuAction::Ignore
    }
}

/// What a left click on the tray icon does to the main window.
#[derive(Debug, Clone, Copy, PartialEq, Eq)]
pub enum WindowToggle {
    Hide,
    ShowAndFocus,
}

/// A visible window is hidden; a hidden one, or one whose visibility could
/// not be read, is shown and focused.
pub fn toggle_window(visible: Option<bool>) -> (r: WindowToggle)
    ensures
        (r == WindowToggle::Hide) == (visible == Some(true)),
{
    match visible {
        Some(true) => WindowToggle::Hide,
        _ => WindowToggle::ShowAndFocus,
    }
}

} // verus!
