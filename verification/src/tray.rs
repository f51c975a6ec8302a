//! The tray icon's menu and what the tray icon and the main window do on each event.
use vstd::prelude::*;

verus! {

/// An entry of the tray menu.
#[derive(Debug, PartialEq, Eq)]
pub enum TrayEntry {
    /// A clickable item: the id it reports and the title it shows.
    Item { id: String, title: String },
    /// A line between items.
    Separator,
}

/// The mathematical value of a [`TrayEntry`].
pub enum TrayEntryView {
    Item { id: Seq<char>, title: Seq<char> },
    Separator,
}

impl View for TrayEntry {
    type V = TrayEntryView;

    open spec fn view(&self) -> TrayEntryView {
        match self {
            TrayEntry::Item { id, title } => TrayEntryView::Item { id: id@, title: title@ },
            TrayEntry::Separator => TrayEntryView::Separator,
        }
    }
}

/// The tray menu: Show, Hide, a separator, and Quit.
pub open spec fn menu_spec() -> Seq<TrayEntryView> {
    seq![
        TrayEntryView::Item { id: "show"@, title: "Show"@ },
        TrayEntryView::Item { id: "hide"@, title: "Hide"@ },
        TrayEntryView::Separator,
        TrayEntryView::Item { id: "quit"@, title: "Quit"@ },
    ]
}

fn item(id: &str, title: &str) -> (e: TrayEntry)
    ensures
        e@ == (TrayEntryView::Item { id: id@, title: title@ }),
{
    TrayEntry::Item { id: String::from_str(id), title: String::from_str(title) }
}

/// The entries of the tray menu, top to bottom.
pub fn configure_tray() -> (menu: Vec<TrayEntry>)
    ensures
        menu@.map_values(|e: TrayEntry| e@) == menu_spec(),
{
    let mut menu: Vec<TrayEntry> = Vec::new();
    menu.push(item("show", "Show"));
    menu.push(item("hide", "Hide"));
    menu.push(TrayEntry::Separator);
    menu.push(item("quit", "Quit"));
    assert(menu@.map_values(|e: TrayEntry| e@) =~= menu_spec());
    menu
}

/// An event of the tray icon.
pub enum TrayEvent {
    /// The icon was double-clicked.
    DoubleClick,
    /// The menu item with this id was clicked.
    MenuItemClick(String),
    /// Any other event.
    Other,
}

/// What to do on an event of the tray icon.
#[derive(PartialEq, Eq, Structural, Debug, Clone, Copy)]
pub enum TrayAction {
    /// Show the main window.
    Show,
    /// Hide the main window.
    Hide,
    /// End the program.
    Quit,
    /// Nothing.
    Nothing,
}

/// What clicking the menu item with this id does.
pub open spec fn menu_action(id: Seq<char>) -> TrayAction {
    if id == "quit"@ {
        TrayAction::Quit
    } else if id == "hide"@ {
        TrayAction::Hide
    } else if id == "show"@ {
        TrayAction::Show
    } else {
        TrayAction::Nothing
    }
}

/// What a menu title names.
pub open spec fn titled_action(title: Seq<char>) -> TrayAction {
    if title == "Quit"@ {
        TrayAction::Quit
    } else if title == "Hide"@ {
        TrayAction::Hide
    } else if title == "Show"@ {
        TrayAction::Show
    } else {
        TrayAction::Nothing
    }
}

/// Every item of the tray menu does what its title says, and does something.
pub proof fn lemma_menu_items_do_as_titled()
    ensures
        forall|i: int|
            0 <= i < menu_spec().len() && (#[trigger] menu_spec()[i]) is Item ==> menu_action(
                menu_spec()[i]->id,
            ) == titled_action(menu_spec()[i]->title) && titled_action(menu_spec()[i]->title)
                != TrayAction::Nothing,
{
    reveal_strlit("show");
    reveal_strlit("hide");
    reveal_strlit("quit");
    reveal_strlit("Show");
    reveal_strlit("Hide");
    reveal_strlit("Quit");
    assert("show"@[0] == 's' && "hide"@[0] == 'h' && "quit"@[0] == 'q');
    assert("Show"@[0] == 'S' && "Hide"@[0] == 'H' && "Quit"@[0] == 'Q');
}

/// What the tray icon does on `event`: a double click shows the window,
/// a click on a menu item does what the item names, anything else nothing.
pub fn tray_action(event: &TrayEvent) -> (a: TrayAction)
    ensures
        a == match event {
            TrayEvent::DoubleClick => TrayAction::Show,
            TrayEvent::MenuItemClick(id) => menu_action(id@),
            TrayEvent::Other => TrayAction::Nothing,
        },
{
    match event {
        TrayEvent::DoubleClick => TrayAction::Show,
        TrayEvent::MenuItemClick(id) => {
            if *id == String::from_str("quit") {
                TrayAction::Quit
            } else if *id == String::from_str("hide") {
                TrayAction::Hide
            } else if *id == String::from_str("show") {
                TrayAction::Show
            } else {
                TrayAction::Nothing
            }
        },
        TrayEvent::Other => TrayAction::Nothing,
    }
}

/// An event of the main window.
pub enum WindowEvent {
    /// The user asked to close the window.
    CloseRequested,
    /// Any other event.
    Other,
}

/// What to do on an event of the main window.
#[derive(PartialEq, Eq, Structural, Debug, Clone, Copy)]
pub enum WindowAction {
    /// Hide the window and keep it from closing, so the program keeps running.
    HideInsteadOfClosing,
    /// Nothing.
    Nothing,
}

/// Closing the main window hides it; nothing else is done on other events.
pub fn window_action(event: &WindowEvent) -> (a: WindowAction)
    ensures
        a == match event {
            WindowEvent::CloseRequested => WindowAction::HideInsteadOfClosing,
            WindowEvent::Other => WindowAction::Nothing,
        },
{
    match event {
        WindowEvent::CloseRequested => WindowAction::HideInsteadOfClosing,
        WindowEvent::Other => WindowAction::Nothing,
    }
}

} // verus!
