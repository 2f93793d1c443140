//! The application menu and the tray menu: what each item does.
use vstd::prelude::*;
use crate::text::str_equal;

verus! {

/// What a click on an item of the application menu does.
#[derive(Clone, Debug, PartialEq)]
pub enum MenuAction {
    /// Tell the user interface to open this page.
    OpenPage(String),
    /// Let the user pick a file.
    PickFile,
    /// Show the extra window, or create it on this page.
    AddWindow(String),
    /// Hide the window of the menu.
    Hide,
    /// Close the window of the menu.
    Quit,
    /// Nothing.
    Nothing,
}

/// The page that the item "gpt" opens, and the one the extra window shows.
pub open spec fn chat_gpt_page() -> Seq<char> {
    "https://chat.openai.com/"@
}

/// The page that the item "bing" opens.
pub open spec fn bing_page() -> Seq<char> {
    "https://www.bing.com"@
}

/// Whether the application menu handles a click on the item `id`.
pub open spec fn handled_menu_id(id: Seq<char>) -> bool {
    id == "gpt"@ || id == "bing"@ || id == "open"@ || id == "add"@ || id == "hide"@ || id
        == "quit"@
}

/// What a click on the application menu item `id` does.
pub fn menu_action(id: &str) -> (r: MenuAction)
    ensures
        !(r is Nothing) == handled_menu_id(id@),
        id@ == "gpt"@ ==> (r matches MenuAction::OpenPage(p) && p@ == chat_gpt_page()),
        id@ == "bing"@ ==> (r matches MenuAction::OpenPage(p) && p@ == bing_page()),
        id@ == "open"@ ==> r == MenuAction::PickFile,
        id@ == "add"@ ==> (r matches MenuAction::AddWindow(p) && p@ == chat_gpt_page()),
        id@ == "hide"@ ==> r == MenuAction::Hide,
        id@ == "quit"@ ==> r == MenuAction::Quit,
        id@ != "gpt"@ && id@ != "bing"@ && id@ != "open"@ && id@ != "add"@ && id@ != "hide"@
            && id@ != "quit"@ ==> r == MenuAction::Nothing,
{
    proof {
        reveal_strlit("gpt");
        reveal_strlit("bing");
        reveal_strlit("open");
        reveal_strlit("add");
        reveal_strlit("hide");
        reveal_strlit("quit");
        assert("gpt"@[0] != "add"@[0]);
        assert("bing"@.len() == 4 && "open"@.len() == 4 && "hide"@.len() == 4 && "quit"@.len() == 4);
        assert("gpt"@.len() == 3 && "add"@.len() == 3);
        assert("bing"@[0] != "open"@[0] && "bing"@[0] != "hide"@[0] && "bing"@[0] != "quit"@[0]);
        assert("open"@[0] != "hide"@[0] && "open"@[0] != "quit"@[0] && "hide"@[0] != "quit"@[0]);
    }
    if str_equal(id, "gpt") {
        MenuAction::OpenPage("https://chat.openai.com/".to_owned())
    } else if str_equal(id, "bing") {
        MenuAction::OpenPage("https://www.bing.com".to_owned())
    } else if str_equal(id, "open") {
        MenuAction::PickFile
    } else if str_equal(id, "add") {
        MenuAction::AddWindow("https://chat.openai.com/".to_owned())
    } else if str_equal(id, "hide") {
        MenuAction::Hide
    } else if str_equal(id, "quit") {
        MenuAction::Quit
    } else {
        MenuAction::Nothing
    }
}

/// What a click on an item of the tray menu does.
#[derive(Clone, Copy, Debug, PartialEq, Eq, Structural)]
pub enum TrayAction {
    /// Hide every visible window.
    HideAll,
    /// Ask, on every window, whether to quit.
    ConfirmQuit,
    /// Show and focus every window.
    ShowAll,
}

/// A click on the tray icon itself.
#[derive(Clone, Copy, Debug, PartialEq, Eq, Structural)]
pub enum TrayClick {
    Left,
    Right,
    Double,
}

/// What a click on the tray icon does: a left click brings every window
/// back; the others do nothing.
pub fn tray_click_action(click: TrayClick) -> (r: Option<TrayAction>)
    ensures
        r == if click == TrayClick::Left {
            Some(TrayAction::ShowAll)
        } else {
            None
        },
{
    match click {
        TrayClick::Left => Some(TrayAction::ShowAll),
        _ => None,
    }
}

/// An event of a window.
#[derive(Clone, Copy, Debug, PartialEq, Eq, Structural)]
pub enum WindowEventKind {
    Resized,
    Moved,
    CloseRequested,
    Destroyed,
    Focused,
    ScaleFactorChanged,
    FileDrop,
    ThemeChanged,
    Other,
}

/// Whether the application keeps a window on this event and hides it
/// instead: a window is never closed by its close button, only hidden.
pub fn hides_window(event: WindowEventKind) -> (r: bool)
    ensures
        r == (event == WindowEventKind::CloseRequested),
{
    match event {
        WindowEventKind::CloseRequested => true,
        _ => false,
    }
}

/// What a click on the tray menu item `id` does; the tray menu has no other
/// items than "hide" and "quit".
pub open spec fn tray_action_of(id: Seq<char>) -> Option<TrayAction> {
    if id == "hide"@ {
        Some(TrayAction::HideAll)
    } else if id == "quit"@ {
        Some(TrayAction::ConfirmQuit)
    } else {
        None
    }
}

/// What a click on the tray menu item `id` does.
pub fn tray_menu_action(id: &str) -> (r: Option<TrayAction>)
    ensures
        r == tray_action_of(id@),
{
    if str_equal(id, "hide") {
        Some(TrayAction::HideAll)
    } else if str_equal(id, "quit") {
        Some(TrayAction::ConfirmQuit)
    } else {
        None
    }
}

/// The icon shown in the tray.
#[derive(Clone, Copy, Debug, PartialEq, Eq, Structural)]
pub enum TrayIcon {
    /// A blank, transparent icon.
    Blank,
    /// The application's own icon.
    Original,
}

/// One round of the tray's blinking, taken while a message waits unseen.
#[derive(Clone, Debug, PartialEq)]
pub enum FlickerStep {
    /// The main window is visible: stop blinking.
    Stop,
    /// Show these icons in turn, each for a moment, then look again.
    Blink(Vec<TrayIcon>),
}

/// Whether a message that arrives plays the reminder sound: only while the
/// main window is hidden.
pub open spec fn reminder_spec(main_visible: bool) -> bool {
    !main_visible
}

/// The icons of one round of blinking: blank, then the original icon.
pub open spec fn blink_icons() -> Seq<TrayIcon> {
    seq![TrayIcon::Blank, TrayIcon::Original]
}

/// The next round of blinking, `None` to stop: the tray blinks while the
/// main window is hidden.
pub open spec fn flicker_spec(main_visible: bool) -> Option<Seq<TrayIcon>> {
    if main_visible {
        None
    } else {
        Some(blink_icons())
    }
}

/// Whether a message that arrives plays the reminder sound.
pub fn reminder_plays(main_visible: bool) -> (r: bool)
    ensures
        r == !main_visible,
        r == reminder_spec(main_visible),
{
    !main_visible
}

/// The next round of blinking: stop once the main window is visible, else
/// show the blank icon, then the original one.
pub fn flicker_step(main_visible: bool) -> (r: FlickerStep)
    ensures
        main_visible ==> r is Stop,
        !main_visible ==> (r matches FlickerStep::Blink(icons) && icons@ == blink_icons()),
        !main_visible ==> (r matches FlickerStep::Blink(icons) && icons@ == seq![
            TrayIcon::Blank,
            TrayIcon::Original,
        ]),
        match r {
            FlickerStep::Stop => flicker_spec(main_visible) is None,
            FlickerStep::Blink(icons) => flicker_spec(main_visible) == Some(icons@),
        },
{
    if main_visible {
        FlickerStep::Stop
    } else {
        let icons = vec![TrayIcon::Blank, TrayIcon::Original];
        assert(icons@ =~= blink_icons());
        FlickerStep::Blink(icons)
    }
}

/// The reminder sounds exactly when the tray starts blinking, that is while
/// the main window is hidden; blinking stops once the main window is
/// visible; and every round of blinking shows the blank icon and ends on the
/// original one, so the tray is never left blank when it stops.
pub proof fn law_reminder_and_blinking(main_visible: bool)
    ensures
        reminder_spec(main_visible) == (flicker_spec(main_visible) is Some),
        flicker_spec(true) is None,
        flicker_spec(main_visible) matches Some(icons) ==> icons.len() > 0 && icons.last()
            == TrayIcon::Original && icons.contains(TrayIcon::Blank),
{
    assert(blink_icons()[0] == TrayIcon::Blank);
}

/// An entry of a menu: the id that its clicks carry, and its text.
#[derive(Clone, Debug, PartialEq)]
pub struct MenuEntry {
    pub id: String,
    pub label: String,
}

impl View for MenuEntry {
    type V = (Seq<char>, Seq<char>);

    open spec fn view(&self) -> (Seq<char>, Seq<char>) {
        (self.id@, self.label@)
    }
}

/// A submenu of the application menu: its title and its entries.
#[derive(Clone, Debug, PartialEq)]
pub struct MenuGroup {
    pub title: String,
    pub entries: Vec<MenuEntry>,
}

impl View for MenuGroup {
    type V = (Seq<char>, Seq<(Seq<char>, Seq<char>)>);

    open spec fn view(&self) -> (Seq<char>, Seq<(Seq<char>, Seq<char>)>) {
        (self.title@, self.entries@.map_values(|e: MenuEntry| e@))
    }
}

/// The application menu: a file menu, a menu of pages, and a window menu.
pub open spec fn app_menu_spec() -> Seq<(Seq<char>, Seq<(Seq<char>, Seq<char>)>)> {
    seq![
        ("file"@, seq![("open"@, "打开文件"@)]),
        ("tab"@, seq![("gpt"@, "ChatGPT"@), ("bing"@, "Bing"@)]),
        ("window"@, seq![("add"@, "新增窗口"@), ("hide"@, "最小化"@), ("quit"@, "退出"@)]),
    ]
}

/// The tray menu.
pub open spec fn tray_menu_spec() -> Seq<(Seq<char>, Seq<char>)> {
    seq![("hide"@, "最小化"@), ("quit"@, "退出"@)]
}

fn entry(id: &str, label: &str) -> (r: MenuEntry)
    ensures
        r@ == (id@, label@),
{
    MenuEntry { id: id.to_owned(), label: label.to_owned() }
}

/// The entries of the application menu, submenu by submenu.
pub fn app_menu() -> (r: Vec<MenuGroup>)
    ensures
        r@.map_values(|g: MenuGroup| g@) == app_menu_spec(),
{
    let file = MenuGroup { title: "file".to_owned(), entries: vec![entry("open", "打开文件")] };
    let tab = MenuGroup {
        title: "tab".to_owned(),
        entries: vec![entry("gpt", "ChatGPT"), entry("bing", "Bing")],
    };
    let window = MenuGroup {
        title: "window".to_owned(),
        entries: vec![entry("add", "新增窗口"), entry("hide", "最小化"), entry("quit", "退出")],
    };
    assert(file@ == app_menu_spec()[0]);
    assert(tab@ == app_menu_spec()[1]);
    assert(window@ == app_menu_spec()[2]);
    let r = vec![file, tab, window];
    assert(r@.map_values(|g: MenuGroup| g@) =~= app_menu_spec());
    r
}

/// The entries of the tray menu.
pub fn tray_menu() -> (r: Vec<MenuEntry>)
    ensures
        r@.map_values(|e: MenuEntry| e@) == tray_menu_spec(),
{
    let r = vec![entry("hide", "最小化"), entry("quit", "退出")];
    assert(r@.map_values(|e: MenuEntry| e@) =~= tray_menu_spec());
    r
}

/// Every entry of the application menu does something when clicked, and
/// every entry of the tray menu has an action: no click on a menu that the
/// application builds goes unhandled.
pub proof fn law_every_menu_entry_is_handled()
    ensures
        forall|g: int, e: int|
            0 <= g < app_menu_spec().len() && 0 <= e < app_menu_spec()[g].1.len()
                ==> handled_menu_id(#[trigger] app_menu_spec()[g].1[e].0),
        forall|e: int|
            0 <= e < tray_menu_spec().len() ==> #[trigger] tray_action_of(tray_menu_spec()[e].0)
                is Some,
{
}

} // verus!
