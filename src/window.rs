//! Decisions for the main window, the application menu and the tray.

use vstd::prelude::*;
use vstd::string::*;
use crate::text::same_text;

verus! {

/// What closing the main window does.
#[derive(Debug, Clone, Copy, PartialEq, Eq, Structural)]
pub enum CloseBehavior {
    /// Leave the application.
    Exit,
    /// Hide the window and keep running in the tray.
    HideWindow,
}

/// What closing the main window does, given the stored `closeType`
/// setting (`None` when it could not be read): `"2"` exits, anything
/// else hides the window.
pub fn close_behavior(close_type: Option<&str>) -> (r: CloseBehavior)
    ensures
        r == (if close_type matches Some(t) && t@ == "2"@ {
            CloseBehavior::Exit
        } else {
            CloseBehavior::HideWindow
        }),
{
    match close_type {
        Some(t) => if same_text(t, "2") {
            CloseBehavior::Exit
        } else {
            CloseBehavior::HideWindow
        },
        None => CloseBehavior::HideWindow,
    }
}

/// An entry of the application menu.
#[derive(Debug, Clone, Copy, PartialEq, Eq, Structural)]
pub enum MenuCommand {
    About,
    Logout,
    Quit,
    Minimize,
    Close,
    Scale,
    Fill,
    Center,
    Fullscreen,
    Undo,
    Cut,
    Copy,
    Paste,
    SelectAll,
}

/// The identifier of a menu entry, by which its clicks come back.
pub open spec fn command_id(c: MenuCommand) -> Seq<char> {
    match c {
        MenuCommand::About => "about"@,
        MenuCommand::Logout => "logout"@,
        MenuCommand::Quit => "quit"@,
        MenuCommand::Minimize => "minimize"@,
        MenuCommand::Close => "close"@,
        MenuCommand::Scale => "scale"@,
        MenuCommand::Fill => "fill"@,
        MenuCommand::Center => "center"@,
        MenuCommand::Fullscreen => "fullscreen"@,
        MenuCommand::Undo => "undo"@,
        MenuCommand::Cut => "cut"@,
        MenuCommand::Copy => "copy"@,
        MenuCommand::Paste => "paste"@,
        MenuCommand::SelectAll => "selectAll"@,
    }
}

/// The menu entry that identifier `id` belongs to.
pub open spec fn command_of(id: Seq<char>) -> Option<MenuCommand> {
    if id == "about"@ {
        Some(MenuCommand::About)
    } else if id == "logout"@ {
        Some(MenuCommand::Logout)
    } else if id == "quit"@ {
        Some(MenuCommand::Quit)
    } else if id == "minimize"@ {
        Some(MenuCommand::Minimize)
    } else if id == "close"@ {
        Some(MenuCommand::Close)
    } else if id == "scale"@ {
        Some(MenuCommand::Scale)
    } else if id == "fill"@ {
        Some(MenuCommand::Fill)
    } else if id == "center"@ {
        Some(MenuCommand::Center)
    } else if id == "fullscreen"@ {
        Some(MenuCommand::Fullscreen)
    } else if id == "undo"@ {
        Some(MenuCommand::Undo)
    } else if id == "cut"@ {
        Some(MenuCommand::Cut)
    } else if id == "copy"@ {
        Some(MenuCommand::Copy)
    } else if id == "paste"@ {
        Some(MenuCommand::Paste)
    } else if id == "selectAll"@ {
        Some(MenuCommand::SelectAll)
    } else {
        None
    }
}

/// The edit command that an entry runs in the page, if it is one.
pub open spec fn edit_verb(c: MenuCommand) -> Option<Seq<char>> {
    match c {
        MenuCommand::Undo => Some("undo"@),
        MenuCommand::Cut => Some("cut"@),
        MenuCommand::Copy => Some("copy"@),
        MenuCommand::Paste => Some("paste"@),
        MenuCommand::SelectAll => Some("selectAll"@),
        _ => None,
    }
}

impl MenuCommand {
    /// The identifier of this entry.
    pub fn id(&self) -> (r: String)
        ensures
            r@ == command_id(*self),
    {
        let t: &str = match self {
            MenuCommand::About => "about",
            MenuCommand::Logout => "logout",
            MenuCommand::Quit => "quit",
            MenuCommand::Minimize => "minimize",
            MenuCommand::Close => "close",
            MenuCommand::Scale => "scale",
            MenuCommand::Fill => "fill",
            MenuCommand::Center => "center",
            MenuCommand::Fullscreen => "fullscreen",
            MenuCommand::Undo => "undo",
            MenuCommand::Cut => "cut",
            MenuCommand::Copy => "copy",
            MenuCommand::Paste => "paste",
            MenuCommand::SelectAll => "selectAll",
        };
        String::from_str(t)
    }

    /// The script an edit entry runs in the page:
    /// `document.execCommand('<verb>')`.
    pub fn edit_script(&self) -> (r: Option<String>)
        ensures
            match r {
                Some(s) => edit_verb(*self) matches Some(v) && s@ == "document.execCommand('"@ + v
                    + "')"@,
                None => edit_verb(*self) is None,
            },
    {
        let verb: &str = match self {
            MenuCommand::Undo => "undo",
            MenuCommand::Cut => "cut",
            MenuCommand::Copy => "copy",
            MenuCommand::Paste => "paste",
            MenuCommand::SelectAll => "selectAll",
            _ => {
                return None;
            },
        };
        let mut s = String::from_str("document.execCommand('");
        s.append(verb);
        s.append("')");
        Some(s)
    }
}

/// The label an entry shows.
pub open spec fn command_label(c: MenuCommand) -> Seq<char> {
    match c {
        MenuCommand::About => "关于应用"@,
        MenuCommand::Logout => "退出登录"@,
        MenuCommand::Quit => "退出应用"@,
        MenuCommand::Minimize => "隐藏窗口"@,
        MenuCommand::Close => "关闭窗口"@,
        MenuCommand::Scale => "缩放窗口"@,
        MenuCommand::Fill => "填充窗口"@,
        MenuCommand::Center => "居中窗口"@,
        MenuCommand::Fullscreen => "全屏窗口"@,
        MenuCommand::Undo => "撤回"@,
        MenuCommand::Cut => "剪切"@,
        MenuCommand::Copy => "复制"@,
        MenuCommand::Paste => "粘贴"@,
        MenuCommand::SelectAll => "全选"@,
    }
}

impl MenuCommand {
    /// The label this entry shows.
    pub fn label(&self) -> (r: String)
        ensures
            r@ == command_label(*self),
    {
        let t: &str = match self {
            MenuCommand::About => "关于应用",
            MenuCommand::Logout => "退出登录",
            MenuCommand::Quit => "退出应用",
            MenuCommand::Minimize => "隐藏窗口",
            MenuCommand::Close => "关闭窗口",
            MenuCommand::Scale => "缩放窗口",
            MenuCommand::Fill => "填充窗口",
            MenuCommand::Center => "居中窗口",
            MenuCommand::Fullscreen => "全屏窗口",
            MenuCommand::Undo => "撤回",
            MenuCommand::Cut => "剪切",
            MenuCommand::Copy => "复制",
            MenuCommand::Paste => "粘贴",
            MenuCommand::SelectAll => "全选",
        };
        String::from_str(t)
    }
}

/// The menu entry whose identifier is `id`, if any.
pub fn menu_command(id: &str) -> (r: Option<MenuCommand>)
    ensures
        r == command_of(id@),
{
    if same_text(id, "about") {
        Some(MenuCommand::About)
    } else if same_text(id, "logout") {
        Some(MenuCommand::Logout)
    } else if same_text(id, "quit") {
        Some(MenuCommand::Quit)
    } else if same_text(id, "minimize") {
        Some(MenuCommand::Minimize)
    } else if same_text(id, "close") {
        Some(MenuCommand::Close)
    } else if same_text(id, "scale") {
        Some(MenuCommand::Scale)
    } else if same_text(id, "fill") {
        Some(MenuCommand::Fill)
    } else if same_text(id, "center") {
        Some(MenuCommand::Center)
    } else if same_text(id, "fullscreen") {
        Some(MenuCommand::Fullscreen)
    } else if same_text(id, "undo") {
        Some(MenuCommand::Undo)
    } else if same_text(id, "cut") {
        Some(MenuCommand::Cut)
    } else if same_text(id, "copy") {
        Some(MenuCommand::Copy)
    } else if same_text(id, "paste") {
        Some(MenuCommand::Paste)
    } else if same_text(id, "selectAll") {
        Some(MenuCommand::SelectAll)
    } else {
        None
    }
}

/// A click on an entry's identifier comes back as that entry.
pub proof fn lemma_menu_id_round_trip(c: MenuCommand)
    ensures
        command_of(command_id(c)) == Some(c),
{
    reveal_strlit("about");
    reveal_strlit("logout");
    reveal_strlit("quit");
    reveal_strlit("minimize");
    reveal_strlit("close");
    reveal_strlit("scale");
    reveal_strlit("fill");
    reveal_strlit("center");
    reveal_strlit("fullscreen");
    reveal_strlit("undo");
    reveal_strlit("cut");
    reveal_strlit("copy");
    reveal_strlit("paste");
    reveal_strlit("selectAll");
    // identifiers tell each other apart by their length or one of their
    // first three characters
    let id = command_id(c);
    assert(id.len() != "about"@.len() || id[0] != "about"@[0] || id[1] != "about"@[1] || id[2]
        != "about"@[2] || id == "about"@);
    assert(id.len() != "logout"@.len() || id[0] != "logout"@[0] || id[1] != "logout"@[1] || id[2]
        != "logout"@[2] || id == "logout"@);
    assert(id.len() != "quit"@.len() || id[0] != "quit"@[0] || id[1] != "quit"@[1] || id[2]
        != "quit"@[2] || id == "quit"@);
    assert(id.len() != "minimize"@.len() || id[0] != "minimize"@[0] || id[1] != "minimize"@[1] || id[2]
        != "minimize"@[2] || id == "minimize"@);
    assert(id.len() != "close"@.len() || id[0] != "close"@[0] || id[1] != "close"@[1] || id[2]
        != "close"@[2] || id == "close"@);
    assert(id.len() != "scale"@.len() || id[0] != "scale"@[0] || id[1] != "scale"@[1] || id[2]
        != "scale"@[2] || id == "scale"@);
    assert(id.len() != "fill"@.len() || id[0] != "fill"@[0] || id[1] != "fill"@[1] || id[2]
        != "fill"@[2] || id == "fill"@);
    assert(id.len() != "center"@.len() || id[0] != "center"@[0] || id[1] != "center"@[1] || id[2]
        != "center"@[2] || id == "center"@);
    assert(id.len() != "fullscreen"@.len() || id[0] != "fullscreen"@[0] || id[1] != "fullscreen"@[1] || id[2]
        != "fullscreen"@[2] || id == "fullscreen"@);
    assert(id.len() != "undo"@.len() || id[0] != "undo"@[0] || id[1] != "undo"@[1] || id[2]
        != "undo"@[2] || id == "undo"@);
    assert(id.len() != "cut"@.len() || id[0] != "cut"@[0] || id[1] != "cut"@[1] || id[2]
        != "cut"@[2] || id == "cut"@);
    assert(id.len() != "copy"@.len() || id[0] != "copy"@[0] || id[1] != "copy"@[1] || id[2]
        != "copy"@[2] || id == "copy"@);
    assert(id.len() != "paste"@.len() || id[0] != "paste"@[0] || id[1] != "paste"@[1] || id[2]
        != "paste"@[2] || id == "paste"@);
    assert(id.len() != "selectAll"@.len() || id[0] != "selectAll"@[0] || id[1] != "selectAll"@[1] || id[2]
        != "selectAll"@[2] || id == "selectAll"@);
}

/// How the "scale" entry toggles the window.
#[derive(Debug, Clone, Copy, PartialEq, Eq, Structural)]
pub enum ScaleOp {
    Maximize,
    Unmaximize,
}

/// A maximized window is restored, any other maximized; `None` (the state
/// could not be read) counts as not maximized.
pub fn scale_op(maximized: Option<bool>) -> (r: ScaleOp)
    ensures
        r == (if maximized == Some(true) {
            ScaleOp::Unmaximize
        } else {
            ScaleOp::Maximize
        }),
{
    if maximized.unwrap_or(false) {
        ScaleOp::Unmaximize
    } else {
        ScaleOp::Maximize
    }
}

/// The position that centers a `win_w` by `win_h` window on a `mon_w` by
/// `mon_h` monitor.
pub fn centered_position(mon_w: u32, mon_h: u32, win_w: u32, win_h: u32) -> (r: (i32, i32))
    requires
        win_w <= mon_w,
        win_h <= mon_h,
    ensures
        r.0 == (mon_w - win_w) / 2,
        r.1 == (mon_h - win_h) / 2,
{
    let x = (mon_w - win_w) / 2;
    let y = (mon_h - win_h) / 2;
    (x as i32, y as i32)
}

/// An entry of the tray's menu.
#[derive(Debug, Clone, Copy, PartialEq, Eq, Structural)]
pub enum TrayCommand {
    /// Show the main window.
    Open,
    /// Open the settings.
    Settings,
    /// Leave the application.
    Exit,
}

/// The identifier of a tray entry.
pub open spec fn tray_id(c: TrayCommand) -> Seq<char> {
    match c {
        TrayCommand::Open => "open_main"@,
        TrayCommand::Settings => "setting_app"@,
        TrayCommand::Exit => "exit_app"@,
    }
}

impl TrayCommand {
    /// The identifier of this tray entry.
    pub fn id(&self) -> (r: String)
        ensures
            r@ == tray_id(*self),
    {
        let t: &str = match self {
            TrayCommand::Open => "open_main",
            TrayCommand::Settings => "setting_app",
            TrayCommand::Exit => "exit_app",
        };
        String::from_str(t)
    }
}

/// The label a tray entry shows.
pub open spec fn tray_label(c: TrayCommand) -> Seq<char> {
    match c {
        TrayCommand::Open => "显示应用"@,
        TrayCommand::Settings => "打开设置"@,
        TrayCommand::Exit => "退出应用"@,
    }
}

impl TrayCommand {
    /// The label this tray entry shows.
    pub fn label(&self) -> (r: String)
        ensures
            r@ == tray_label(*self),
    {
        let t: &str = match self {
            TrayCommand::Open => "显示应用",
            TrayCommand::Settings => "打开设置",
            TrayCommand::Exit => "退出应用",
        };
        String::from_str(t)
    }
}

/// The tray entry whose identifier is `id`.
pub open spec fn tray_command_of(id: Seq<char>) -> Option<TrayCommand> {
    if id == tray_id(TrayCommand::Open) {
        Some(TrayCommand::Open)
    } else if id == tray_id(TrayCommand::Exit) {
        Some(TrayCommand::Exit)
    } else if id == tray_id(TrayCommand::Settings) {
        Some(TrayCommand::Settings)
    } else {
        None
    }
}

/// The tray entry whose identifier is `id`, if any.
pub fn tray_command(id: &str) -> (r: Option<TrayCommand>)
    ensures
        r == tray_command_of(id@),
{
    if same_text(id, "open_main") {
        Some(TrayCommand::Open)
    } else if same_text(id, "exit_app") {
        Some(TrayCommand::Exit)
    } else if same_text(id, "setting_app") {
        Some(TrayCommand::Settings)
    } else {
        None
    }
}

/// A click on a tray entry's identifier comes back as that entry.
pub proof fn lemma_tray_id_round_trip(c: TrayCommand)
    ensures
        tray_command_of(tray_id(c)) == Some(c),
{
    reveal_strlit("open_main");
    reveal_strlit("setting_app");
    reveal_strlit("exit_app");
    // the three identifiers differ in length
    assert("open_main"@.len() == 9 && "setting_app"@.len() == 11 && "exit_app"@.len() == 8);
}

/// A mouse button that clicked the tray icon.
#[derive(Debug, Clone, Copy, PartialEq, Eq, Structural)]
pub enum TrayButton {
    Left,
    Right,
    Middle,
}

/// Whether a click on the tray icon shows the main window: only the left
/// button does.
pub fn tray_click_shows_window(button: TrayButton) -> (r: bool)
    ensures
        r == (button == TrayButton::Left),
{
    match button {
        TrayButton::Left => true,
        _ => false,
    }
}

} // verus!
