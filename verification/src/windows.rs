//! The window session: at most one window per logical role, lazy creation,
//! and the show/hide transitions that tray clicks, the global hotkey and
//! UI commands trigger.
//!
//! The session is the process-wide model of which windows are open and
//! whether each is shown. Every operation returns the exact sequence of
//! [`HostCmd`] steps the host window system must carry out, in order; an
//! unverified shell performs them. A window the user closed is observed only
//! as a lookup miss and reported back through [`Session::note_closed`].

use vstd::prelude::*;

verus! {

/// A fixed logical purpose for a window. Roles are static configuration:
/// each maps to a unique label, a display title and a content address.
#[derive(Clone, Copy, PartialEq, Eq, Debug)]
pub enum WindowRole {
    Main,
    Settings,
    Help,
}

impl WindowRole {
    /// The unique identifier the host window system knows this window by.
    pub open spec fn label_spec(self) -> Seq<char> {
        match self {
            WindowRole::Main => "main"@,
            WindowRole::Settings => "settings"@,
            WindowRole::Help => "help"@,
        }
    }

    /// The title the window is created with.
    pub open spec fn title_spec(self) -> Seq<char> {
        match self {
            WindowRole::Main => "GPT Anywhere"@,
            WindowRole::Settings => "Settings"@,
            WindowRole::Help => "Help"@,
        }
    }

    /// The content address loaded into the window.
    pub open spec fn url_spec(self) -> Seq<char> {
        match self {
            WindowRole::Main => "index.html"@,
            WindowRole::Settings => "settings.html"@,
            WindowRole::Help => "help.html"@,
        }
    }

    pub fn label(&self) -> (r: &'static str)
        ensures
            r@ == self.label_spec(),
    {
        match self {
            WindowRole::Main => "main",
            WindowRole::Settings => "settings",
            WindowRole::Help => "help",
        }
    }

    pub fn title(&self) -> (r: &'static str)
        ensures
            r@ == self.title_spec(),
    {
        match self {
            WindowRole::Main => "GPT Anywhere",
            WindowRole::Settings => "Settings",
            WindowRole::Help => "Help",
        }
    }

    pub fn url(&self) -> (r: &'static str)
        ensures
            r@ == self.url_spec(),
    {
        match self {
            WindowRole::Main => "index.html",
            WindowRole::Settings => "settings.html",
            WindowRole::Help => "help.html",
        }
    }
}

/// An external stimulus, as the trigger router consumes it.
#[derive(Clone, Copy, PartialEq, Eq, Debug)]
pub enum TrayAction {
    ToggleShowHide,
    OpenSettings,
    OpenHelp,
    Quit,
}

/// One step the host window system is asked to carry out. The order of the
/// commands a session operation returns is binding: in particular a show runs
/// show, raise, center, focus — focus last, after placement.
#[derive(Clone, Copy, PartialEq, Eq, Debug)]
pub enum HostCmd {
    /// Build the window for this role, with its label, title and content
    /// address, not yet shown.
    Create(WindowRole),
    /// Emit the "show" notification, carrying the window's own label.
    EmitShow(WindowRole),
    ShowWindow(WindowRole),
    SetAlwaysOnTop(WindowRole),
    CenterWindow(WindowRole),
    FocusWindow(WindowRole),
    /// Emit the "hide" notification, carrying the window's own label.
    EmitHide(WindowRole),
    HideWindow(WindowRole),
    /// Terminate the process with a success exit status.
    Exit,
}

/// One live window, as the session tracks it: a serial number identifying
/// the created instance, and whether its show sequence has run.
#[verifier::ext_equal]
#[derive(Clone, Copy, PartialEq, Eq, Debug)]
pub struct WindowState {
    pub id: u64,
    pub visible: bool,
}

/// A non-owning reference to a live window: the role it serves and the
/// serial number of the created instance it refers to.
#[derive(Clone, Copy, PartialEq, Eq, Debug)]
pub struct WindowHandle {
    pub role: WindowRole,
    pub id: u64,
}

/// The process-wide window registry: at most one window per role, plus the
/// serial number the next created window will get.
#[verifier::ext_equal]
pub struct Session {
    pub next_id: u64,
    pub main: Option<WindowState>,
    pub settings: Option<WindowState>,
    pub help: Option<WindowState>,
}

/// The fixed show sequence: notify, show, raise, center, then focus —
/// focus must follow placement.
pub open spec fn show_cmds(role: WindowRole) -> Seq<HostCmd> {
    seq![
        HostCmd::EmitShow(role),
        HostCmd::ShowWindow(role),
        HostCmd::SetAlwaysOnTop(role),
        HostCmd::CenterWindow(role),
        HostCmd::FocusWindow(role),
    ]
}

/// The fixed hide sequence: notify, then hide.
pub open spec fn hide_cmds(role: WindowRole) -> Seq<HostCmd> {
    seq![HostCmd::EmitHide(role), HostCmd::HideWindow(role)]
}

impl Session {
    /// The state at process start: no window open, serial numbers from zero.
    pub open spec fn init() -> Session {
        Session { next_id: 0, main: None, settings: None, help: None }
    }

    /// The tracked window for a role, if one is open.
    pub open spec fn window_of(self, role: WindowRole) -> Option<WindowState> {
        match role {
            WindowRole::Main => self.main,
            WindowRole::Settings => self.settings,
            WindowRole::Help => self.help,
        }
    }

    /// This session with one role's entry replaced.
    pub open spec fn with_window(self, role: WindowRole, w: Option<WindowState>) -> Session {
        match role {
            WindowRole::Main => Session {
                next_id: self.next_id,
                main: w,
                settings: self.settings,
                help: self.help,
            },
            WindowRole::Settings => Session {
                next_id: self.next_id,
                main: self.main,
                settings: w,
                help: self.help,
            },
            WindowRole::Help => Session {
                next_id: self.next_id,
                main: self.main,
                settings: self.settings,
                help: w,
            },
        }
    }
}

/// What `get_or_create` does: the session after the call, the serial number
/// of the returned window, and the host commands owed. An existing window is
/// returned untouched with no command; an absent one is registered, not yet
/// shown, under the next serial number, and the host is asked to build it.
pub open spec fn get_or_create_spec(s: Session, role: WindowRole) -> (Session, u64, Seq<HostCmd>) {
    match s.window_of(role) {
        Some(w) => (s, w.id, Seq::<HostCmd>::empty()),
        None => (
            Session {
                next_id: (s.next_id + 1) as u64,
                main: s.main,
                settings: s.settings,
                help: s.help,
            }.with_window(role, Some(WindowState { id: s.next_id, visible: false })),
            s.next_id,
            seq![HostCmd::Create(role)],
        ),
    }
}

/// What `toggle` does to an open window: flip its visibility and owe the
/// fixed hide sequence if it was shown, the fixed show sequence if not.
/// Without an open window there is nothing to toggle.
pub open spec fn toggle_spec(s: Session, role: WindowRole) -> (Session, Seq<HostCmd>) {
    match s.window_of(role) {
        Some(w) => if w.visible {
            (
                s.with_window(role, Some(WindowState { id: w.id, visible: false })),
                hide_cmds(role),
            )
        } else {
            (s.with_window(role, Some(WindowState { id: w.id, visible: true })), show_cmds(role))
        },
        None => (s, Seq::<HostCmd>::empty()),
    }
}

/// What hiding the main window unconditionally does: if it is open, the hide
/// sequence runs — whether or not it was shown — and it is tracked as
/// hidden; if it is absent, nothing happens.
pub open spec fn hide_main_spec(s: Session) -> (Session, Seq<HostCmd>) {
    match s.window_of(WindowRole::Main) {
        Some(w) => (
            s.with_window(WindowRole::Main, Some(WindowState { id: w.id, visible: false })),
            hide_cmds(WindowRole::Main),
        ),
        None => (s, Seq::<HostCmd>::empty()),
    }
}

/// What opening a popup does: hide the main window if it is open, then
/// create the popup's window if it is absent; an already-open popup is left
/// exactly as it is.
pub open spec fn open_popup_spec(s: Session, role: WindowRole) -> (Session, Seq<HostCmd>) {
    let hidden = hide_main_spec(s);
    let created = get_or_create_spec(hidden.0, role);
    (created.0, hidden.1 + created.2)
}

/// The trigger router: one fixed action sequence per stimulus.
pub open spec fn dispatch_spec(s: Session, action: TrayAction) -> (Session, Seq<HostCmd>) {
    match action {
        TrayAction::ToggleShowHide => {
            let created = get_or_create_spec(s, WindowRole::Main);
            let toggled = toggle_spec(created.0, WindowRole::Main);
            (toggled.0, created.2 + toggled.1)
        },
        TrayAction::OpenSettings => open_popup_spec(s, WindowRole::Settings),
        TrayAction::OpenHelp => open_popup_spec(s, WindowRole::Help),
        TrayAction::Quit => (s, seq![HostCmd::Exit]),
    }
}

impl Session {
    pub fn new() -> (s: Session)
        ensures
            s == Session::init(),
    {
        Session { next_id: 0, main: None, settings: None, help: None }
    }

    fn window_state(&self, role: WindowRole) -> (w: Option<WindowState>)
        ensures
            w == self.window_of(role),
    {
        match role {
            WindowRole::Main => self.main,
            WindowRole::Settings => self.settings,
            WindowRole::Help => self.help,
        }
    }

    fn set_window(&mut self, role: WindowRole, w: Option<WindowState>)
        ensures
            *final(self) == old(self).with_window(role, w),
    {
        match role {
            WindowRole::Main => self.main = w,
            WindowRole::Settings => self.settings = w,
            WindowRole::Help => self.help = w,
        }
    }

    /// Non-creating lookup: the open window for `role`, or nothing — a miss
    /// is a valid, frequent outcome meaning "not currently open".
    pub fn lookup(&self, role: WindowRole) -> (h: Option<WindowHandle>)
        ensures
            h is Some <==> self.window_of(role) is Some,
            self.window_of(role) matches Some(w) ==> h matches Some(hh) && hh.role == role
                && hh.id == w.id,
    {
        match self.window_state(role) {
            Some(w) => Some(WindowHandle { role, id: w.id }),
            None => None,
        }
    }

    /// Return the open window for `role`, or register a new one — not yet
    /// shown — and ask the host to build it. The registry never holds two
    /// windows for one role.
    pub fn get_or_create(&mut self, role: WindowRole) -> (r: (WindowHandle, Vec<HostCmd>))
        requires
            old(self).next_id < u64::MAX,
        ensures
            *final(self) == get_or_create_spec(*old(self), role).0,
            r.0.role == role,
            r.0.id == get_or_create_spec(*old(self), role).1,
            r.1@ == get_or_create_spec(*old(self), role).2,
            final(self).window_of(role) matches Some(w) && w.id == r.0.id,
    {
        match self.window_state(role) {
            Some(w) => (WindowHandle { role, id: w.id }, Vec::new()),
            None => {
                let id = self.next_id;
                self.next_id = id + 1;
                self.set_window(role, Some(WindowState { id, visible: false }));
                let mut cmds: Vec<HostCmd> = Vec::new();
                cmds.push(HostCmd::Create(role));
                proof {
                    assert(cmds@ =~= seq![HostCmd::Create(role)]);
                }
                (WindowHandle { role, id }, cmds)
            },
        }
    }

    /// Flip an open window between hidden and shown, returning the fixed
    /// command sequence of the transition taken.
    pub fn toggle(&mut self, role: WindowRole) -> (cmds: Vec<HostCmd>)
        requires
            old(self).window_of(role) is Some,
        ensures
            *final(self) == toggle_spec(*old(self), role).0,
            cmds@ == toggle_spec(*old(self), role).1,
    {
        let w = self.window_state(role).unwrap();
        let mut cmds: Vec<HostCmd> = Vec::new();
        if w.visible {
            cmds.push(HostCmd::EmitHide(role));
            cmds.push(HostCmd::HideWindow(role));
            self.set_window(role, Some(WindowState { id: w.id, visible: false }));
            proof {
                assert(cmds@ =~= hide_cmds(role));
            }
        } else {
            cmds.push(HostCmd::EmitShow(role));
            cmds.push(HostCmd::ShowWindow(role));
            cmds.push(HostCmd::SetAlwaysOnTop(role));
            cmds.push(HostCmd::CenterWindow(role));
            cmds.push(HostCmd::FocusWindow(role));
            self.set_window(role, Some(WindowState { id: w.id, visible: true }));
            proof {
                assert(cmds@ =~= show_cmds(role));
            }
        }
        cmds
    }

    /// Hide the main window unconditionally: a no-op if it is not open.
    pub fn hide_main(&mut self) -> (cmds: Vec<HostCmd>)
        ensures
            *final(self) == hide_main_spec(*old(self)).0,
            cmds@ == hide_main_spec(*old(self)).1,
    {
        match self.window_state(WindowRole::Main) {
            Some(w) => {
                let mut cmds: Vec<HostCmd> = Vec::new();
                cmds.push(HostCmd::EmitHide(WindowRole::Main));
                cmds.push(HostCmd::HideWindow(WindowRole::Main));
                self.set_window(
                    WindowRole::Main,
                    Some(WindowState { id: w.id, visible: false }),
                );
                proof {
                    assert(cmds@ =~= hide_cmds(WindowRole::Main));
                }
                cmds
            },
            None => Vec::new(),
        }
    }

    /// Open a popup: hide the main window if open, then create the popup's
    /// window only if it is absent; an existing one is left as it is.
    pub fn open_popup(&mut self, role: WindowRole) -> (cmds: Vec<HostCmd>)
        requires
            old(self).next_id < u64::MAX,
        ensures
            *final(self) == open_popup_spec(*old(self), role).0,
            cmds@ == open_popup_spec(*old(self), role).1,
    {
        let mut cmds = self.hide_main();
        let (_h, mut created) = self.get_or_create(role);
        cmds.append(&mut created);
        cmds
    }

    /// The trigger router: map one stimulus onto its fixed action sequence.
    pub fn dispatch(&mut self, action: TrayAction) -> (cmds: Vec<HostCmd>)
        requires
            old(self).next_id < u64::MAX,
        ensures
            *final(self) == dispatch_spec(*old(self), action).0,
            cmds@ == dispatch_spec(*old(self), action).1,
    {
        match action {
            TrayAction::ToggleShowHide => {
                let (_h, mut cmds) = self.get_or_create(WindowRole::Main);
                let mut toggled = self.toggle(WindowRole::Main);
                cmds.append(&mut toggled);
                cmds
            },
            TrayAction::OpenSettings => self.open_popup(WindowRole::Settings),
            TrayAction::OpenHelp => self.open_popup(WindowRole::Help),
            TrayAction::Quit => {
                let mut cmds: Vec<HostCmd> = Vec::new();
                cmds.push(HostCmd::Exit);
                proof {
                    assert(cmds@ =~= seq![HostCmd::Exit]);
                }
                cmds
            },
        }
    }

    /// Record that the host window for `role` is gone — observed as a host
    /// lookup miss after the user closed it. The entry is dropped; a later
    /// `get_or_create` builds a fresh window.
    pub fn note_closed(&mut self, role: WindowRole)
        ensures
            *final(self) == old(self).with_window(role, None),
    {
        self.set_window(role, None);
    }
}

/// Two consecutive `get_or_create` calls for one role, with no close
/// observed between them, return the very same window and leave the session
/// unchanged: no duplicate is ever created.
pub proof fn lemma_get_or_create_idempotent(s: Session, role: WindowRole)
    ensures
        get_or_create_spec(get_or_create_spec(s, role).0, role).0 == get_or_create_spec(
            s,
            role,
        ).0,
        get_or_create_spec(get_or_create_spec(s, role).0, role).1 == get_or_create_spec(
            s,
            role,
        ).1,
        get_or_create_spec(get_or_create_spec(s, role).0, role).2 == Seq::<HostCmd>::empty(),
{
}

/// Toggling is its own inverse: toggled twice from a known visibility, a
/// window is back in exactly the starting state.
pub proof fn lemma_toggle_involutive(s: Session, role: WindowRole)
    requires
        s.window_of(role) is Some,
    ensures
        toggle_spec(toggle_spec(s, role).0, role).0 == s,
{
    let s2 = toggle_spec(toggle_spec(s, role).0, role).0;
    assert(s2 =~= s);
}

/// On a fresh process, firing ToggleShowHide twice creates the main window
/// exactly once: the first firing creates it and runs the show sequence, the
/// second runs the hide sequence on the same window.
pub proof fn lemma_toggle_twice_from_fresh()
    ensures
        dispatch_spec(Session::init(), TrayAction::ToggleShowHide).1 == seq![
            HostCmd::Create(WindowRole::Main),
        ] + show_cmds(WindowRole::Main),
        dispatch_spec(Session::init(), TrayAction::ToggleShowHide).0.window_of(WindowRole::Main)
            matches Some(w) && w.id == 0 && w.visible,
        dispatch_spec(
            dispatch_spec(Session::init(), TrayAction::ToggleShowHide).0,
            TrayAction::ToggleShowHide,
        ).1 == hide_cmds(WindowRole::Main),
        dispatch_spec(
            dispatch_spec(Session::init(), TrayAction::ToggleShowHide).0,
            TrayAction::ToggleShowHide,
        ).0.window_of(WindowRole::Main) matches Some(w2) && w2.id == 0 && !w2.visible,
{
    assert(seq![HostCmd::Create(WindowRole::Main)] + show_cmds(WindowRole::Main)
        =~= dispatch_spec(Session::init(), TrayAction::ToggleShowHide).1);
    assert(Seq::<HostCmd>::empty() + hide_cmds(WindowRole::Main) =~= hide_cmds(
        WindowRole::Main,
    ));
}

/// The entry of each tray menu item, in the fixed order the menu shows.
#[derive(PartialEq, Eq, Debug)]
pub enum TrayMenuEntry {
    /// A selectable item: its identifier, then its visible caption.
    Item(String, String),
    Separator,
}

/// The fixed tray menu: Show/Hide, Settings, Help, a separator, then Quit.
pub fn tray_menu() -> (menu: Vec<TrayMenuEntry>)
    ensures
        menu@.len() == 5,
        menu@[0] matches TrayMenuEntry::Item(i, t) && i@ == "toggle_show"@ && t@ == "Show/Hide"@,
        menu@[1] matches TrayMenuEntry::Item(i, t) && i@ == "settings"@ && t@ == "Settings"@,
        menu@[2] matches TrayMenuEntry::Item(i, t) && i@ == "help"@ && t@ == "Help"@,
        menu@[3] is Separator,
        menu@[4] matches TrayMenuEntry::Item(i, t) && i@ == "quit"@ && t@ == "Quit"@,
{
    let mut menu: Vec<TrayMenuEntry> = Vec::new();
    menu.push(TrayMenuEntry::Item("toggle_show".to_owned(), "Show/Hide".to_owned()));
    menu.push(TrayMenuEntry::Item("settings".to_owned(), "Settings".to_owned()));
    menu.push(TrayMenuEntry::Item("help".to_owned(), "Help".to_owned()));
    menu.push(TrayMenuEntry::Separator);
    menu.push(TrayMenuEntry::Item("quit".to_owned(), "Quit".to_owned()));
    menu
}

/// Which action a tray menu identifier triggers; an unknown identifier
/// triggers nothing.
pub open spec fn action_of_id(id: Seq<char>) -> Option<TrayAction> {
    if id == "toggle_show"@ {
        Some(TrayAction::ToggleShowHide)
    } else if id == "settings"@ {
        Some(TrayAction::OpenSettings)
    } else if id == "help"@ {
        Some(TrayAction::OpenHelp)
    } else if id == "quit"@ {
        Some(TrayAction::Quit)
    } else {
        None
    }
}

/// Map a tray menu identifier to the action it triggers.
pub fn action_of_menu_id(id: &str) -> (a: Option<TrayAction>)
    ensures
        a == action_of_id(id@),
{
    let id = id.to_owned();
    if id == "toggle_show".to_owned() {
        Some(TrayAction::ToggleShowHide)
    } else if id == "settings".to_owned() {
        Some(TrayAction::OpenSettings)
    } else if id == "help".to_owned() {
        Some(TrayAction::OpenHelp)
    } else if id == "quit".to_owned() {
        Some(TrayAction::Quit)
    } else {
        None
    }
}

} // verus!
