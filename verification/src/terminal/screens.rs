use vstd::prelude::*;

verus! {

/// The keys the terminal reacts to; every other key is `Other`.
#[derive(Debug, Clone, Copy, PartialEq, Eq, Structural)]
pub enum Key {
    Char(char),
    Up,
    Down,
    PageUp,
    PageDown,
    Enter,
    Esc,
    Backspace,
    Other,
}

/// A key that moves the selection up: `k`, up or page up.
pub open spec fn is_up_key(code: Key) -> bool {
    code == Key::Char('k') || code == Key::Up || code == Key::PageUp
}

/// A key that moves the selection down: `j`, down or page down.
pub open spec fn is_down_key(code: Key) -> bool {
    code == Key::Char('j') || code == Key::Down || code == Key::PageDown
}

/// A key that leaves a connection sub-screen: escape or `q`.
pub open spec fn is_leave_key(code: Key) -> bool {
    code == Key::Esc || code == Key::Char('q')
}

/// The pages of the main menu.
#[derive(Debug, Clone, Copy, PartialEq, Eq, Structural)]
pub enum MainScreen {
    Main,
    Connection,
    Samples,
}

/// What the Connect entry reports of the last connection attempt.
#[derive(Debug, Clone, Copy, PartialEq, Eq, Structural)]
pub enum ConnectStatus {
    /// Nothing to report: no attempt ended on this entry yet.
    Idle,
    /// The attempt opened a connection.
    Connected,
    /// The attempt failed; the page holds the error.
    Error,
}

/// The entries of the connection page and the actions they start: each
/// entry has an "-ing" state that the page acts on; the Connect entry also
/// carries the status of the last attempt.
#[derive(Debug, Clone, Copy, PartialEq, Eq, Structural)]
pub enum ConnectionScreen {
    Edit,
    Editing,
    Connect(ConnectStatus),
    Connecting,
    Disconnect,
    Disconnecting,
}

/// Where the terminal is: a main menu entry, or inside the connection page
/// on one of its entries.
#[derive(Debug, Clone, Copy, PartialEq, Eq, Structural)]
pub enum Screen {
    Main,
    Connection(Option<ConnectionScreen>),
    Samples,
}

impl Default for MainScreen {
    fn default() -> (res: MainScreen)
        ensures
            res == MainScreen::Main,
    {
        MainScreen::Main
    }
}

impl Default for ConnectStatus {
    fn default() -> (res: ConnectStatus)
        ensures
            res == ConnectStatus::Idle,
    {
        ConnectStatus::Idle
    }
}

impl Default for ConnectionScreen {
    fn default() -> (res: ConnectionScreen)
        ensures
            res == ConnectionScreen::Edit,
    {
        ConnectionScreen::Edit
    }
}

impl Default for Screen {
    fn default() -> (res: Screen)
        ensures
            res == Screen::Main,
    {
        Screen::Main
    }
}

/// Enter on a connection entry starts its action, and enter again stops it.
pub open spec fn connection_enter(c: ConnectionScreen) -> ConnectionScreen {
    match c {
        ConnectionScreen::Edit => ConnectionScreen::Editing,
        ConnectionScreen::Editing => ConnectionScreen::Edit,
        ConnectionScreen::Connect(_) => ConnectionScreen::Connecting,
        ConnectionScreen::Connecting => ConnectionScreen::Connect(ConnectStatus::Idle),
        ConnectionScreen::Disconnect => ConnectionScreen::Disconnecting,
        ConnectionScreen::Disconnecting => ConnectionScreen::Disconnect,
    }
}

/// Up moves between the entries Disconnect, Connect, Edit; elsewhere it stays.
pub open spec fn connection_up(c: ConnectionScreen) -> ConnectionScreen {
    match c {
        ConnectionScreen::Connect(_) => ConnectionScreen::Edit,
        ConnectionScreen::Disconnect => ConnectionScreen::Connect(ConnectStatus::Idle),
        _ => c,
    }
}

/// Down moves between the entries Edit, Connect, Disconnect; elsewhere it stays.
pub open spec fn connection_down(c: ConnectionScreen) -> ConnectionScreen {
    match c {
        ConnectionScreen::Edit => ConnectionScreen::Connect(ConnectStatus::Idle),
        ConnectionScreen::Connect(_) => ConnectionScreen::Disconnect,
        _ => c,
    }
}

/// A connection entry after a key press.
pub open spec fn connection_after_key(c: ConnectionScreen, code: Key) -> ConnectionScreen {
    if code == Key::Enter {
        connection_enter(c)
    } else if is_up_key(code) {
        connection_up(c)
    } else if is_down_key(code) {
        connection_down(c)
    } else {
        c
    }
}

/// Enter on the connection menu entry opens the page on its first entry.
pub open spec fn screen_enter(s: Screen) -> Screen {
    match s {
        Screen::Connection(None) => Screen::Connection(Some(ConnectionScreen::Edit)),
        _ => s,
    }
}

/// Up in the main menu: Samples, Connection, Main.
pub open spec fn screen_up(s: Screen) -> Screen {
    match s {
        Screen::Connection(_) => Screen::Main,
        Screen::Samples => Screen::Connection(None),
        _ => s,
    }
}

/// Down in the main menu: Main, Connection, Samples.
pub open spec fn screen_down(s: Screen) -> Screen {
    match s {
        Screen::Main => Screen::Connection(None),
        Screen::Connection(_) => Screen::Samples,
        _ => s,
    }
}

/// Where a key press leads: in the main menu it moves or enters; inside the
/// connection page escape or `q` leave the page and other keys go to the
/// page's entry.
pub open spec fn screen_after_key(s: Screen, code: Key) -> Screen {
    match s {
        Screen::Connection(Some(c)) => if is_leave_key(code) {
            Screen::Connection(None)
        } else {
            Screen::Connection(Some(connection_after_key(c, code)))
        },
        _ => if is_up_key(code) {
            screen_up(s)
        } else if is_down_key(code) {
            screen_down(s)
        } else if code == Key::Enter {
            screen_enter(s)
        } else {
            s
        },
    }
}

/// The name shown for a connection entry.
pub open spec fn connection_entry_name(c: ConnectionScreen) -> Seq<char> {
    match c {
        ConnectionScreen::Edit => "Edit"@,
        ConnectionScreen::Editing => "Editing"@,
        ConnectionScreen::Connect(_) => "Connect"@,
        ConnectionScreen::Connecting => "Connecting"@,
        ConnectionScreen::Disconnect => "Disconnect"@,
        ConnectionScreen::Disconnecting => "Disconnecting"@,
    }
}

/// The name shown for a main menu entry.
pub open spec fn screen_name(s: Screen) -> Seq<char> {
    match s {
        Screen::Main => "Main"@,
        Screen::Connection(_) => "Connection"@,
        Screen::Samples => "Samples"@,
    }
}

impl ConnectionScreen {
    /// The name shown for the entry.
    pub fn display_string(&self) -> (res: &'static str)
        ensures
            res@ == connection_entry_name(*self),
    {
        match self {
            ConnectionScreen::Edit => "Edit",
            ConnectionScreen::Editing => "Editing",
            ConnectionScreen::Connect(_) => "Connect",
            ConnectionScreen::Connecting => "Connecting",
            ConnectionScreen::Disconnect => "Disconnect",
            ConnectionScreen::Disconnecting => "Disconnecting",
        }
    }

    /// Enter toggles an entry's action, up and down move between entries.
    pub fn handle_key_press(&mut self, code: &Key)
        ensures
            *final(self) == connection_after_key(*old(self), *code),
    {
        match code {
            Key::Enter => self.handle_enter_key(),
            Key::Char('k') | Key::Up | Key::PageUp => self.handle_up_key(),
            Key::Char('j') | Key::Down | Key::PageDown => self.handle_down_key(),
            _ => {},
        }
    }

    pub fn handle_enter_key(&mut self)
        ensures
            *final(self) == connection_enter(*old(self)),
    {
        match self {
            ConnectionScreen::Edit => *self = ConnectionScreen::Editing,
            ConnectionScreen::Editing => *self = ConnectionScreen::Edit,
            ConnectionScreen::Connect(_) => *self = ConnectionScreen::Connecting,
            ConnectionScreen::Connecting => *self = ConnectionScreen::Connect(ConnectStatus::Idle),
            ConnectionScreen::Disconnect => *self = ConnectionScreen::Disconnecting,
            ConnectionScreen::Disconnecting => *self = ConnectionScreen::Disconnect,
        }
    }

    pub fn handle_up_key(&mut self)
        ensures
            *final(self) == connection_up(*old(self)),
    {
        match self {
            ConnectionScreen::Connect(_) => *self = ConnectionScreen::Edit,
            ConnectionScreen::Disconnect => *self = ConnectionScreen::Connect(ConnectStatus::Idle),
            _ => {},
        }
    }

    pub fn handle_down_key(&mut self)
        ensures
            *final(self) == connection_down(*old(self)),
    {
        match self {
            ConnectionScreen::Edit => *self = ConnectionScreen::Connect(ConnectStatus::Idle),
            ConnectionScreen::Connect(_) => *self = ConnectionScreen::Disconnect,
            _ => {},
        }
    }
}

impl Screen {
    /// The name shown for the menu entry.
    pub fn get_display_string(&self) -> (res: &'static str)
        ensures
            res@ == screen_name(*self),
    {
        match self {
            Screen::Main => "Main",
            Screen::Connection(_) => "Connection",
            Screen::Samples => "Samples",
        }
    }

    /// Moves through the menu, or, inside the connection page, leaves it on
    /// escape or `q` and hands other keys to the page's entry.
    pub fn handle_key_press(&mut self, code: &Key)
        ensures
            *final(self) == screen_after_key(*old(self), *code),
    {
        match *self {
            Screen::Main | Screen::Connection(None) | Screen::Samples => self.handle_main_screen(code),
            Screen::Connection(Some(c)) => {
                match code {
                    Key::Esc | Key::Char('q') => *self = Screen::Connection(None),
                    _ => {
                        let mut entry = c;
                        entry.handle_key_press(code);
                        *self = Screen::Connection(Some(entry));
                    },
                }
            },
        }
    }

    fn handle_main_screen(&mut self, code: &Key)
        ensures
            *final(self) == if is_up_key(*code) {
                screen_up(*old(self))
            } else if is_down_key(*code) {
                screen_down(*old(self))
            } else if *code == Key::Enter {
                screen_enter(*old(self))
            } else {
                *old(self)
            },
    {
        match code {
            Key::Char('k') | Key::Up | Key::PageUp => self.handle_up_key(),
            Key::Char('j') | Key::Down | Key::PageDown => self.handle_down_key(),
            Key::Enter => self.handle_enter_key(),
            _ => {},
        }
    }

    /// Opens the connection page when its menu entry is selected.
    pub fn handle_enter_key(&mut self)
        ensures
            *final(self) == screen_enter(*old(self)),
    {
        match self {
            Screen::Connection(None) => *self = Screen::Connection(Some(ConnectionScreen::Edit)),
            _ => {},
        }
    }

    pub fn handle_up_key(&mut self)
        ensures
            *final(self) == screen_up(*old(self)),
    {
        match self {
            Screen::Connection(_) => *self = Screen::Main,
            Screen::Samples => *self = Screen::Connection(None),
            _ => {},
        }
    }

    pub fn handle_down_key(&mut self)
        ensures
            *final(self) == screen_down(*old(self)),
    {
        match self {
            Screen::Main => *self = Screen::Connection(None),
            Screen::Connection(_) => *self = Screen::Samples,
            _ => {},
        }
    }
}

/// Enter twice on a connection entry brings it back: it starts and stops
/// the entry's action. (A Connect entry that reports an attempt comes back
/// without the report.)
pub proof fn lemma_connection_enter_involution(c: ConnectionScreen)
    requires
        c != ConnectionScreen::Connect(ConnectStatus::Connected),
        c != ConnectionScreen::Connect(ConnectStatus::Error),
    ensures
        connection_enter(connection_enter(c)) == c,
{
}

/// Down then up returns to Edit or Connect; up then down returns to Connect
/// or Disconnect.
pub proof fn lemma_connection_up_down(c: ConnectionScreen)
    ensures
        (c == ConnectionScreen::Edit || c == ConnectionScreen::Connect(ConnectStatus::Idle))
            ==> connection_up(connection_down(c)) == c,
        (c == ConnectionScreen::Connect(ConnectStatus::Idle) || c == ConnectionScreen::Disconnect)
            ==> connection_down(connection_up(c)) == c,
{
}

/// In the main menu, down then up returns to Main or Connection, and up then
/// down returns to Connection or Samples.
pub proof fn lemma_main_menu_up_down(s: Screen)
    ensures
        (s == Screen::Main || s == Screen::Connection(None)) ==> screen_up(screen_down(s)) == s,
        (s == Screen::Connection(None) || s == Screen::Samples) ==> screen_down(screen_up(s)) == s,
{
}

/// Escape or `q` inside the connection page always leaves it, back on the
/// connection menu entry.
pub proof fn lemma_leave_connection_page(c: ConnectionScreen, code: Key)
    requires
        is_leave_key(code),
    ensures
        screen_after_key(Screen::Connection(Some(c)), code) == Screen::Connection(None),
{
}

/// The connection page's entries only ever move among themselves: a key
/// press inside the page either leaves it or stays inside it.
pub proof fn lemma_connection_page_closed(c: ConnectionScreen, code: Key)
    ensures
        screen_after_key(Screen::Connection(Some(c)), code) is Connection,
{
}

/// The place of a listed entry on the connection page, top to bottom: Edit,
/// Connect (whatever it reports), Disconnect. The "-ing" states have none.
pub open spec fn entry_position(c: ConnectionScreen) -> Option<int> {
    match c {
        ConnectionScreen::Edit => Some(0),
        ConnectionScreen::Connect(_) => Some(1),
        ConnectionScreen::Disconnect => Some(2),
        _ => None,
    }
}

/// Up and down walk the listed entries one place at a time, stopping at the
/// first and the last; while an entry's action runs ("-ing"), they do nothing.
pub proof fn lemma_connection_moves_one_place(c: ConnectionScreen)
    ensures
        entry_position(c) matches Some(p) ==> entry_position(connection_down(c)) == Some(
            if p < 2 { p + 1 } else { p },
        ),
        entry_position(c) matches Some(p) ==> entry_position(connection_up(c)) == Some(
            if p > 0 { p - 1 } else { p },
        ),
        entry_position(c) is None ==> connection_down(c) == c && connection_up(c) == c,
        connection_down(c) is Connect && !(c is Connect) ==> connection_down(c)
            == ConnectionScreen::Connect(ConnectStatus::Idle),
        connection_up(c) is Connect && !(c is Connect) ==> connection_up(c)
            == ConnectionScreen::Connect(ConnectStatus::Idle),
{
}

/// The place of a main menu entry, top to bottom: Main, Connection, Samples.
/// Inside the connection page there is none.
pub open spec fn menu_position(s: Screen) -> Option<int> {
    match s {
        Screen::Main => Some(0),
        Screen::Connection(None) => Some(1),
        Screen::Samples => Some(2),
        _ => None,
    }
}

/// In the main menu up and down walk the entries one place at a time,
/// stopping at the first and the last, and never enter the connection page.
pub proof fn lemma_menu_moves_one_place(s: Screen)
    ensures
        menu_position(s) matches Some(p) ==> menu_position(screen_down(s)) == Some(
            if p < 2 { p + 1 } else { p },
        ),
        menu_position(s) matches Some(p) ==> menu_position(screen_up(s)) == Some(
            if p > 0 { p - 1 } else { p },
        ),
{
}

/// The Connect entry moves the same way whatever it reports of the last
/// attempt: every down key selects Disconnect and every up key selects Edit.
pub proof fn lemma_connect_moves_whatever_status(st: ConnectStatus, code: Key)
    ensures
        connection_down(ConnectionScreen::Connect(st)) == ConnectionScreen::Disconnect,
        connection_up(ConnectionScreen::Connect(st)) == ConnectionScreen::Edit,
        is_down_key(code) ==> connection_after_key(ConnectionScreen::Connect(st), code)
            == ConnectionScreen::Disconnect,
        is_up_key(code) ==> connection_after_key(ConnectionScreen::Connect(st), code)
            == ConnectionScreen::Edit,
{
}

/// In the main menu Enter changes the screen only on the Connection entry,
/// where it opens the page on its first entry: from any other screen outside
/// the page Enter stays put, and a key press outside the page lands inside it
/// only from the Connection entry.
pub proof fn lemma_enter_opens_only_connection(s: Screen, code: Key)
    ensures
        s != Screen::Connection(None) ==> screen_enter(s) == s,
        screen_enter(Screen::Connection(None)) == Screen::Connection(Some(ConnectionScreen::Edit)),
        !(s matches Screen::Connection(Some(_))) && s != Screen::Connection(None)
            ==> screen_after_key(s, Key::Enter) == s,
        (!(s matches Screen::Connection(Some(_))) && (screen_after_key(s, code) matches Screen::Connection(Some(_))))
            ==> s == Screen::Connection(None) && code == Key::Enter,
{
}

} // verus!
