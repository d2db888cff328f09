use vstd::prelude::*;
use vstd::string::StringExecFns;

use crate::terminal::screens::{ConnectStatus, ConnectionScreen, Key};

verus! {

/// Calls `String::push`, which appends the character.
#[verifier::external_body]
fn string_push(s: &mut String, c: char)
    ensures
        final(s)@ == old(s)@.push(c),
{
    s.push(c)
}

/// Calls `String::pop`, which removes and returns the last character, or
/// returns `None` and leaves an empty string as it is.
#[verifier::external_body]
fn string_pop(s: &mut String) -> (res: Option<char>)
    ensures
        old(s)@.len() == 0 ==> res is None && final(s)@ == old(s)@,
        old(s)@.len() > 0 ==> res == Some(old(s)@.last()) && final(s)@ == old(s)@.drop_last(),
{
    s.pop()
}

/// The text of the error a second connection attempt gets.
pub open spec fn already_exists_message() -> Seq<char> {
    "already exists"@
}

/// The text of the error every disconnection ends with.
pub open spec fn no_connection_message() -> Seq<char> {
    "no connection"@
}

/// What the address input becomes after a key on the Editing entry: a
/// character is appended, backspace removes the last one.
pub open spec fn edited_input(input: Seq<char>, code: Key) -> Seq<char> {
    match code {
        Key::Char(c) => input.push(c),
        Key::Backspace => if input.len() > 0 {
            input.drop_last()
        } else {
            input
        },
        _ => input,
    }
}

/// The socket work the page asks for on an entry: a connection on Connecting
/// when none is open, a shutdown on Disconnecting when one is open.
pub open spec fn page_request(c: ConnectionScreen, connected: bool) -> PageRequest {
    if c == ConnectionScreen::Connecting && !connected {
        PageRequest::Connect
    } else if c == ConnectionScreen::Disconnecting && connected {
        PageRequest::Shutdown
    } else {
        PageRequest::Nothing
    }
}

/// The entry the page is on after acting: a refused connection goes back to
/// Connect reporting an error, a refused shutdown to Disconnect; everything
/// else stays until the socket work is done.
pub open spec fn page_screen_after(c: ConnectionScreen, connected: bool) -> ConnectionScreen {
    if c == ConnectionScreen::Connecting && connected {
        ConnectionScreen::Connect(ConnectStatus::Error)
    } else if c == ConnectionScreen::Disconnecting && !connected {
        ConnectionScreen::Disconnect
    } else {
        c
    }
}

/// The address input after acting: only the Editing entry takes keys.
pub open spec fn page_input_after(c: ConnectionScreen, input: Seq<char>, code: Key) -> Seq<char> {
    if c == ConnectionScreen::Editing {
        edited_input(input, code)
    } else {
        input
    }
}

/// The recorded error after acting: a refused connection or shutdown records
/// why.
pub open spec fn page_error_after(
    c: ConnectionScreen,
    connected: bool,
    error: Option<Seq<char>>,
) -> Option<Seq<char>> {
    if c == ConnectionScreen::Connecting && connected {
        Some(already_exists_message())
    } else if c == ConnectionScreen::Disconnecting && !connected {
        Some(no_connection_message())
    } else {
        error
    }
}

/// The socket work the page asks for; the one who owns the socket does it
/// and reports back.
#[derive(Debug, Clone, Copy, PartialEq, Eq, Structural)]
pub enum PageRequest {
    /// Nothing to do.
    Nothing,
    /// Open a connection to the address in the page's input.
    Connect,
    /// Shut the open connection down.
    Shutdown,
}

/// Whether the page holds an open connection to the engine.
pub struct Connection {
    open: bool,
}

impl Connection {
    pub closed spec fn is_open(&self) -> bool {
        self.open
    }

    /// No connection.
    pub fn new() -> (res: Connection)
        ensures
            !res.is_open(),
    {
        Connection { open: false }
    }

    /// Whether a connection is open.
    pub fn has_connection(&self) -> (res: bool)
        ensures
            res == self.is_open(),
    {
        self.open
    }
}

/// The connection page: the address being typed, the last error, and the
/// connection itself.
pub struct ConnectionPage {
    connection: Connection,
    addr_input: String,
    error_string: Option<String>,
}

impl ConnectionPage {
    pub closed spec fn connected(&self) -> bool {
        self.connection.is_open()
    }

    pub closed spec fn input(&self) -> Seq<char> {
        self.addr_input@
    }

    pub closed spec fn error(&self) -> Option<Seq<char>> {
        match self.error_string {
            Some(s) => Some(s@),
            None => None,
        }
    }

    /// No connection, no input, no error.
    pub fn new() -> (res: ConnectionPage)
        ensures
            !res.connected(),
            res.input() == Seq::<char>::empty(),
            res.error() is None,
    {
        ConnectionPage { connection: Connection::new(), addr_input: String::new(), error_string: None }
    }

    /// Acts on the entry the page is on. Editing takes the key into the
    /// address; Connecting asks for a connection, or, when one is open
    /// already, records the error and goes back to Connect reporting an error;
    /// Disconnecting asks
    /// for a shutdown, or, when none is open, records the error and goes to
    /// Disconnect. The other entries do nothing.
    pub fn handle_current_screen(&mut self, code: &Key, screen: &mut ConnectionScreen) -> (res:
        PageRequest)
        ensures
            res == page_request(*old(screen), old(self).connected()),
            *final(screen) == page_screen_after(*old(screen), old(self).connected()),
            final(self).connected() == old(self).connected(),
            final(self).input() == page_input_after(*old(screen), old(self).input(), *code),
            final(self).error() == page_error_after(
                *old(screen),
                old(self).connected(),
                old(self).error(),
            ),
    {
        match *screen {
            ConnectionScreen::Editing => {
                self.handle_editing_screen(code);
                PageRequest::Nothing
            },
            ConnectionScreen::Connecting => {
                if self.connection.has_connection() {
                    self.error_string = Some(String::from_str("already exists"));
                    *screen = ConnectionScreen::Connect(ConnectStatus::Error);
                    PageRequest::Nothing
                } else {
                    PageRequest::Connect
                }
            },
            ConnectionScreen::Disconnecting => {
                if self.connection.has_connection() {
                    PageRequest::Shutdown
                } else {
                    self.error_string = Some(String::from_str("no connection"));
                    *screen = ConnectionScreen::Disconnect;
                    PageRequest::Nothing
                }
            },
            _ => PageRequest::Nothing,
        }
    }

    /// Takes the outcome of a requested connection: on success the connection
    /// is open and the Connect entry reports it connected; on failure its error
    /// text is recorded and the Connect entry reports an error.
    pub fn finish_connecting(&mut self, outcome: Result<(), String>, screen: &mut ConnectionScreen)
        ensures
            final(self).input() == old(self).input(),
            outcome is Ok ==> final(self).connected() && final(self).error() == old(self).error()
                && *final(screen) == ConnectionScreen::Connect(ConnectStatus::Connected),
            outcome matches Err(e) ==> final(self).connected() == old(self).connected()
                && final(self).error() == Some(e@) && *final(screen) == ConnectionScreen::Connect(
                ConnectStatus::Error,
            ),
    {
        match outcome {
            Ok(()) => {
                self.connection.open = true;
                *screen = ConnectionScreen::Connect(ConnectStatus::Connected);
            },
            Err(e) => {
                self.error_string = Some(e);
                *screen = ConnectionScreen::Connect(ConnectStatus::Error);
            },
        }
    }

    /// Takes the outcome of a requested shutdown: the connection is gone
    /// either way, and the error recorded is the shutdown's own or, when it
    /// succeeded, that there is no connection; the page goes to the Disconnect
    /// entry.
    pub fn finish_disconnecting(&mut self, outcome: Result<(), String>, screen: &mut ConnectionScreen)
        ensures
            final(self).input() == old(self).input(),
            !final(self).connected(),
            *final(screen) == ConnectionScreen::Disconnect,
            outcome is Ok ==> final(self).error() == Some(no_connection_message()),
            outcome matches Err(e) ==> final(self).error() == Some(e@),
    {
        self.connection.open = false;
        match outcome {
            Ok(()) => {
                self.error_string = Some(String::from_str("no connection"));
            },
            Err(e) => {
                self.error_string = Some(e);
            },
        }
        *screen = ConnectionScreen::Disconnect;
    }

    pub fn is_connection_active(&self) -> (res: bool)
        ensures
            res == self.connected(),
    {
        self.connection.has_connection()
    }

    /// The address typed so far.
    pub fn input_string(&self) -> (res: &String)
        ensures
            res@ == self.input(),
    {
        &self.addr_input
    }

    /// The last error, if any.
    pub fn error_string(&self) -> (res: Option<&String>)
        ensures
            res is Some <==> self.error() is Some,
            res matches Some(s) ==> Some(s@) == self.error(),
    {
        self.error_string.as_ref()
    }

    pub fn clear_error_string(&mut self)
        ensures
            final(self).error() is None,
            final(self).input() == old(self).input(),
            final(self).connected() == old(self).connected(),
    {
        self.error_string = None;
    }

    fn handle_editing_screen(&mut self, code: &Key)
        ensures
            final(self).input() == edited_input(old(self).input(), *code),
            final(self).error() == old(self).error(),
            final(self).connected() == old(self).connected(),
    {
        if let Key::Char(c) = code {
            string_push(&mut self.addr_input, *c);
        }
        if let Key::Backspace = code {
            let _ = string_pop(&mut self.addr_input);
        }
    }
}

/// Backspace on the Editing entry removes exactly the last character of a
/// non-empty address (so a one-character address becomes empty) and leaves an
/// empty one empty; it undoes the typing of a character.
pub proof fn lemma_backspace_removes_last(input: Seq<char>, c: char)
    ensures
        input.len() > 0 ==> page_input_after(ConnectionScreen::Editing, input, Key::Backspace)
            == input.drop_last(),
        input.len() > 0 ==> page_input_after(ConnectionScreen::Editing, input, Key::Backspace).len()
            == input.len() - 1,
        input.len() == 0 ==> page_input_after(ConnectionScreen::Editing, input, Key::Backspace)
            == input,
        page_input_after(
            ConnectionScreen::Editing,
            page_input_after(ConnectionScreen::Editing, input, Key::Char(c)),
            Key::Backspace,
        ) == input,
{
    assert(input.push(c).drop_last() =~= input);
}

/// Typing a character on the Editing entry appends it to the address; on
/// every other entry keys leave the address alone.
pub proof fn lemma_typing_appends(c: ConnectionScreen, input: Seq<char>, ch: char, code: Key)
    ensures
        page_input_after(ConnectionScreen::Editing, input, Key::Char(ch)) == input.push(ch),
        c != ConnectionScreen::Editing ==> page_input_after(c, input, code) == input,
{
}

} // verus!
