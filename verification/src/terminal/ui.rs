use vstd::prelude::*;

use crate::terminal::screens::{connection_entry_name, ConnectStatus, ConnectionScreen};

verus! {

/// How far the content sits inside the title frame on every side.
pub const INNER_OFFSET: u16 = 3;

/// A rectangle of terminal cells.
#[derive(Debug, Clone, Copy, PartialEq, Eq, Structural)]
pub struct Area {
    pub x: u16,
    pub y: u16,
    pub width: u16,
    pub height: u16,
}

/// The area inside the title frame: `INNER_OFFSET` cells in from every edge.
/// The frame must leave room for that.
pub fn get_inner_area(area: Area) -> (res: Area)
    requires
        area.x + INNER_OFFSET <= u16::MAX,
        area.y + INNER_OFFSET <= u16::MAX,
        area.width >= INNER_OFFSET * 2,
        area.height >= INNER_OFFSET * 2,
    ensures
        res.x == area.x + INNER_OFFSET,
        res.y == area.y + INNER_OFFSET,
        res.width == area.width - INNER_OFFSET * 2,
        res.height == area.height - INNER_OFFSET * 2,
{
    let mut inner_area = area;
    inner_area.x = inner_area.x + INNER_OFFSET;
    inner_area.y = inner_area.y + INNER_OFFSET;
    inner_area.width = inner_area.width - INNER_OFFSET * 2;
    inner_area.height = inner_area.height - INNER_OFFSET * 2;
    inner_area
}

/// The colours the connection page uses.
#[derive(Debug, Clone, Copy, PartialEq, Eq, Structural)]
pub enum Color {
    LightGreen,
    LightBlue,
    Black,
    White,
}

/// The connection page lists its entries, not their "-ing" states.
pub fn is_listed_entry(c: ConnectionScreen) -> (res: bool)
    ensures
        res <==> (c == ConnectionScreen::Edit || c is Connect || c == ConnectionScreen::Disconnect),
{
    match c {
        ConnectionScreen::Editing | ConnectionScreen::Connecting | ConnectionScreen::Disconnecting => false,
        _ => true,
    }
}

/// Background and foreground of a listed entry while the page is on `screen`:
/// the selected entry is black on light green; the Edit entry is black on light
/// blue while the address is being edited; the others are white on black.
pub fn entry_colors(screen: ConnectionScreen, entry: ConnectionScreen) -> (res: (Color, Color))
    ensures
        entry == ConnectionScreen::Edit ==> res == (if screen == ConnectionScreen::Edit {
            (Color::LightGreen, Color::Black)
        } else if screen == ConnectionScreen::Editing {
            (Color::LightBlue, Color::Black)
        } else {
            (Color::Black, Color::White)
        }),
        entry != ConnectionScreen::Edit ==> res == (if screen == entry {
            (Color::LightGreen, Color::Black)
        } else {
            (Color::Black, Color::White)
        }),
{
    let bg = match entry {
        ConnectionScreen::Edit => match screen {
            ConnectionScreen::Edit => Color::LightGreen,
            ConnectionScreen::Editing => Color::LightBlue,
            _ => Color::Black,
        },
        _ => if screen == entry {
            Color::LightGreen
        } else {
            Color::Black
        },
    };
    let fg = match entry {
        ConnectionScreen::Edit => match screen {
            ConnectionScreen::Edit | ConnectionScreen::Editing => Color::Black,
            _ => Color::White,
        },
        _ => if screen == entry {
            Color::Black
        } else {
            Color::White
        },
    };
    (bg, fg)
}

/// The text of a listed entry while the page is on `screen`, with the typed
/// address `input` and the recorded error `error`:
/// - while editing, the Edit entry shows the address;
/// - on a Connect entry that reports a connection, the Connect entry shows
///   "Connected";
/// - on a Connect entry that reports an error, the Connect entry shows the
///   error, if one is recorded;
/// - otherwise the Edit entry shows the address once something is typed;
/// - every other entry shows its name.
pub open spec fn entry_text_of(
    screen: ConnectionScreen,
    entry: ConnectionScreen,
    input: Seq<char>,
    error: Option<Seq<char>>,
) -> Seq<char> {
    match screen {
        ConnectionScreen::Editing => if entry == ConnectionScreen::Edit {
            input
        } else {
            connection_entry_name(entry)
        },
        ConnectionScreen::Connect(ConnectStatus::Connected) => if entry is Connect {
            "Connected"@
        } else {
            connection_entry_name(entry)
        },
        ConnectionScreen::Connect(ConnectStatus::Error) => match (entry, error) {
            (ConnectionScreen::Connect(_), Some(e)) => e,
            _ => connection_entry_name(entry),
        },
        _ => if entry == ConnectionScreen::Edit && input.len() > 0 {
            input
        } else {
            connection_entry_name(entry)
        },
    }
}

/// The text of a listed entry.
pub fn entry_text<'a>(
    screen: ConnectionScreen,
    entry: ConnectionScreen,
    input: &'a String,
    error: Option<&'a String>,
) -> (res: &'a str)
    ensures
        res@ == entry_text_of(
            screen,
            entry,
            input@,
            match error {
                Some(e) => Some(e@),
                None => None,
            },
        ),
{
    match screen {
        ConnectionScreen::Editing => match entry {
            ConnectionScreen::Edit => input.as_str(),
            _ => entry.display_string(),
        },
        ConnectionScreen::Connect(ConnectStatus::Connected) => match entry {
            ConnectionScreen::Connect(_) => "Connected",
            _ => entry.display_string(),
        },
        ConnectionScreen::Connect(ConnectStatus::Error) => match (entry, error) {
            (ConnectionScreen::Connect(_), Some(e)) => e.as_str(),
            _ => entry.display_string(),
        },
        _ => match entry {
            ConnectionScreen::Edit => if !input.as_str().is_empty() {
                input.as_str()
            } else {
                entry.display_string()
            },
            _ => entry.display_string(),
        },
    }
}

/// Once an address is typed, the Edit entry shows it whatever entry is
/// selected (Edit itself included), except while a Connect entry reports the
/// last attempt; which of those entries is selected does not change the Edit
/// entry's text.
pub proof fn lemma_edit_entry_shows_address(
    screen: ConnectionScreen,
    other: ConnectionScreen,
    input: Seq<char>,
    error: Option<Seq<char>>,
)
    requires
        screen != ConnectionScreen::Connect(ConnectStatus::Connected),
        screen != ConnectionScreen::Connect(ConnectStatus::Error),
        other != ConnectionScreen::Connect(ConnectStatus::Connected),
        other != ConnectionScreen::Connect(ConnectStatus::Error),
        other != ConnectionScreen::Editing,
        screen != ConnectionScreen::Editing,
    ensures
        input.len() > 0 ==> entry_text_of(screen, ConnectionScreen::Edit, input, error) == input,
        entry_text_of(screen, ConnectionScreen::Edit, input, error) == entry_text_of(
            other,
            ConnectionScreen::Edit,
            input,
            error,
        ),
{
}

/// While the address is edited, the Edit entry shows it as it is, even empty.
pub proof fn lemma_editing_shows_address(input: Seq<char>, error: Option<Seq<char>>)
    ensures
        entry_text_of(ConnectionScreen::Editing, ConnectionScreen::Edit, input, error) == input,
{
}

} // verus!
