use vstd::prelude::*;

use crate::terminal::pages::{
    page_error_after, page_input_after, page_request, page_screen_after, ConnectionPage,
    PageRequest,
};
use crate::terminal::screens::{screen_after_key, ConnectStatus, ConnectionScreen, Key, Screen};

verus! {

/// The screen after a key press, once the connection page has acted on it.
pub open spec fn app_screen_after(s: Screen, code: Key, connected: bool) -> Screen {
    match screen_after_key(s, code) {
        Screen::Connection(Some(c)) => Screen::Connection(Some(page_screen_after(c, connected))),
        other => other,
    }
}

/// The socket work a key press asks for.
pub open spec fn app_request_after(s: Screen, code: Key, connected: bool) -> PageRequest {
    match screen_after_key(s, code) {
        Screen::Connection(Some(c)) => page_request(c, connected),
        _ => PageRequest::Nothing,
    }
}

/// The terminal's state: where the user is and the connection page.
pub struct App {
    current_screen: Screen,
    connection_page: ConnectionPage,
}

impl App {
    pub closed spec fn screen(&self) -> Screen {
        self.current_screen
    }

    pub closed spec fn page(&self) -> ConnectionPage {
        self.connection_page
    }

    /// On the main menu, with a fresh connection page.
    pub fn new() -> (res: App)
        ensures
            res.screen() == Screen::Main,
            !res.page().connected(),
            res.page().input() == Seq::<char>::empty(),
            res.page().error() is None,
    {
        App { current_screen: Screen::Main, connection_page: ConnectionPage::new() }
    }

    pub fn current_screen(&self) -> (res: &Screen)
        ensures
            *res == self.screen(),
    {
        &self.current_screen
    }

    pub fn connection_page(&self) -> (res: &ConnectionPage)
        ensures
            *res == self.page(),
    {
        &self.connection_page
    }

    /// Moves the screen with the key and, inside the connection page, lets the
    /// page act on its entry; returns the socket work the page asks for.
    pub fn handle_key_event(&mut self, code: Key) -> (res: PageRequest)
        ensures
            final(self).screen() == app_screen_after(old(self).screen(), code, old(self).page().connected()),
            res == app_request_after(old(self).screen(), code, old(self).page().connected()),
            final(self).page().connected() == old(self).page().connected(),
            screen_after_key(old(self).screen(), code) matches Screen::Connection(Some(c)) ==> {
                &&& final(self).page().input() == page_input_after(c, old(self).page().input(), code)
                &&& final(self).page().error() == page_error_after(
                    c,
                    old(self).page().connected(),
                    old(self).page().error(),
                )
            },
            !(screen_after_key(old(self).screen(), code) matches Screen::Connection(Some(_))) ==> {
                &&& final(self).page().input() == old(self).page().input()
                &&& final(self).page().error() == old(self).page().error()
            },
    {
        self.current_screen.handle_key_press(&code);
        match self.current_screen {
            Screen::Connection(Some(c)) => {
                let mut entry = c;
                let request = self.connection_page.handle_current_screen(&code, &mut entry);
                self.current_screen = Screen::Connection(Some(entry));
                request
            },
            _ => PageRequest::Nothing,
        }
    }

    /// Hands the outcome of the socket work asked for back to the page, when
    /// the terminal is still on one of the page's entries.
    pub fn finish_request(&mut self, request: PageRequest, outcome: Result<(), String>)
        ensures
            match (old(self).screen(), request) {
                (Screen::Connection(Some(_)), PageRequest::Connect) => {
                    &&& final(self).page().input() == old(self).page().input()
                    &&& outcome is Ok ==> final(self).screen() == Screen::Connection(
                        Some(ConnectionScreen::Connect(ConnectStatus::Connected)),
                    )
                    &&& outcome is Err ==> final(self).screen() == Screen::Connection(
                        Some(ConnectionScreen::Connect(ConnectStatus::Error)),
                    )
                    &&& outcome is Ok ==> final(self).page().connected() && final(self).page().error()
                        == old(self).page().error()
                    &&& outcome matches Err(e) ==> final(self).page().connected() == old(
                        self,
                    ).page().connected() && final(self).page().error() == Some(e@)
                },
                (Screen::Connection(Some(_)), PageRequest::Shutdown) => {
                    &&& final(self).screen() == Screen::Connection(
                        Some(ConnectionScreen::Disconnect),
                    )
                    &&& final(self).page().input() == old(self).page().input()
                    &&& !final(self).page().connected()
                    &&& outcome is Ok ==> final(self).page().error() == Some(
                        crate::terminal::pages::no_connection_message(),
                    )
                    &&& outcome matches Err(e) ==> final(self).page().error() == Some(e@)
                },
                _ => final(self).screen() == old(self).screen() && final(self).page() == old(
                    self,
                ).page(),
            },
    {
        match (self.current_screen, request) {
            (Screen::Connection(Some(c)), PageRequest::Connect) => {
                let mut entry = c;
                self.connection_page.finish_connecting(outcome, &mut entry);
                self.current_screen = Screen::Connection(Some(entry));
            },
            (Screen::Connection(Some(c)), PageRequest::Shutdown) => {
                let mut entry = c;
                self.connection_page.finish_disconnecting(outcome, &mut entry);
                self.current_screen = Screen::Connection(Some(entry));
            },
            _ => {},
        }
    }
}

} // verus!
