use edaw::terminal::app::App;
use edaw::terminal::pages::{ConnectionPage, PageRequest};
use edaw::terminal::screens::{ConnectStatus, ConnectionScreen, Key, MainScreen, Screen};
use edaw::terminal::ui::{entry_colors, entry_text, get_inner_area, is_listed_entry, Area, Color};

#[test]
fn defaults() {
    assert_eq!(Screen::default(), Screen::Main);
    assert_eq!(ConnectionScreen::default(), ConnectionScreen::Edit);
    assert_eq!(MainScreen::default(), MainScreen::Main);
}

#[test]
fn display_strings() {
    assert_eq!(Screen::Main.get_display_string(), "Main");
    assert_eq!(Screen::Connection(None).get_display_string(), "Connection");
    assert_eq!(Screen::Connection(Some(ConnectionScreen::Connect(ConnectStatus::Idle))).get_display_string(), "Connection");
    assert_eq!(Screen::Samples.get_display_string(), "Samples");
    assert_eq!(ConnectionScreen::Edit.display_string(), "Edit");
    assert_eq!(ConnectionScreen::Editing.display_string(), "Editing");
    assert_eq!(ConnectionScreen::Connect(ConnectStatus::Idle).display_string(), "Connect");
    assert_eq!(ConnectionScreen::Connecting.display_string(), "Connecting");
    assert_eq!(ConnectionScreen::Disconnect.display_string(), "Disconnect");
    assert_eq!(ConnectionScreen::Disconnecting.display_string(), "Disconnecting");
}

#[test]
fn main_menu_navigation() {
    let mut s = Screen::Main;
    s.handle_key_press(&Key::Down);
    assert_eq!(s, Screen::Connection(None));
    s.handle_key_press(&Key::Char('j'));
    assert_eq!(s, Screen::Samples);
    s.handle_key_press(&Key::PageDown);
    assert_eq!(s, Screen::Samples);
    s.handle_key_press(&Key::Char('k'));
    assert_eq!(s, Screen::Connection(None));
    s.handle_key_press(&Key::Up);
    assert_eq!(s, Screen::Main);
    s.handle_key_press(&Key::PageUp);
    assert_eq!(s, Screen::Main);
    s.handle_key_press(&Key::Enter);
    assert_eq!(s, Screen::Main);
}

#[test]
fn enter_opens_the_connection_page() {
    let mut s = Screen::Connection(None);
    s.handle_key_press(&Key::Enter);
    assert_eq!(s, Screen::Connection(Some(ConnectionScreen::Edit)));
}

#[test]
fn connection_page_navigation_and_leaving() {
    let mut s = Screen::Connection(Some(ConnectionScreen::Edit));
    s.handle_key_press(&Key::Down);
    assert_eq!(s, Screen::Connection(Some(ConnectionScreen::Connect(ConnectStatus::Idle))));
    s.handle_key_press(&Key::Down);
    assert_eq!(s, Screen::Connection(Some(ConnectionScreen::Disconnect)));
    s.handle_key_press(&Key::Down);
    assert_eq!(s, Screen::Connection(Some(ConnectionScreen::Disconnect)));
    s.handle_key_press(&Key::Enter);
    assert_eq!(s, Screen::Connection(Some(ConnectionScreen::Disconnecting)));
    s.handle_key_press(&Key::Up);
    assert_eq!(s, Screen::Connection(Some(ConnectionScreen::Disconnecting)));
    s.handle_key_press(&Key::Enter);
    assert_eq!(s, Screen::Connection(Some(ConnectionScreen::Disconnect)));
    s.handle_key_press(&Key::Char('q'));
    assert_eq!(s, Screen::Connection(None));
    let mut s = Screen::Connection(Some(ConnectionScreen::Editing));
    s.handle_key_press(&Key::Esc);
    assert_eq!(s, Screen::Connection(None));
}

#[test]
fn enter_twice_is_back_where_it_was() {
    for c in [
        ConnectionScreen::Edit,
        ConnectionScreen::Editing,
        ConnectionScreen::Connect(ConnectStatus::Idle),
        ConnectionScreen::Connecting,
        ConnectionScreen::Disconnect,
        ConnectionScreen::Disconnecting,
    ] {
        let mut d = c;
        d.handle_enter_key();
        assert_ne!(d, c);
        d.handle_enter_key();
        assert_eq!(d, c);
    }
}

#[test]
fn editing_the_address() {
    let mut page = ConnectionPage::new();
    let mut screen = ConnectionScreen::Editing;
    for c in "127.0.0.1:9000".chars() {
        assert_eq!(page.handle_current_screen(&Key::Char(c), &mut screen), PageRequest::Nothing);
    }
    assert_eq!(page.input_string(), "127.0.0.1:9000");
    page.handle_current_screen(&Key::Backspace, &mut screen);
    assert_eq!(page.input_string(), "127.0.0.1:900");
    page.handle_current_screen(&Key::Up, &mut screen);
    assert_eq!(page.input_string(), "127.0.0.1:900");
    assert_eq!(screen, ConnectionScreen::Editing);
    let mut empty = ConnectionPage::new();
    empty.handle_current_screen(&Key::Backspace, &mut screen);
    assert_eq!(empty.input_string(), "");
}

#[test]
fn connecting_asks_for_a_connection_and_takes_the_outcome() {
    let mut page = ConnectionPage::new();
    let mut screen = ConnectionScreen::Connecting;
    assert_eq!(page.handle_current_screen(&Key::Enter, &mut screen), PageRequest::Connect);
    page.finish_connecting(Err(String::from("connection refused")), &mut screen);
    assert_eq!(screen, ConnectionScreen::Connect(ConnectStatus::Error));
    assert_eq!(page.error_string().map(|s| s.as_str()), Some("connection refused"));
    assert!(!page.is_connection_active());
    page.clear_error_string();
    assert!(page.error_string().is_none());
    let mut screen = ConnectionScreen::Connecting;
    page.handle_current_screen(&Key::Enter, &mut screen);
    page.finish_connecting(Ok(()), &mut screen);
    assert!(page.is_connection_active());
    assert_eq!(screen, ConnectionScreen::Connect(ConnectStatus::Connected));
    assert!(page.error_string().is_none());
}

#[test]
fn connecting_twice_is_refused() {
    let mut page = ConnectionPage::new();
    let mut screen = ConnectionScreen::Connecting;
    page.handle_current_screen(&Key::Enter, &mut screen);
    page.finish_connecting(Ok(()), &mut screen);
    let mut screen = ConnectionScreen::Connecting;
    assert_eq!(page.handle_current_screen(&Key::Enter, &mut screen), PageRequest::Nothing);
    assert_eq!(screen, ConnectionScreen::Connect(ConnectStatus::Error));
    assert_eq!(page.error_string().map(|s| s.as_str()), Some("already exists"));
}

#[test]
fn disconnecting_always_ends_with_an_error_text() {
    let mut page = ConnectionPage::new();
    let mut screen = ConnectionScreen::Disconnecting;
    assert_eq!(page.handle_current_screen(&Key::Enter, &mut screen), PageRequest::Nothing);
    assert_eq!(screen, ConnectionScreen::Disconnect);
    assert_eq!(page.error_string().map(|s| s.as_str()), Some("no connection"));

    let mut screen = ConnectionScreen::Connecting;
    page.handle_current_screen(&Key::Enter, &mut screen);
    page.finish_connecting(Ok(()), &mut screen);
    let mut screen = ConnectionScreen::Disconnecting;
    assert_eq!(page.handle_current_screen(&Key::Enter, &mut screen), PageRequest::Shutdown);
    page.finish_disconnecting(Ok(()), &mut screen);
    assert!(!page.is_connection_active());
    assert_eq!(screen, ConnectionScreen::Disconnect);
    assert_eq!(page.error_string().map(|s| s.as_str()), Some("no connection"));
}

#[test]
fn app_walks_to_the_connection_page_and_connects() {
    let mut app = App::new();
    assert_eq!(*app.current_screen(), Screen::Main);
    assert_eq!(app.handle_key_event(Key::Down), PageRequest::Nothing);
    assert_eq!(app.handle_key_event(Key::Enter), PageRequest::Nothing);
    assert_eq!(*app.current_screen(), Screen::Connection(Some(ConnectionScreen::Edit)));
    app.handle_key_event(Key::Enter);
    assert_eq!(*app.current_screen(), Screen::Connection(Some(ConnectionScreen::Editing)));
    app.handle_key_event(Key::Char('a'));
    assert_eq!(app.connection_page().input_string(), "a");
    app.handle_key_event(Key::Enter);
    app.handle_key_event(Key::Down);
    assert_eq!(app.handle_key_event(Key::Enter), PageRequest::Connect);
    assert_eq!(*app.current_screen(), Screen::Connection(Some(ConnectionScreen::Connecting)));
    app.finish_request(PageRequest::Connect, Ok(()));
    assert_eq!(*app.current_screen(), Screen::Connection(Some(ConnectionScreen::Connect(ConnectStatus::Connected))));
    assert!(app.connection_page().is_connection_active());
    app.handle_key_event(Key::Esc);
    assert_eq!(*app.current_screen(), Screen::Connection(None));
}

#[test]
fn inner_area() {
    let a = get_inner_area(Area { x: 0, y: 0, width: 80, height: 24 });
    assert_eq!(a, Area { x: 3, y: 3, width: 74, height: 18 });
}

#[test]
fn listed_entries() {
    assert!(is_listed_entry(ConnectionScreen::Edit));
    assert!(is_listed_entry(ConnectionScreen::Connect(ConnectStatus::Idle)));
    assert!(is_listed_entry(ConnectionScreen::Disconnect));
    assert!(!is_listed_entry(ConnectionScreen::Editing));
    assert!(!is_listed_entry(ConnectionScreen::Connecting));
    assert!(!is_listed_entry(ConnectionScreen::Disconnecting));
}

#[test]
fn colors_of_entries() {
    assert_eq!(entry_colors(ConnectionScreen::Edit, ConnectionScreen::Edit), (Color::LightGreen, Color::Black));
    assert_eq!(entry_colors(ConnectionScreen::Editing, ConnectionScreen::Edit), (Color::LightBlue, Color::Black));
    assert_eq!(entry_colors(ConnectionScreen::Connect(ConnectStatus::Idle), ConnectionScreen::Edit), (Color::Black, Color::White));
    assert_eq!(entry_colors(ConnectionScreen::Connect(ConnectStatus::Idle), ConnectionScreen::Connect(ConnectStatus::Idle)), (Color::LightGreen, Color::Black));
    assert_eq!(entry_colors(ConnectionScreen::Connecting, ConnectionScreen::Connect(ConnectStatus::Idle)), (Color::Black, Color::White));
    assert_eq!(entry_colors(ConnectionScreen::Edit, ConnectionScreen::Disconnect), (Color::Black, Color::White));
}

#[test]
fn text_of_entries() {
    let empty = String::new();
    let typed = String::from("host:1");
    assert_eq!(entry_text(ConnectionScreen::Edit, ConnectionScreen::Edit, &empty, None), "Edit");
    assert_eq!(entry_text(ConnectionScreen::Editing, ConnectionScreen::Edit, &empty, None), "");
    assert_eq!(entry_text(ConnectionScreen::Connect(ConnectStatus::Idle), ConnectionScreen::Edit, &typed, None), "host:1");
    assert_eq!(entry_text(ConnectionScreen::Editing, ConnectionScreen::Connect(ConnectStatus::Idle), &typed, None), "Connect");
    assert_eq!(entry_text(ConnectionScreen::Disconnect, ConnectionScreen::Disconnect, &empty, None), "Disconnect");
}

#[test]
fn connect_entry_reports_the_attempt() {
    let typed = String::from("host:1");
    let err = String::from("connection refused");
    let connected = ConnectionScreen::Connect(ConnectStatus::Connected);
    let failed = ConnectionScreen::Connect(ConnectStatus::Error);
    let entry = ConnectionScreen::Connect(ConnectStatus::Idle);
    assert_eq!(entry_text(connected, entry, &typed, None), "Connected");
    assert_eq!(entry_text(connected, ConnectionScreen::Edit, &typed, None), "Edit");
    assert_eq!(entry_text(failed, entry, &typed, Some(&err)), "connection refused");
    assert_eq!(entry_text(failed, entry, &typed, None), "Connect");
    assert_eq!(entry_text(failed, ConnectionScreen::Disconnect, &typed, Some(&err)), "Disconnect");
    assert_eq!(entry_text(ConnectionScreen::Connect(ConnectStatus::Idle), entry, &typed, Some(&err)), "Connect");
}
