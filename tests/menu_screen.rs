use alas::matrix_orbital::{DOWN_BUTTON, UP_BUTTON, CENTER_BUTTON, TOP_LEFT_BUTTON};
use alas::screens::{HomeScreen, IPScreen, MenuScreen, Screen, StatusScreen, UploadScreen, DisplayMessage};

fn menu_of(s: Option<Screen>) -> MenuScreen {
    match s {
        Some(Screen::Menu(m)) => m,
        other => panic!("expected the menu, got {:?}", other),
    }
}

#[test]
fn menu_screen_test_screen_equality() {
    let screen_one = MenuScreen { current: 0, start_idx: 0 };
    let screen_two = MenuScreen { current: 0, start_idx: 0 };
    assert_eq!(screen_one == screen_two, true);

    let screen_three = MenuScreen { current: 3, start_idx: 0 };
    assert_eq!(screen_one == screen_three, false);
}

#[test]
fn test_screen_equality() {
    let screen_one = MenuScreen { current: 1, start_idx: 0 };
    let screen_two = MenuScreen { current: 1, start_idx: 0 };
    assert_eq!(screen_one == screen_two, true);

    let screen_three = MenuScreen { current: 3, start_idx: 0 };
    assert_eq!(screen_one == screen_three, false);
}

#[test]
fn lcd_display_test_screen_equality() {
    let screen_one = MenuScreen { current: 1, start_idx: 0 };
    let screen_two = MenuScreen { current: 1, start_idx: 0 };
    assert_eq!(screen_one == screen_two, true);

    let screen_three = MenuScreen { current: 3, start_idx: 0 };
    assert_eq!(screen_one == screen_three, false);
}

#[test]
fn test_handle_button() {
    let screen_one = MenuScreen { current: 0, start_idx: 0 };

    let m = menu_of(screen_one.handle_button(DOWN_BUTTON, true, false));
    assert_eq!(m.start_idx, 0);
    assert_eq!(m.current, 1);

    let m = menu_of(m.handle_button(DOWN_BUTTON, true, false));
    assert_eq!(m.start_idx, 0);
    assert_eq!(m.current, 2);

    let m = menu_of(m.handle_button(DOWN_BUTTON, true, false));
    assert_eq!(m.start_idx, 0);
    assert_eq!(m.current, 3);

    let m = menu_of(m.handle_button(DOWN_BUTTON, true, false));
    assert_eq!(m.start_idx, 1);
    assert_eq!(m.current, 4);

    let m = menu_of(m.handle_button(DOWN_BUTTON, true, false));
    assert_eq!(m.start_idx, 2);
    assert_eq!(m.current, 5);
}

#[test]
fn test_draw() {
    let screen_one = MenuScreen { current: 0, start_idx: 0 };
    let written_data = screen_one.draw_screen();
    assert_eq!(
        written_data,
        b"* IP Addresses\r\n  Reconfigure WiFi\r\n  Reboot\r\n  Shut Down"
    );
}

#[test]
fn test_draw_after_up() {
    let screen_one = MenuScreen { current: 0, start_idx: 0 };
    let screen_two = menu_of(screen_one.handle_button(UP_BUTTON, true, false));
    let written_data = screen_two.draw_screen();
    assert_eq!(
        written_data,
        b"* IP Addresses\r\n  Reconfigure WiFi\r\n  Reboot\r\n  Shut Down"
    );
}

#[test]
fn menu_scrolls_to_last_entry_and_stops() {
    let mut m = MenuScreen::new();
    for _ in 0..10 {
        m = menu_of(m.handle_button(DOWN_BUTTON, false, false));
    }
    assert_eq!(m, MenuScreen { current: 6, start_idx: 3 });
    assert_eq!(m.draw_screen(), b"  Shut Down\r\n  Reserved\r\n  Reserved\r\n* Reserved".to_vec());
}

#[test]
fn menu_center_opens_addresses_or_goes_home() {
    let first = MenuScreen::new();
    assert_eq!(first.handle_button(CENTER_BUTTON, true, false), Some(Screen::Ip(IPScreen::new())));
    let second = MenuScreen { current: 1, start_idx: 0 };
    assert!(second.wants_hotspot(CENTER_BUTTON));
    assert_eq!(
        second.handle_button(CENTER_BUTTON, true, false),
        Some(Screen::Home(HomeScreen::new(true, false)))
    );
    assert_eq!(first.handle_button(99, true, false), None);
}

#[test]
fn home_screen_follows_messages() {
    let home = HomeScreen::new(false, false);
    let next = home.handle_message(DisplayMessage::VolumeChange { left: 40, right: 80 });
    assert_eq!(
        next,
        Some(Screen::Home(HomeScreen { wifi_ready: false, cell_ready: false, left_volume: 40, right_volume: 80 }))
    );
    let next = home.handle_message(DisplayMessage::NetworkStatusChange { connected: true });
    assert_eq!(next, Some(Screen::Home(HomeScreen::new(true, false))));
    let next = home.handle_message(DisplayMessage::UploadStateChange { idle: false, progress: 30 });
    assert_eq!(next, Some(Screen::Upload(UploadScreen { progress: 30 })));
    assert_eq!(home.handle_button(TOP_LEFT_BUTTON), Some(Screen::Menu(MenuScreen::new())));
}

#[test]
fn home_screen_draws_status_and_bars() {
    let home = HomeScreen { wifi_ready: true, cell_ready: false, left_volume: 7, right_volume: 9 };
    let mut expected = b"88.7 RIDGELINE RADIOWi-Fi? Y Cell N".to_vec();
    expected.extend_from_slice(&[254, 71, 1, 3]);
    expected.extend_from_slice(b"L ");
    expected.extend_from_slice(&[254, 71, 1, 4]);
    expected.extend_from_slice(b"R ");
    expected.extend_from_slice(&[254, 124, 3, 3, 0, 7, 254, 124, 3, 4, 0, 9]);
    assert_eq!(home.draw_screen(), expected);
}

#[test]
fn status_and_upload_screens() {
    assert_eq!(StatusScreen::shutting_down().draw_screen(), b"Shutting down...".to_vec());
    assert_eq!(StatusScreen::rebooting().message, "Rebooting...");
    let up = UploadScreen { progress: 250 };
    assert_eq!(up.handle_button(UP_BUTTON), Some(Screen::Upload(UploadScreen { progress: 255 })));
    assert_eq!(up.redraw_screen(), vec![254, 124, 1, 3, 0, 250]);
    assert_eq!(
        up.handle_message(DisplayMessage::UploadStateChange { idle: true, progress: 0 }, true, true),
        Some(Screen::Home(HomeScreen::new(true, true)))
    );
}

#[test]
fn address_screen_lists_addresses() {
    let ip = IPScreen::new();
    let listed = ip.draw_screen(&Ok(vec!["10.0.0.2".to_string(), "192.168.1.5".to_string()]));
    assert_eq!(listed, b"10.0.0.2\r\n192.168.1.5\r\n".to_vec());
    let failed = ip.draw_screen(&Err("no interfaces".to_string()));
    assert_eq!(failed, b"Could not get IPs\r\nno interfaces".to_vec());
}
