//! Screens of the front-panel display: what each one draws, and where a key
//! press or a system message leads.
//!
//! Drawing yields the bytes to send to the display; the thread that owns the
//! serial port sends them.
use vstd::prelude::*;
use vstd::utf8::encode_utf8;
use crate::matrix_orbital::{
    bar_graph_bytes, clear_screen_bytes, set_cursor_bytes, BOTTOM_LEFT_BUTTON, CENTER_BUTTON,
    DOWN_BUTTON, SCREEN_HEIGHT, TOP_LEFT_BUTTON, UP_BUTTON, COMMAND, SET_CURSOR, PLACE_BAR_GRAPH,
};

verus! {

/// Number of entries of the menu.
pub const MENU_LEN: u8 = 7;

/// Appends `b` to `out`.
pub fn append_bytes(out: &mut Vec<u8>, b: &[u8])
    ensures
        final(out)@ == old(out)@ + b@,
{
    let ghost start = out@;
    let mut i: usize = 0;
    while i < b.len()
        invariant
            i <= b@.len(),
            out@ == start + b@.subrange(0, i as int),
        decreases b@.len() - i,
    {
        out.push(b[i]);
        assert(b@.subrange(0, i + 1) =~= b@.subrange(0, i as int).push(b@[i as int]));
        i = i + 1;
    }
    assert(b@.subrange(0, b@.len() as int) =~= b@);
}

/// Appends the UTF-8 encoding of `s` to `out`.
pub fn append_str(out: &mut Vec<u8>, s: &str)
    ensures
        final(out)@ == old(out)@ + encode_utf8(s@),
{
    append_bytes(out, s.as_bytes());
}

/// `Y` or `N`.
pub open spec fn yes_no(b: bool) -> u8 {
    if b {
        89u8
    } else {
        78u8
    }
}

/// Text of menu entry `i`.
pub open spec fn menu_option(i: int) -> Seq<char> {
    if i == 0 {
        "IP Addresses"@
    } else if i == 1 {
        "Reconfigure WiFi"@
    } else if i == 2 {
        "Reboot"@
    } else if i == 3 {
        "Shut Down"@
    } else {
        "Reserved"@
    }
}

fn menu_option_text(i: u8) -> (r: &'static str)
    ensures
        r@ == menu_option(i as int),
{
    if i == 0 {
        "IP Addresses"
    } else if i == 1 {
        "Reconfigure WiFi"
    } else if i == 2 {
        "Reboot"
    } else if i == 3 {
        "Shut Down"
    } else {
        "Reserved"
    }
}

/// One line of the menu: a marker (`* ` on the selected entry), the entry's
/// text, and a line break unless it is the last line shown.
pub open spec fn menu_line(current: u8, i: int, end: int) -> Seq<u8> {
    (if current as int == i {
        seq![42u8, 32u8]
    } else {
        seq![32u8, 32u8]
    }) + encode_utf8(menu_option(i)) + (if i + 1 < end {
        seq![13u8, 10u8]
    } else {
        Seq::<u8>::empty()
    })
}

/// Lines `start` up to (not including) `n` of a menu showing lines up to `end`.
pub open spec fn menu_lines(current: u8, start: int, n: int, end: int) -> Seq<u8>
    decreases n - start,
{
    if n <= start {
        Seq::<u8>::empty()
    } else {
        menu_lines(current, start, n - 1, end) + menu_line(current, n - 1, end)
    }
}

/// One past the last entry shown when the view starts at `start_idx`.
pub open spec fn menu_end(start_idx: u8) -> int {
    if start_idx as int + SCREEN_HEIGHT as int <= MENU_LEN as int {
        start_idx as int + SCREEN_HEIGHT as int
    } else {
        MENU_LEN as int
    }
}

/// The menu, scrolled so that it shows at most `SCREEN_HEIGHT` entries from
/// `start_idx` on, with the entry `current` selected.
#[derive(Clone, Copy, Debug, PartialEq, Eq, Structural)]
pub struct MenuScreen {
    pub current: u8,
    pub start_idx: u8,
}

/// The screen listing the machine's IPv4 addresses.
#[derive(Clone, Copy, Debug, PartialEq, Eq, Structural)]
pub struct IPScreen {}

/// A screen showing a single message.
#[derive(Clone, Debug, PartialEq, Eq)]
pub struct StatusScreen {
    pub message: String,
}

/// Progress of an upload under way, in percent.
#[derive(Clone, Copy, Debug, PartialEq, Eq, Structural)]
pub struct UploadScreen {
    pub progress: u8,
}

/// The home screen: network status and the level of each channel.
#[derive(Clone, Copy, Debug, PartialEq, Eq, Structural)]
pub struct HomeScreen {
    pub wifi_ready: bool,
    pub cell_ready: bool,
    pub left_volume: u8,
    pub right_volume: u8,
}

/// Whatever the display currently shows.
#[derive(Clone, Debug, PartialEq, Eq)]
pub enum Screen {
    Home(HomeScreen),
    Menu(MenuScreen),
    Ip(IPScreen),
    Status(StatusScreen),
    Upload(UploadScreen),
}

/// What the rest of the system tells the display.
#[derive(Clone, Copy, Debug, PartialEq, Eq, Structural)]
pub enum DisplayMessage {
    /// New channel levels, already scaled to bar lengths.
    VolumeChange { left: u8, right: u8 },
    NetworkStatusChange { connected: bool },
    CellularStatusChange { connected: bool },
    UploadStateChange { idle: bool, progress: u8 },
    RecordingStarted,
    Other,
}

impl MenuScreen {
    /// The menu at its top, first entry selected.
    pub fn new() -> (r: MenuScreen)
        ensures
            r == (MenuScreen { current: 0, start_idx: 0 }),
    {
        MenuScreen { current: 0, start_idx: 0 }
    }

    /// The visible entries, one per line.
    pub fn draw_screen(&self) -> (r: Vec<u8>)
        ensures
            r@ == menu_lines(self.current, self.start_idx as int, menu_end(self.start_idx), menu_end(self.start_idx)),
    {
        let end: u8 = if self.start_idx <= MENU_LEN - SCREEN_HEIGHT {
            self.start_idx + SCREEN_HEIGHT
        } else {
            MENU_LEN
        };
        let mut bytes: Vec<u8> = Vec::new();
        let mut i: u8 = self.start_idx;
        if i < end {
            while i < end
                invariant
                    self.start_idx <= i <= end,
                    end as int == menu_end(self.start_idx),
                    bytes@ == menu_lines(self.current, self.start_idx as int, i as int, end as int),
                decreases end - i,
            {
                if self.current == i {
                    bytes.push(42);
                    bytes.push(32);
                } else {
                    bytes.push(32);
                    bytes.push(32);
                }
                let text = menu_option_text(i);
                append_bytes(&mut bytes, text.as_bytes());
                if i + 1 < end {
                    bytes.push(13);
                    bytes.push(10);
                }
                assert(bytes@ =~= menu_lines(self.current, self.start_idx as int, i + 1, end as int));
                i = i + 1;
            }
        }
        bytes
    }

    /// Clears the display and draws the menu.
    pub fn redraw_screen(&self) -> (r: Vec<u8>)
        ensures
            r@ == seq![COMMAND, crate::matrix_orbital::CLEAR_SCREEN] + menu_lines(
                self.current,
                self.start_idx as int,
                menu_end(self.start_idx),
                menu_end(self.start_idx),
            ),
    {
        let mut bytes = clear_screen_bytes();
        let body = self.draw_screen();
        append_bytes(&mut bytes, body.as_slice());
        bytes
    }
}

/// Where a key press on the menu leads.
pub open spec fn menu_button(m: MenuScreen, button: u8, wifi_on: bool, cell_on: bool) -> Option<Screen> {
    if button == UP_BUTTON {
        let next: u8 = if m.current > 0 {
            (m.current - 1) as u8
        } else {
            0
        };
        Some(Screen::Menu(MenuScreen { current: next, start_idx: if next < m.start_idx { next } else { m.start_idx } }))
    } else if button == DOWN_BUTTON {
        let next: u8 = if m.current < MENU_LEN - 1 {
            (m.current + 1) as u8
        } else {
            (MENU_LEN - 1) as u8
        };
        Some(Screen::Menu(MenuScreen {
            current: next,
            start_idx: if m.start_idx as int + SCREEN_HEIGHT as int <= next as int {
                (m.start_idx + 1) as u8
            } else {
                m.start_idx
            },
        }))
    } else if button == CENTER_BUTTON {
        if m.current == 0 {
            Some(Screen::Ip(IPScreen {}))
        } else {
            Some(Screen::Home(home_of(wifi_on, cell_on)))
        }
    } else if button == TOP_LEFT_BUTTON || button == BOTTOM_LEFT_BUTTON {
        Some(Screen::Home(home_of(wifi_on, cell_on)))
    } else {
        None
    }
}

/// The home screen as first shown: network status, both bars empty.
pub open spec fn home_of(wifi_on: bool, cell_on: bool) -> HomeScreen {
    HomeScreen { wifi_ready: wifi_on, cell_ready: cell_on, left_volume: 0, right_volume: 0 }
}

impl MenuScreen {
    /// Moves the selection up or down (scrolling to keep it in view), opens
    /// the selected entry, or goes home. Other keys change nothing.
    pub fn handle_button(&self, button: u8, wifi_on: bool, cell_on: bool) -> (r: Option<Screen>)
        ensures
            r == menu_button(*self, button, wifi_on, cell_on),
    {
        if button == UP_BUTTON {
            let next: u8 = if self.current > 0 {
                self.current - 1
            } else {
                0
            };
            let start_idx = if next < self.start_idx {
                next
            } else {
                self.start_idx
            };
            Some(Screen::Menu(MenuScreen { current: next, start_idx }))
        } else if button == DOWN_BUTTON {
            let next: u8 = if self.current < MENU_LEN - 1 {
                self.current + 1
            } else {
                MENU_LEN - 1
            };
            let start_idx = if self.start_idx as u16 + SCREEN_HEIGHT as u16 <= next as u16 {
                self.start_idx + 1
            } else {
                self.start_idx
            };
            Some(Screen::Menu(MenuScreen { current: next, start_idx }))
        } else if button == CENTER_BUTTON {
            if self.current == 0 {
                Some(Screen::Ip(IPScreen::new()))
            } else {
                Some(Screen::Home(HomeScreen::new(wifi_on, cell_on)))
            }
        } else if button == TOP_LEFT_BUTTON || button == BOTTOM_LEFT_BUTTON {
            Some(Screen::Home(HomeScreen::new(wifi_on, cell_on)))
        } else {
            None
        }
    }

    /// Whether this key press asks to reconfigure Wi-Fi (open the
    /// configuration hotspot).
    pub fn wants_hotspot(&self, button: u8) -> (r: bool)
        ensures
            r == (button == CENTER_BUTTON && self.current == 1),
    {
        button == CENTER_BUTTON && self.current == 1
    }
}

/// Where a key press leads from the home screen: the top-left key opens the menu.
pub open spec fn home_button(button: u8) -> Option<Screen> {
    if button == TOP_LEFT_BUTTON {
        Some(Screen::Menu(MenuScreen { current: 0, start_idx: 0 }))
    } else {
        None
    }
}

/// Where a key press leads from the address screen: back to the menu.
pub open spec fn ip_button(button: u8) -> Option<Screen> {
    if button == TOP_LEFT_BUTTON || button == BOTTOM_LEFT_BUTTON {
        Some(Screen::Menu(MenuScreen { current: 0, start_idx: 0 }))
    } else {
        None
    }
}

/// Where a key press leads from the upload screen.
pub open spec fn upload_button(u: UploadScreen, button: u8) -> Option<Screen> {
    if button == UP_BUTTON {
        Some(Screen::Upload(UploadScreen {
            progress: if u.progress <= 245 { (u.progress + 10) as u8 } else { 255u8 },
        }))
    } else if button == DOWN_BUTTON {
        Some(Screen::Upload(UploadScreen {
            progress: if u.progress >= 10 { (u.progress - 10) as u8 } else { 0u8 },
        }))
    } else {
        None
    }
}

/// What the home screen draws from scratch.
pub open spec fn home_bytes(h: HomeScreen) -> Seq<u8> {
    encode_utf8("88.7 RIDGELINE RADIO"@) + encode_utf8("Wi-Fi? "@) + seq![yes_no(h.wifi_ready)]
        + encode_utf8(" Cell "@) + seq![yes_no(h.cell_ready)] + seq![COMMAND, SET_CURSOR, 1u8, 3u8]
        + encode_utf8("L "@) + seq![COMMAND, SET_CURSOR, 1u8, 4u8] + encode_utf8("R "@)
        + seq![COMMAND, PLACE_BAR_GRAPH, 3u8, 3u8, 0u8, h.left_volume]
        + seq![COMMAND, PLACE_BAR_GRAPH, 3u8, 4u8, 0u8, h.right_volume]
}

/// What the home screen sends to bring a drawn screen up to date.
pub open spec fn home_update_bytes(h: HomeScreen) -> Seq<u8> {
    seq![COMMAND, PLACE_BAR_GRAPH, 3u8, 3u8, 0u8, h.left_volume]
        + seq![COMMAND, PLACE_BAR_GRAPH, 3u8, 4u8, 0u8, h.right_volume]
        + seq![COMMAND, SET_CURSOR, 8u8, 2u8] + seq![yes_no(h.wifi_ready)]
        + seq![COMMAND, SET_CURSOR, 15u8, 2u8] + seq![yes_no(h.cell_ready)]
}

/// Where a message leads from the home screen.
pub open spec fn home_message(h: HomeScreen, message: DisplayMessage) -> Option<Screen> {
    match message {
        DisplayMessage::VolumeChange { left, right } => Some(
            Screen::Home(HomeScreen { left_volume: left, right_volume: right, ..h }),
        ),
        DisplayMessage::NetworkStatusChange { connected } => Some(
            Screen::Home(HomeScreen { wifi_ready: connected, ..h }),
        ),
        DisplayMessage::CellularStatusChange { connected } => Some(
            Screen::Home(HomeScreen { cell_ready: connected, ..h }),
        ),
        DisplayMessage::UploadStateChange { progress, .. } => Some(
            Screen::Upload(UploadScreen { progress }),
        ),
        _ => None,
    }
}

fn yes_no_byte(b: bool) -> (r: u8)
    ensures
        r == yes_no(b),
{
    if b {
        89
    } else {
        78
    }
}

impl HomeScreen {
    /// The home screen for the given network status, both bars empty.
    pub fn new(wifi_on: bool, cell_on: bool) -> (r: HomeScreen)
        ensures
            r == home_of(wifi_on, cell_on),
    {
        HomeScreen { wifi_ready: wifi_on, cell_ready: cell_on, left_volume: 0, right_volume: 0 }
    }

    /// Station name, network status, and a level bar per channel.
    pub fn draw_screen(&self) -> (r: Vec<u8>)
        ensures
            r@ == home_bytes(*self),
    {
        let mut bytes: Vec<u8> = Vec::new();
        append_str(&mut bytes, "88.7 RIDGELINE RADIO");
        append_str(&mut bytes, "Wi-Fi? ");
        bytes.push(yes_no_byte(self.wifi_ready));
        append_str(&mut bytes, " Cell ");
        bytes.push(yes_no_byte(self.cell_ready));
        append_bytes(&mut bytes, set_cursor_bytes(1, 3).as_slice());
        append_str(&mut bytes, "L ");
        append_bytes(&mut bytes, set_cursor_bytes(1, 4).as_slice());
        append_str(&mut bytes, "R ");
        append_bytes(&mut bytes, bar_graph_bytes(3, 3, self.left_volume).as_slice());
        append_bytes(&mut bytes, bar_graph_bytes(3, 4, self.right_volume).as_slice());
        assert(bytes@ =~= home_bytes(*self));
        bytes
    }

    /// Updates the level bars and the network status in place.
    pub fn redraw_screen(&self) -> (r: Vec<u8>)
        ensures
            r@ == home_update_bytes(*self),
    {
        let mut bytes = bar_graph_bytes(3, 3, self.left_volume);
        append_bytes(&mut bytes, bar_graph_bytes(3, 4, self.right_volume).as_slice());
        append_bytes(&mut bytes, set_cursor_bytes(8, 2).as_slice());
        bytes.push(yes_no_byte(self.wifi_ready));
        append_bytes(&mut bytes, set_cursor_bytes(15, 2).as_slice());
        bytes.push(yes_no_byte(self.cell_ready));
        assert(bytes@ =~= home_update_bytes(*self));
        bytes
    }

    /// The top-left key opens the menu; other keys do nothing.
    pub fn handle_button(&self, button: u8) -> (r: Option<Screen>)
        ensures
            r == home_button(button),
    {
        if button == TOP_LEFT_BUTTON {
            Some(Screen::Menu(MenuScreen::new()))
        } else {
            None
        }
    }

    /// Follows level and network changes; an upload in progress takes over
    /// the screen.
    pub fn handle_message(&self, message: DisplayMessage) -> (r: Option<Screen>)
        ensures
            r == home_message(*self, message),
    {
        match message {
            DisplayMessage::VolumeChange { left, right } => Some(
                Screen::Home(HomeScreen { left_volume: left, right_volume: right, ..*self }),
            ),
            DisplayMessage::NetworkStatusChange { connected } => Some(
                Screen::Home(HomeScreen { wifi_ready: connected, ..*self }),
            ),
            DisplayMessage::CellularStatusChange { connected } => Some(
                Screen::Home(HomeScreen { cell_ready: connected, ..*self }),
            ),
            DisplayMessage::UploadStateChange { progress, .. } => Some(
                Screen::Upload(UploadScreen { progress }),
            ),
            _ => None,
        }
    }
}

/// What the address screen draws: each address on a line of its own, or,
/// when the addresses could not be listed, a notice and the reason.
pub open spec fn address_lines(addresses: Seq<Seq<char>>, n: int) -> Seq<u8>
    decreases n,
{
    if n <= 0 {
        Seq::<u8>::empty()
    } else {
        address_lines(addresses, n - 1) + encode_utf8(addresses[n - 1]) + seq![13u8, 10u8]
    }
}

impl IPScreen {
    pub fn new() -> (r: IPScreen)
        ensures
            r == (IPScreen {}),
    {
        IPScreen {}
    }

    /// Lists the IPv4 addresses, or explains why there are none.
    pub fn draw_screen(&self, addresses: &Result<Vec<String>, String>) -> (r: Vec<u8>)
        ensures
            match addresses {
                Ok(a) => r@ == address_lines(a@.map_values(|s: String| s@), a@.len() as int),
                Err(e) => r@ == encode_utf8("Could not get IPs\r\n"@) + encode_utf8(e@),
            },
    {
        let mut bytes: Vec<u8> = Vec::new();
        match addresses {
            Ok(a) => {
                let ghost lines = a@.map_values(|s: String| s@);
                let mut i: usize = 0;
                while i < a.len()
                    invariant
                        i <= a@.len(),
                        lines == a@.map_values(|s: String| s@),
                        bytes@ == address_lines(lines, i as int),
                    decreases a@.len() - i,
                {
                    append_str(&mut bytes, a[i].as_str());
                    bytes.push(13);
                    bytes.push(10);
                    assert(bytes@ =~= address_lines(lines, i + 1));
                    i = i + 1;
                }
            },
            Err(e) => {
                append_str(&mut bytes, "Could not get IPs\r\n");
                append_str(&mut bytes, e.as_str());
            },
        }
        bytes
    }

    /// Either left-hand key goes back to the menu; other keys do nothing.
    pub fn handle_button(&self, button: u8) -> (r: Option<Screen>)
        ensures
            r == ip_button(button),
    {
        if button == TOP_LEFT_BUTTON || button == BOTTOM_LEFT_BUTTON {
            Some(Screen::Menu(MenuScreen::new()))
        } else {
            None
        }
    }
}

impl StatusScreen {
    pub fn new(message: String) -> (r: StatusScreen)
        ensures
            r.message@ == message@,
    {
        StatusScreen { message }
    }

    pub fn shutting_down() -> (r: StatusScreen)
        ensures
            r.message@ == "Shutting down..."@,
    {
        StatusScreen::new("Shutting down...".to_owned())
    }

    pub fn rebooting() -> (r: StatusScreen)
        ensures
            r.message@ == "Rebooting..."@,
    {
        StatusScreen::new("Rebooting...".to_owned())
    }

    /// The message itself.
    pub fn draw_screen(&self) -> (r: Vec<u8>)
        ensures
            r@ == encode_utf8(self.message@),
    {
        let mut bytes: Vec<u8> = Vec::new();
        append_str(&mut bytes, self.message.as_str());
        bytes
    }

    /// Clears the display and draws the message.
    pub fn redraw_screen(&self) -> (r: Vec<u8>)
        ensures
            r@ == seq![COMMAND, crate::matrix_orbital::CLEAR_SCREEN] + encode_utf8(self.message@),
    {
        let mut bytes = clear_screen_bytes();
        append_str(&mut bytes, self.message.as_str());
        bytes
    }
}

/// What the upload screen draws from scratch.
pub open spec fn upload_bytes() -> Seq<u8> {
    encode_utf8("Uploading"@) + seq![COMMAND, SET_CURSOR, 1u8, 2u8] + encode_utf8("recording..."@)
}

/// Where a message leads from the upload screen.
pub open spec fn upload_message(message: DisplayMessage, wifi_on: bool, cell_on: bool) -> Option<Screen> {
    match message {
        DisplayMessage::UploadStateChange { idle, progress } => if idle {
            Some(Screen::Home(home_of(wifi_on, cell_on)))
        } else {
            Some(Screen::Upload(UploadScreen { progress }))
        },
        DisplayMessage::RecordingStarted => Some(Screen::Home(home_of(wifi_on, cell_on))),
        _ => None,
    }
}

impl UploadScreen {
    /// The caption; the progress bar is drawn by `redraw_screen`.
    pub fn draw_screen(&self) -> (r: Vec<u8>)
        ensures
            r@ == upload_bytes(),
    {
        let mut bytes: Vec<u8> = Vec::new();
        append_str(&mut bytes, "Uploading");
        append_bytes(&mut bytes, set_cursor_bytes(1, 2).as_slice());
        append_str(&mut bytes, "recording...");
        bytes
    }

    /// The progress bar.
    pub fn redraw_screen(&self) -> (r: Vec<u8>)
        ensures
            r@ == seq![COMMAND, PLACE_BAR_GRAPH, 1u8, 3u8, 0u8, self.progress],
    {
        bar_graph_bytes(1, 3, self.progress)
    }

    /// Up and down nudge the bar by ten, staying within 0 to 255.
    pub fn handle_button(&self, button: u8) -> (r: Option<Screen>)
        ensures
            r == upload_button(*self, button),
    {
        if button == UP_BUTTON {
            Some(Screen::Upload(UploadScreen { progress: self.progress.saturating_add(10) }))
        } else if button == DOWN_BUTTON {
            Some(Screen::Upload(UploadScreen { progress: self.progress.saturating_sub(10) }))
        } else {
            None
        }
    }

    /// Follows the upload; its end, or a new recording, goes home.
    pub fn handle_message(&self, message: DisplayMessage, wifi_on: bool, cell_on: bool) -> (r: Option<Screen>)
        ensures
            r == upload_message(message, wifi_on, cell_on),
    {
        match message {
            DisplayMessage::UploadStateChange { idle, progress } => {
                if idle {
                    Some(Screen::Home(HomeScreen::new(wifi_on, cell_on)))
                } else {
                    Some(Screen::Upload(UploadScreen { progress }))
                }
            },
            DisplayMessage::RecordingStarted => Some(Screen::Home(HomeScreen::new(wifi_on, cell_on))),
            _ => None,
        }
    }
}

impl Screen {
    /// The screen that a key press leads to, if it changes screens.
    pub fn handle_button(&self, button: u8, wifi_on: bool, cell_on: bool) -> (r: Option<Screen>)
        ensures
            match self {
                Screen::Home(_) => r == home_button(button),
                Screen::Menu(m) => r == menu_button(*m, button, wifi_on, cell_on),
                Screen::Ip(_) => r == ip_button(button),
                Screen::Status(_) => r is None,
                Screen::Upload(u) => r == upload_button(*u, button),
            },
    {
        match self {
            Screen::Home(h) => h.handle_button(button),
            Screen::Menu(m) => m.handle_button(button, wifi_on, cell_on),
            Screen::Ip(i) => i.handle_button(button),
            Screen::Status(_) => None,
            Screen::Upload(u) => u.handle_button(button),
        }
    }

    /// The screen that a message leads to, if it changes screens.
    pub fn handle_message(&self, message: DisplayMessage, wifi_on: bool, cell_on: bool) -> (r: Option<Screen>)
        ensures
            match self {
                Screen::Home(h) => r == home_message(*h, message),
                Screen::Upload(_) => r == upload_message(message, wifi_on, cell_on),
                _ => r is None,
            },
    {
        match self {
            Screen::Home(h) => h.handle_message(message),
            Screen::Upload(u) => u.handle_message(message, wifi_on, cell_on),
            _ => None,
        }
    }
}

} // verus!
