//! Command bytes of the Matrix Orbital character display and its keypad codes.
use vstd::prelude::*;

verus! {

pub const SCREEN_WIDTH: u8 = 20;
pub const SCREEN_HEIGHT: u8 = 4;

/// Key codes the keypad sends.
pub const TOP_LEFT_BUTTON: u8 = 65;
pub const UP_BUTTON: u8 = 66;
pub const RIGHT_BUTTON: u8 = 67;
pub const LEFT_BUTTON: u8 = 68;
pub const CENTER_BUTTON: u8 = 69;
pub const BOTTOM_LEFT_BUTTON: u8 = 71;
pub const DOWN_BUTTON: u8 = 72;

/// Prefix of every display command.
pub const COMMAND: u8 = 254;
pub const CLEAR_SCREEN: u8 = 88;
pub const SET_CURSOR: u8 = 71;
pub const PLACE_BAR_GRAPH: u8 = 124;
pub const SET_DISPLAY_BRIGHTNESS: u8 = 156;
pub const SET_BUTTON_BRIGHTNESS: u8 = 153;

/// Moves the cursor to `column`, `row` (both counted from 1).
pub fn set_cursor_bytes(column: u8, row: u8) -> (r: Vec<u8>)
    ensures
        r@ == seq![COMMAND, SET_CURSOR, column, row],
{
    let mut bytes = Vec::new();
    bytes.push(COMMAND);
    bytes.push(SET_CURSOR);
    bytes.push(column);
    bytes.push(row);
    bytes
}

/// Clears the screen.
pub fn clear_screen_bytes() -> (r: Vec<u8>)
    ensures
        r@ == seq![COMMAND, CLEAR_SCREEN],
{
    let mut bytes = Vec::new();
    bytes.push(COMMAND);
    bytes.push(CLEAR_SCREEN);
    bytes
}

/// Draws a horizontal bar graph of length `value` from `column`, `row`.
pub fn bar_graph_bytes(column: u8, row: u8, value: u8) -> (r: Vec<u8>)
    ensures
        r@ == seq![COMMAND, PLACE_BAR_GRAPH, column, row, 0u8, value],
{
    let mut bytes = Vec::new();
    bytes.push(COMMAND);
    bytes.push(PLACE_BAR_GRAPH);
    bytes.push(column);
    bytes.push(row);
    bytes.push(0);
    bytes.push(value);
    bytes
}

/// Sets the display and keypad backlight to `level` (0 to 255).
pub fn set_brightness_bytes(level: u8) -> (r: Vec<u8>)
    ensures
        r@ == seq![COMMAND, SET_DISPLAY_BRIGHTNESS, level, COMMAND, SET_BUTTON_BRIGHTNESS, level],
{
    let mut bytes = Vec::new();
    bytes.push(COMMAND);
    bytes.push(SET_DISPLAY_BRIGHTNESS);
    bytes.push(level);
    bytes.push(COMMAND);
    bytes.push(SET_BUTTON_BRIGHTNESS);
    bytes.push(level);
    bytes
}

} // verus!
