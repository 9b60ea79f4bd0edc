//! The colours of the application shell and the look of its buttons.

use vstd::prelude::*;

verus! {

/// The accent colour, as the bytes of red, green and blue.
pub const ACCENT: u32 = 0x06_5f_46;

/// The background of the drawer.
pub const DRAWER_BG: u32 = 0x0b_14_12;

/// The background of an item of the drawer.
pub const DRAWER_ITEM_BG: u32 = 0x0f_1f_1a;

/// The text of the item that is shown.
pub const DRAWER_TEXT_ACTIVE: u32 = 0xe6_f4_f1;

/// The text of any other item.
pub const DRAWER_TEXT_INACTIVE: u32 = 0xa5_b3_ad;

/// The text on the accent colour.
pub const TEXT_ON_ACCENT: u32 = 0xe9_f7_f3;

/// What the pointer does to a button.
#[derive(Debug, Clone, Copy, PartialEq, Eq, Structural)]
pub enum ButtonStatus {
    Active,
    Hovered,
    Pressed,
    Disabled,
}

/// The look of a button: its background, as the bytes of red, green and
/// blue, with its opacity in thousandths, and the colour of its text.
#[derive(Debug, Clone, Copy, PartialEq, Eq, Structural)]
pub struct ButtonStyle {
    pub background: u32,
    pub opacity: i32,
    pub text_color: u32,
}

/// The opacity of the background of a button: lighter under the pointer,
/// lighter still while pressed.
pub open spec fn spec_opacity(status: ButtonStatus) -> int {
    match status {
        ButtonStatus::Hovered => 850,
        ButtonStatus::Pressed => 700,
        _ => 1000,
    }
}

pub fn opacity(status: ButtonStatus) -> (value: i32)
    ensures
        value == spec_opacity(status),
{
    match status {
        ButtonStatus::Hovered => 850,
        ButtonStatus::Pressed => 700,
        _ => 1000,
    }
}

/// The look of a button in the accent colour.
pub fn accent_button_style(status: ButtonStatus) -> (style: ButtonStyle)
    ensures
        style.background == ACCENT,
        style.opacity == spec_opacity(status),
        style.text_color == TEXT_ON_ACCENT,
{
    ButtonStyle { background: ACCENT, opacity: opacity(status), text_color: TEXT_ON_ACCENT }
}

/// The look of a button in the colour of the drawer.
pub fn secondary_button_style(status: ButtonStatus) -> (style: ButtonStyle)
    ensures
        style.background == DRAWER_ITEM_BG,
        style.opacity == spec_opacity(status),
        style.text_color == DRAWER_TEXT_ACTIVE,
{
    ButtonStyle {
        background: DRAWER_ITEM_BG,
        opacity: opacity(status),
        text_color: DRAWER_TEXT_ACTIVE,
    }
}

/// The look of a button of the sidebar: in the accent colour if its page
/// is shown, in the colour of the drawer if not.
pub fn sidebar_button_style(selected: bool, status: ButtonStatus) -> (style: ButtonStyle)
    ensures
        style.background == if selected {
            ACCENT
        } else {
            DRAWER_ITEM_BG
        },
        style.opacity == spec_opacity(status),
        style.text_color == if selected {
            DRAWER_TEXT_ACTIVE
        } else {
            DRAWER_TEXT_INACTIVE
        },
{
    ButtonStyle {
        background: if selected {
            ACCENT
        } else {
            DRAWER_ITEM_BG
        },
        opacity: opacity(status),
        text_color: if selected {
            DRAWER_TEXT_ACTIVE
        } else {
            DRAWER_TEXT_INACTIVE
        },
    }
}

/// The width of the sidebar in pixels: narrow while folded.
pub fn sidebar_width(collapsed: bool) -> (width: u16)
    ensures
        width == if collapsed {
            64u16
        } else {
            220u16
        },
{
    if collapsed {
        64
    } else {
        220
    }
}

} // verus!
