//! An in-application developer menu: a vertical list of action items and
//! integer sliders, navigated with the arrow keys and drawn as text lines.
//!
//! The menu is a state machine. It takes plain input events and answers with
//! the effect that the embedding application performs on its own settings
//! (run an action, store a new slider value), and with the text lines to draw.

mod event;
mod menu;
mod menu_item;

pub use event::{Key, MenuEvent};
pub use menu::{Menu, MenuEffect};
pub use menu_item::{
    ActionMenuItem, ItemEffect, MenuItem, SliderMenuItem, SliderState, TextColor, TextDraw,
};

