//! Immediate-mode GUI state: keyboard and mouse input, element state, layout and widgets.

pub mod keys;
pub mod mouse;
pub mod state;
pub mod theme;
pub mod layout;
pub mod widgets;
pub mod element;
pub mod selection;
pub mod scroll;
pub mod select;
pub mod field;
pub mod collapse;
pub mod tooltip;
pub mod tabs;
pub mod text;
pub mod drag;
