pub mod buttons;
pub mod widgets;
pub mod registry;
