//! The plain data and text logic behind the user interface.

pub mod big_numbers;
pub mod button;
pub mod clickable_list;
pub mod cluster_view;
pub mod effects;
pub mod learning_screen;
pub mod popup;
pub mod splash_screen;
pub mod tamagotchi;
pub mod ui_action;
pub mod ui_screen;
pub mod widgets;
