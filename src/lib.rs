//! The interaction core of a terminal menu launcher: the menu model and its
//! display order, navigation and hit-testing, the item, category and settings
//! forms, and theme resolution.
pub mod text;
pub mod hex;
pub mod theme;
pub mod menu;
pub mod keys;
pub mod item_form;
pub mod category_form;
pub mod settings_form;
pub mod layout;
pub mod shortcuts;
pub mod controller;
pub mod events;
pub mod config;
