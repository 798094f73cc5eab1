pub mod catalog;
pub mod i18n;
pub mod notification;
pub mod state;
pub mod theme;
pub mod status_bar;
pub mod format;
