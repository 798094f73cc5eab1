//! Verified core of rgytui, a terminal YouTube music player: the playlist
//! model, the interface state machine that reacts to keys, mouse clicks and
//! background events, translations, theming helpers and the update helpers.
pub mod application;
pub mod domain;
pub mod events;
pub mod interface;
pub mod keys;
pub mod session;
pub mod text;
pub mod update;
pub mod shared;
pub mod audio;
pub mod search;
pub mod ytdlp;
pub mod uninstall;
pub mod logging;
pub mod path_name;
pub mod cleanup;
