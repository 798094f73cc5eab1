pub mod audio_mode;
pub mod error;
pub mod loading_animation;
pub mod media;
pub mod player_state;
pub mod settings;
