pub mod action;
pub mod audio;
pub mod error;
pub mod frame;
pub mod palette;
pub mod settings;
