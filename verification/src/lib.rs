pub mod bigfile;
pub mod chart;
pub mod command;
pub mod cors;
pub mod crypt_message;
pub mod error;
pub mod merger_site;
pub mod multiuser;
pub mod mute;
pub mod newsfeed;
pub mod optional_manager;
pub mod responses;
pub mod ui_server;
pub mod wrapper;

pub use error::ZeroFrameError;
pub use wrapper::{NotificationType, PromptType};
