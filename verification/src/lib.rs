//! Terminal TOTP viewer: account model, code scheduling, and frame layout.

pub mod otp;
pub mod settings;
pub mod tui;

