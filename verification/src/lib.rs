pub mod text;
pub mod naming;
pub mod pulse;
pub mod adb;
pub mod stream;
pub mod bridge;
pub mod meter;
pub mod settings;
pub mod logo;
pub mod console;
pub mod tray;
pub mod web;
