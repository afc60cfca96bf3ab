pub mod text;
pub mod ipc;
pub mod cli;
pub mod camera;
pub mod overlay;
pub mod daemon;
pub mod tray;
pub mod dialog;
pub mod install;
