//! Verified core of a terminal wizard that prepares a Paper Minecraft server:
//! the configuration model and its validation, the wizard's key-driven state
//! machine, the text of every generated file and of every screen.

pub mod text;
pub mod config;
pub mod app;
pub mod install;
pub mod ui;
pub mod laws;

