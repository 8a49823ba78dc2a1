//! Navigation core of a terminal system monitor: which panel has the focus,
//! how far each panel is scrolled, how the process table is ordered, where
//! the panels lie on the screen, and what each input message does to all of
//! that.

pub mod app;
pub mod cpu;
pub mod disk;
pub mod focus;
pub mod input;
pub mod layout;
pub mod network;
pub mod order;
pub mod processes;
pub mod text;
pub mod ui;
pub mod viewport;
