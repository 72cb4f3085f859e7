//! A taskbar workspace switcher for the komorebi tiling window manager:
//! the geometry, colour, layout and event-handling decisions of the bar,
//! each stated as a contract over plain values and proved.

pub mod geometry;
pub mod settings;
pub mod state;
pub mod application;
pub mod msgs;
pub mod komo;
