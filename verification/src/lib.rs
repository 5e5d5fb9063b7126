//! Plans the set-up of a tiling window manager's desktops: which programs
//! start on which desktop and in what order, which lines go to the window
//! manager's command pipe, and what result code a run ends with.
//!
//! The library decides and formats; it neither appends to the pipe nor
//! starts a program. Every operation is handed out as a [`step::Step`]:
//! the caller does the work that the step asks for and reports whether it
//! succeeded, and the library says what follows.

pub mod backlight;
pub mod channel;
pub mod codes;
pub mod common;
pub mod decimal;
pub mod gather;
pub mod layout;
pub mod leftwm;
pub mod pipeline;
pub mod scheduler;
pub mod step;
pub mod switcher;
pub mod text;
