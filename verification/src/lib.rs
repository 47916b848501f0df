//! Window placement controller for the Codefend Panel desktop shell.
//!
//! The shell's only logic of its own is the startup routine that makes sure
//! exactly one main window exists, sized and centered per a fixed policy, and
//! that a readiness signal reaches the UI layer once placement is done. The
//! window manager itself (creating, querying, resizing and moving windows) is
//! an external service; this library states the decisions the shell makes
//! against it and proves their properties. A thin host layer performs the
//! actions the controllers request and feeds the outcomes back as events.

pub mod config;
pub mod geometry;
pub mod greeting;
pub mod placement;
pub mod protocol;
pub mod setup;
