//! Core logic of a screen-annotation and presentation utility.
//!
//! The crate covers the parts of the application with algorithmic content:
//! the multi-monitor region-capture pipeline (monitor geometry, region
//! validation, scale-factor normalization, output routing), the transient
//! capture-overlay window lifecycle, and the text-macro interpreter that
//! turns an escape-sequence string into an ordered list of typing actions.
//! Window-toolkit plumbing, tray construction and raw platform I/O live
//! outside this crate and consume the plans and decisions produced here.

pub mod capture;
pub mod interp;
pub mod menus;
pub mod orchestrator;
pub mod router;
pub mod settings;
pub mod tray;
pub mod windows;
