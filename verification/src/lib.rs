//! Host side of a plugin-loading media-emulation frontend.
//!
//! A dynamically loaded "core" library drives the host through a single
//! environment callback: a numeric command id plus a payload whose shape is
//! determined by that id. The dispatcher in [`environment`] decodes and
//! validates each recognized command and reflects it into host state; the
//! delegate in [`delegate`] owns the loaded core library's lifetime.

pub mod commands;
pub mod delegate;
pub mod environment;
pub mod laws;
