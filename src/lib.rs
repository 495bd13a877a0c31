//! Generation of proxy ("forwarding") DLL projects from the export table of
//! an existing Windows library.
//!
//! - [`dll`] reads the export table of a PE image;
//! - [`prepare`] orders the exports and gives each a label and a unique stub;
//! - [`templates`] renders the C, assembly and module-definition sources;
//! - [`project_files`] renders the IDE and CMake project files through the
//!   placeholder engine of [`fill`];
//! - [`ui_events`] decides which files a request produces and renders them.

pub mod dll;
pub mod fill;
pub mod prepare;
pub mod project_files;
pub mod templates;
pub mod text;
pub mod ui_events;
