//! A controller for an interactive table of remote resources.
//!
//! The library owns the logic of a terminal dashboard that lists
//! container images fetched from a management backend: the table of
//! rows with its selected row, the modal action menu over it, and the
//! dispatch of a delete action followed by a refresh that repositions
//! the cursor. Everything that talks to a terminal or a backend lives
//! outside; the controller is driven by plain events and answers with
//! plain commands.

pub mod controller;
pub mod images;
pub mod menu;
pub mod table;
pub mod utils;
