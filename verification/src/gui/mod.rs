//! The decisions of the user interface. Nothing here draws: the widgets are
//! built by the caller from what these types hand out.
pub mod app;
pub mod component;
