//! Capture core of a screen-sharing application, with the decisions of its
//! sharing page.
//!
//! The library never touches the operating system. It decides: every native
//! call is handed out as a [`capture::ffi::NativeRequest`], and what the
//! operating system answered comes back as a [`capture::frame::NativeEvent`].
pub mod capture;
pub mod gui;
