//! A background utility's core logic: a debounce controller that keeps one
//! popover window's visibility consistent under racing focus and icon-click
//! notifications, and the decision logic that turns a helper process's output
//! into a quota result or a structured error.

pub mod controller;
pub mod laws;
pub mod quota;
