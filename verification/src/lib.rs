//! Window description and input handling core of a retained-mode GUI toolkit.

pub mod entity;
pub mod style;
pub mod window_description;
pub mod event;
pub mod input;
pub mod input_laws;
