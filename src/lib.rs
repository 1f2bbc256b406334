//! The update loop of an interactive desktop program: platform events are
//! translated into a closed event model, carried over a channel to the
//! application thread, and fed in batches to a model whose state is then
//! presented and rendered, once per tick.

pub mod app;
pub mod channel;
pub mod counter_model;
pub mod counter_text_present;
pub mod error;
pub mod event;
pub mod input_controller;
pub mod term_render;
