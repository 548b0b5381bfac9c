//! A keyboard-driven window compositor: surfaces, the messages exchanged with
//! them, and the state machine that owns, orders, focuses and renders them.

pub mod components;
pub mod framebuffer;
pub mod input;
pub mod interrupts;
pub mod keyboard;
pub mod laws;
pub mod messages;
pub mod mouse;
pub mod render;
pub mod str_facts;
pub mod themes;
pub mod window_likes;
pub mod window_manager;
