//! Core logic of a browser gateway for a terminal multiplexer: the rules that
//! decide what is served, where a browser frame is routed, how terminal input
//! is decoded and what a channel does when it opens and closes.

pub mod assets;
pub mod keys;
pub mod mouse;
pub mod extended_keyboard;
pub mod messages;
pub mod terminal_input;
pub mod stdin;
pub mod registry;
pub mod frames;
pub mod control;
pub mod terminal;
pub mod listener;
pub mod session_choice;
