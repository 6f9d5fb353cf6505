//! Typed marshalling between a plugin and its host over a two-word callback ABI.
//!
//! Outbound calls go through [`message::PluginParam`]; inbound notifications are
//! decoded by [`export::handle_event`]; host text is converted by [`win32`]; buffers
//! that cross the boundary come from the host allocator in [`api::PluginApi`].
pub mod version;
pub mod win32;
pub mod event;
pub mod record;
pub mod stereo_mode;
pub mod program_guide;
pub mod filter_graph;
pub mod status_item;
pub mod panel;
pub mod variable;
pub mod command;
pub mod event_handler;
pub mod export;
pub mod channel;
pub mod service;
pub mod tuning_space;
pub mod log;
pub mod message;
pub mod api;
pub mod arib_string;
pub mod close;
pub mod controller;
pub mod epg;
pub mod host;
pub mod pan_scan;
pub mod plugin;
pub mod reset;
pub mod setting;
pub mod silent_mode;
pub mod stream;
pub mod style;
pub mod theme;
