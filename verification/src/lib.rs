//! Decision logic of the buffr browser shell: which frame to paint, which
//! tabs to restore, which key goes where, which process owns a profile.
//!
//! Every function here works on plain values. Reading clocks, windows,
//! sockets and files is left to the program around the library; what those
//! readings lead to is decided, and proved, here.
//!
//! Moments are nanoseconds on a monotonic clock, durations are nanoseconds.

pub mod text;
pub mod html;
pub mod paint_policy;
pub mod render;
pub mod frame;
pub mod session;
pub mod restore;
pub mod single_instance;
pub mod supervisor;
pub mod helper;
pub mod stub;
pub mod id_map;
pub mod favicons;
pub mod fixed;
pub mod swipe;
pub mod windowing;
pub mod edit_focus;
pub mod keys;
pub mod overlay;
pub mod prompts;
pub mod commands;
pub mod suggestions;
pub mod tabs;
pub mod popup;
pub mod order;
pub mod profile;
pub mod wayland_globals;
pub mod app_state;
pub mod startup;
