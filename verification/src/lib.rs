//! Mobile platform support for GPUI: the platform-independent logic of the
//! iOS and Android backends, with its contracts.

pub mod strings;
pub mod geometry;

pub mod text_input;
pub mod events;
pub mod android_input;
pub mod text_callback;

pub mod text;
pub mod layout;

pub mod etagere_alloc;
pub mod atlas;
pub mod render;

pub mod lifecycle;
pub mod chrome;
pub use chrome::{KeyboardType, StatusBarContentStyle, SystemChromeStyle};

pub mod store;
pub mod preferences;
pub mod packages;
pub mod sensors;

pub mod display;
pub mod dispatcher;
pub mod ns_range;
pub mod demos;
