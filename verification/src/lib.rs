//! Verified decision logic of the KeyTao input method: which input contexts
//! may be composed into, how keys are routed, how the candidate panel is
//! modelled, and how the daemon chooses and configures its frontends.
pub mod text;

pub mod context;
pub mod policy;

pub mod ime_state;
pub mod keys;
pub mod vk;

pub mod panel;
pub mod theme;
pub mod theme_document;

pub mod daemon;
pub mod ibus_files;
pub mod repeat;
pub mod session;

pub mod actions;
pub mod dll;
pub mod geometry;
pub mod sandbox;
