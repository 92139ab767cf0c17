//! Provisioning logic for the NesFab language-server binary.
//!
//! The library decides how a language-server binary is located, downloaded
//! and installed: which platforms are supported, how release assets and
//! installation directories are named, which release asset matches, and in
//! what order the probing, download and cleanup steps run. All filesystem,
//! network and editor-host interaction is left to the embedding program,
//! which drives the decision procedure event by event.

pub mod errors;
pub mod laws;
pub mod naming;
pub mod platform;
pub mod provision;
pub mod release;
