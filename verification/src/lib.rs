//! Verified core of the piri window-management helper for the niri compositor:
//! configuration model, window matching, scratchpad geometry, throttling and the
//! decision logic of the window-rule and swallow plugins.
use vstd::prelude::*;

pub mod clock;
pub mod config;
pub mod plugins;
pub mod text;
pub mod utils;

verus! {

} // verus!
