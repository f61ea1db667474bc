//! A verified library for the Rusty Suite installer: GitHub release
//! selection, installation and uninstallation flows, progress logs,
//! language handling and the text formatting they rely on.
use vstd::prelude::*;

pub mod assets;
pub mod clock;
pub mod digest;
pub mod github;
pub mod i18n;
pub mod install_flow;
pub mod logger;
pub mod paths;
pub mod progress;
pub mod runner;
pub mod screens;
pub mod state;
pub mod text;

verus! {
} // verus!
