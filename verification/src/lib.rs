//! Run instrumentation of the Mew trading runtime.

pub mod accounts;
pub mod actions;
pub mod artifacts;
pub mod candidates;
pub mod clock;
pub mod conduct;
pub mod counts;
pub mod documents;
pub mod double;
pub mod events;
pub mod export;
pub mod figures;
pub mod handouts;
pub mod history;
pub mod identity;
pub mod instrumentation;
pub mod json;
pub mod known;
pub mod laws;
pub mod layout;
pub mod paths;
pub mod payloads;
pub mod render;
pub mod reports;
pub mod run;
pub mod secrets;
pub mod session;
pub mod settings;
pub mod startup;
pub mod text;
