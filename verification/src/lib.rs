//! Key handling and candidate-session logic of the Qingjian ibus engine.
//!
//! The composition engine itself (pinyin buffer, dictionaries, learning) is an
//! outside service: the handlers here read a snapshot of it ([`plan::EngineView`])
//! and answer with a [`plan::Plan`] of engine operations plus the key's outcome.

pub mod config;
pub mod dictionaries;
pub mod dispatch;
pub mod host;
pub mod keymap;
pub mod keys;
pub mod laws;
pub mod modifiers;
pub mod paths;
pub mod plan;
pub mod present;
pub mod session;
pub mod settings;
