//! Typed decoding and dispatch of slash-command and component interactions.
//!
//! An interaction arrives as a name (or a custom id) with loosely typed
//! options. A registry, assembled once from an ordered list of definitions,
//! routes it to the definition it names and decodes its options into typed
//! values, or says precisely why it could not.

pub mod arg;
pub mod command;
pub mod commands;
pub mod components;
pub mod error;
pub mod json;
pub mod meta;
pub mod option;
pub mod scan;
