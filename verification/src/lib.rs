//! A deterministic, pattern-based compliance filter for text messages.
//!
//! An engine holds an ordered list of rules, each with a regular expression,
//! and decides for a message whether it violates any enabled rule. The
//! decision lists every violated rule.

#![allow(unused_imports)]

pub mod decision;
pub mod defaults;
pub mod engine;
pub mod error;
pub mod laws;
pub mod model;
pub mod pattern;
pub mod report;
pub mod rule;
pub mod text;

pub use decision::PolicyDecision;
pub use engine::RustPolicyEngine;
pub use error::PolicyError;
pub use rule::EthicalRule;
