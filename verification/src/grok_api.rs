//! The Grok provider's wire bodies.

pub mod dto;
