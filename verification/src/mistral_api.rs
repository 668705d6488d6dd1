//! The Mistral provider's wire bodies.

pub mod dto;
