//! A chat assistant library: a sticker catalog with durable persistence, a
//! pool of interchangeable text-rephrasing providers with randomized fallback,
//! and a per-(user, chat) conversation workflow engine.

pub mod commands;
pub mod common;
pub mod config;
pub mod dto;
pub mod errors;
pub mod generation_controller;
pub mod grok_api;
pub mod handlers;
pub mod mistral_api;
pub mod repo;
pub mod states;
pub mod utils;

