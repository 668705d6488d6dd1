//! The stores: generation history, conversation states, sticker catalog.

pub mod dialogue_storage;
pub mod message_history_storage;
pub mod sticker_storage;
