//! The sticker catalog: named media references, cached in memory and backed
//! by a durable file whose content always matches the committed cache.

pub mod codec;
pub mod dto;
pub mod storage;
