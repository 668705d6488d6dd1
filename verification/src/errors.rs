//! Error taxonomy of the library: no-capacity errors of the generation
//! controller, business-conflict errors of the sticker catalog, and the
//! durable-storage failure.

use vstd::prelude::*;

verus! {

/// An error that an operation of the library reports to its caller.
#[derive(Debug, Clone, Copy, PartialEq, Eq, Structural)]
pub enum ApiError {
    /// The generation pool is empty.
    NoProviders,
    /// Every provider in the pool failed for this request.
    AllProvidersFailed,
    /// A catalog entry with this name already exists.
    StickerAlreadyExists,
    /// No catalog entry with this name exists.
    StickerNotFound,
}

impl ApiError {
    /// A human-readable description, used by the shell when a reply has to
    /// carry the error.
    pub fn message(&self) -> (r: String)
        ensures
            r@ == self.spec_message(),
    {
        match self {
            ApiError::NoProviders => String::from_str("нет доступных моделей"),
            ApiError::AllProvidersFailed => String::from_str("все модели недоступны"),
            ApiError::StickerAlreadyExists => String::from_str("стикер уже существует"),
            ApiError::StickerNotFound => String::from_str("стикер не найден"),
        }
    }

    pub open spec fn spec_message(self) -> Seq<char> {
        match self {
            ApiError::NoProviders => "нет доступных моделей"@,
            ApiError::AllProvidersFailed => "все модели недоступны"@,
            ApiError::StickerAlreadyExists => "стикер уже существует"@,
            ApiError::StickerNotFound => "стикер не найден"@,
        }
    }
}

/// An error met while reading the catalog's durable file back in.
#[derive(Debug, Clone, Copy, PartialEq, Eq, Structural)]
pub enum RepoError {
    /// The file's content is not a well-formed catalog document.
    ReadJSONError,
}

} // verus!
