//! Per-(user, chat) conversation state.

use vstd::prelude::*;
use crate::common::MessageInfo;

verus! {

/// The key of one conversation: the user and the chat it runs in.
pub type DialogueStorageKey = (u64, i64);

/// The state of one multi-step conversation. A key with no state at all is
/// idle; every flow removes its key on completion, cancellation or terminal
/// error.
#[derive(Debug, Clone)]
pub enum State {
    /// `/add` was issued without a name; the next text message names the
    /// sticker.
    AwaitingStickerNameForAdd,
    /// The name is fixed; the next sticker message supplies the media.
    AwaitingStickerMediaForAdd { sticker_name: String },
    /// `/rename` was issued; the next text message names the sticker to
    /// rename.
    AwaitingStickerNameForRename,
    /// The sticker to rename is fixed; the next text message gives its new
    /// name.
    AwaitingNewNameForRename { old_name: String },
    /// `/delete` was issued; the next text message names the sticker to
    /// remove.
    AwaitingStickerNameForDelete,
    /// A command menu is open; only its owner may dispatch a button, and the
    /// chosen command is replayed against the stored original message.
    ShowingCommandMenu { owner_user_id: u64, original_message: MessageInfo },
}

} // verus!
