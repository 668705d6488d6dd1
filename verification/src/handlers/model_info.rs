//! The `/model` command: which provider generated the replied-to message.

use vstd::prelude::*;
use crate::common::MessageInfo;
use crate::generation_controller::GenerationController;
use crate::handlers::{no_effects, one_text, text_outcome, Outcome};
use crate::repo::message_history_storage::spec_lookup;

verus! {

/// What `/model` does: it must be a reply to a text message, and then
/// answers with the provider the history attributes that text to, if any.
pub open spec fn model_info_post(
    msg: MessageInfo,
    history: Seq<(crate::common::Model, Seq<char>)>,
    r: Outcome,
) -> bool {
    &&& no_effects(r)
    &&& match msg.reply_to {
        None => one_text(
            r.replies@,
            "Команда должна быть ответом на сообщение бота"@,
        ),
        Some(replied) => match replied.text {
            None => one_text(r.replies@, "Это сообщение не сгенерировано ботом"@),
            Some(text) => match spec_lookup(history, text@) {
                Some(model) => one_text(
                    r.replies@,
                    "Это сообщение сгенерировано: "@ + model.spec_name(),
                ),
                None => one_text(
                    r.replies@,
                    "Информации про это сообщение не найдено"@,
                ),
            },
        },
    }
}

/// Attributes the replied-to message to the provider that generated it.
pub fn model_info(msg: &MessageInfo, generator: &GenerationController) -> (r: Outcome)
    ensures
        model_info_post(*msg, generator.history(), r),
{
    let replied = match &msg.reply_to {
        Some(m) => m,
        None => {
            return text_outcome(
                String::from_str("Команда должна быть ответом на сообщение бота"),
            );
        },
    };
    let text = match &replied.text {
        Some(t) => t,
        None => {
            return text_outcome(
                String::from_str("Это сообщение не сгенерировано ботом"),
            );
        },
    };
    match generator.get_message_info(text.as_str()) {
        Some(model) => {
            let name = model.name();
            let mut t = String::from_str("Это сообщение сгенерировано: ");
            t.append(name.as_str());
            text_outcome(t)
        },
        None => text_outcome(
            String::from_str("Информации про это сообщение не найдено"),
        ),
    }
}

} // verus!
