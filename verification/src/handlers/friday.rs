//! The `/friday` command: how long until the next Friday in Moscow, passed
//! through a provider for rephrasing, with the plain text as fallback.

use vstd::prelude::*;
use crate::handlers::{no_replies, one_text, GenerationRequest, Outcome, Reply};
use crate::utils::{
    format_time_delta, get_time_until_friday, spec_days_to_friday, spec_time_delta_text,
    MoscowNow, TimeDelta,
};

verus! {

/// The countdown or celebration text for this moment.
pub open spec fn spec_friday_text(now: MoscowNow) -> Seq<char> {
    if now.weekday_from_monday == 5 {
        "SLAAAAAY! 💅🔥🖤 ЭТО НЕФОРСКАЯ ПЯТНИЦА, ДЕТКА! 🤘😈⛓️ Время сиять! ✨"@
    } else {
        let rem = spec_days_to_friday(now.weekday_from_monday as int) * 86400
            - now.secs_into_day;
        "До нефорской пятницы осталось: "@ + spec_time_delta_text(
            TimeDelta {
                days: (rem / 86400) as u64,
                hours: ((rem % 86400) / 3600) as u64,
                minutes: ((rem % 3600) / 60) as u64,
            },
        ) + " 🕷️ Готовь свой лучший аутфит. ⛓️"@
    }
}

/// What `/friday` does: it sends nothing yet, and asks the shell to run the
/// moment's text through the generation pool.
pub open spec fn friday_post(now: MoscowNow, r: Outcome) -> bool {
    &&& no_replies(r.replies@)
    &&& r.pending is None
    &&& (r.generate matches Some(g) && g.input@ == spec_friday_text(now))
}

/// Builds the countdown text and asks for its rephrasing.
pub fn friday(now: &MoscowNow) -> (r: Outcome)
    requires
        now.wf(),
    ensures
        friday_post(*now, r),
{
    let text: String = match get_time_until_friday(now) {
        Some(td) => {
            let formatted = format_time_delta(&td);
            let mut s = String::from_str("До нефорской пятницы осталось: ");
            s.append(formatted.as_str());
            s.append(" 🕷️ Готовь свой лучший аутфит. ⛓️");
            s
        },
        None => String::from_str(
            "SLAAAAAY! 💅🔥🖤 ЭТО НЕФОРСКАЯ ПЯТНИЦА, ДЕТКА! 🤘😈⛓️ Время сиять! ✨",
        ),
    };
    Outcome {
        replies: Vec::new(),
        pending: None,
        generate: Some(GenerationRequest { input: text }),
    }
}

/// Closes a `/friday` once the shell has run the generation: the rephrased
/// text is sent, and on any generation failure the plain text goes out
/// instead — a reply is always delivered.
pub fn friday_finish(request: GenerationRequest, generated: Option<String>) -> (r: Vec<Reply>)
    ensures
        match generated {
            Some(t) => one_text(r@, t@),
            None => one_text(r@, request.input@),
        },
{
    let text = match generated {
        Some(t) => t,
        None => request.input,
    };
    let mut replies: Vec<Reply> = Vec::new();
    replies.push(Reply::Text(text));
    replies
}

} // verus!
