//! The bot's commands: their names, their parsing, the help text, and the
//! list shown as a button menu.

use vstd::prelude::*;
use crate::utils::str_eq;

verus! {

/// One inbound command, with its argument where it takes one.
#[derive(Debug, Clone, PartialEq, Eq)]
pub enum Command {
    Help,
    Friday,
    Model,
    /// Send the sticker of this name.
    Sticker(String),
    ListStickers,
    /// Start adding a sticker, optionally already named.
    AddSticker(String),
    RenameSticker,
    DeleteSticker,
    Cancel,
    Slay,
}

/// The command as plain values, for specifications.
pub enum CommandView {
    Help,
    Friday,
    Model,
    Sticker(Seq<char>),
    ListStickers,
    AddSticker(Seq<char>),
    RenameSticker,
    DeleteSticker,
    Cancel,
    Slay,
}

impl Command {
    pub open spec fn view_cmd(self) -> CommandView {
        match self {
            Command::Help => CommandView::Help,
            Command::Friday => CommandView::Friday,
            Command::Model => CommandView::Model,
            Command::Sticker(s) => CommandView::Sticker(s@),
            Command::ListStickers => CommandView::ListStickers,
            Command::AddSticker(s) => CommandView::AddSticker(s@),
            Command::RenameSticker => CommandView::RenameSticker,
            Command::DeleteSticker => CommandView::DeleteSticker,
            Command::Cancel => CommandView::Cancel,
            Command::Slay => CommandView::Slay,
        }
    }
}

/// The first space of the text at or after `i`, or the text's length.
pub open spec fn spec_first_space(t: Seq<char>, i: int) -> int
    decreases t.len() - i,
{
    if i < 0 || i >= t.len() {
        t.len() as int
    } else if t[i] == ' ' {
        i
    } else {
        spec_first_space(t, i + 1)
    }
}

/// What a text parses to: a leading slash, the command word up to the first
/// space, and the rest as the argument. Unknown words are no command.
pub open spec fn spec_parse_command(t: Seq<char>) -> Option<CommandView> {
    if t.len() == 0 || t[0] != '/' {
        None
    } else {
        let sp = spec_first_space(t, 1);
        let head = t.subrange(1, sp);
        let arg = if sp < t.len() {
            t.subrange(sp + 1, t.len() as int)
        } else {
            Seq::empty()
        };
        if head == "help"@ {
            Some(CommandView::Help)
        } else if head == "friday"@ {
            Some(CommandView::Friday)
        } else if head == "model"@ {
            Some(CommandView::Model)
        } else if head == "sticker"@ || head == "get"@ {
            Some(CommandView::Sticker(arg))
        } else if head == "list_stickers"@ || head == "list"@ {
            Some(CommandView::ListStickers)
        } else if head == "add_sticker"@ || head == "add"@ {
            Some(CommandView::AddSticker(arg))
        } else if head == "rename_sticker"@ || head == "rename"@ {
            Some(CommandView::RenameSticker)
        } else if head == "delete_sticker"@ || head == "delete"@ || head == "remove"@ {
            Some(CommandView::DeleteSticker)
        } else if head == "cancel"@ {
            Some(CommandView::Cancel)
        } else if head == "slay"@ {
            Some(CommandView::Slay)
        } else {
            None
        }
    }
}

/// The first space of the text at or after `i`, or the text's length.
fn first_space(text: &str, i: usize) -> (r: usize)
    requires
        1 <= i <= text@.len(),
    ensures
        r == spec_first_space(text@, i as int),
        i <= r <= text@.len(),
{
    let n = text.unicode_len();
    let mut k: usize = i;
    while k < n
        invariant
            i <= k <= n,
            n == text@.len(),
            spec_first_space(text@, i as int) == spec_first_space(text@, k as int),
        decreases n - k,
    {
        if text.get_char(k) == ' ' {
            return k;
        }
        k = k + 1;
    }
    n
}

/// Parses a command line. Accepts exactly the commands of
/// [`spec_parse_command`]: the long names, and the short aliases `get`,
/// `list`, `add`, `rename`, `delete` and `remove`.
pub fn parse_command(text: &str) -> (r: Option<Command>)
    ensures
        match r {
            Some(c) => spec_parse_command(text@) == Some(c.view_cmd()),
            None => spec_parse_command(text@) is None,
        },
{
    let n = text.unicode_len();
    if n == 0 || text.get_char(0) != '/' {
        return None;
    }
    let sp = first_space(text, 1);
    let head = text.substring_char(1, sp);
    let arg: String = if sp < n {
        String::from_str(text.substring_char(sp + 1, n))
    } else {
        let e = String::new();
        proof {
            assert(e@ =~= Seq::<char>::empty());
        }
        e
    };
    if str_eq(head, "help") {
        Some(Command::Help)
    } else if str_eq(head, "friday") {
        Some(Command::Friday)
    } else if str_eq(head, "model") {
        Some(Command::Model)
    } else if str_eq(head, "sticker") || str_eq(head, "get") {
        Some(Command::Sticker(arg))
    } else if str_eq(head, "list_stickers") || str_eq(head, "list") {
        Some(Command::ListStickers)
    } else if str_eq(head, "add_sticker") || str_eq(head, "add") {
        Some(Command::AddSticker(arg))
    } else if str_eq(head, "rename_sticker") || str_eq(head, "rename") {
        Some(Command::RenameSticker)
    } else if str_eq(head, "delete_sticker") || str_eq(head, "delete") || str_eq(head, "remove") {
        Some(Command::DeleteSticker)
    } else if str_eq(head, "cancel") {
        Some(Command::Cancel)
    } else if str_eq(head, "slay") {
        Some(Command::Slay)
    } else {
        None
    }
}

/// The help text: every command with what it does.
pub fn descriptions() -> (r: String)
    ensures
        r@ == spec_descriptions(),
{
    String::from_str(
        "Поддерживаются следующие команды:\n/help — показать это сообщение.\n/friday — сколько осталось до нефорской пятницы.\n/model — какая модель сгенерировала сообщение (ответом на него).\n/sticker <название> — отправить стикер (алиас /get).\n/list_stickers — показать доступные стикеры (алиас /list).\n/add_sticker <название?> — добавить новый стикер (алиас /add).\n/rename_sticker — переименовать стикер (алиас /rename).\n/delete_sticker — удалить стикер (алиасы /delete, /remove).\n/cancel — отмена операции в рамках диалога.\n/slay — показать команды кнопками.",
    )
}

pub open spec fn spec_descriptions() -> Seq<char> {
    "Поддерживаются следующие команды:\n/help — показать это сообщение.\n/friday — сколько осталось до нефорской пятницы.\n/model — какая модель сгенерировала сообщение (ответом на него).\n/sticker <название> — отправить стикер (алиас /get).\n/list_stickers — показать доступные стикеры (алиас /list).\n/add_sticker <название?> — добавить новый стикер (алиас /add).\n/rename_sticker — переименовать стикер (алиас /rename).\n/delete_sticker — удалить стикер (алиасы /delete, /remove).\n/cancel — отмена операции в рамках диалога.\n/slay — показать команды кнопками."@
}

/// The labels of the command menu: every command but the menu itself and the
/// attribution query, in a fixed order.
pub open spec fn spec_menu_labels() -> Seq<Seq<char>> {
    seq![
        "/help"@,
        "/friday"@,
        "/sticker"@,
        "/list_stickers"@,
        "/add_sticker"@,
        "/rename_sticker"@,
        "/delete_sticker"@,
        "/cancel"@,
    ]
}

/// The labels of the command menu, each also its callback data.
pub fn menu_commands() -> (r: Vec<String>)
    ensures
        r@.len() == spec_menu_labels().len(),
        forall|i: int| 0 <= i < r@.len() ==> (#[trigger] r@[i])@ == spec_menu_labels()[i],
{
    let mut v: Vec<String> = Vec::new();
    v.push(String::from_str("/help"));
    v.push(String::from_str("/friday"));
    v.push(String::from_str("/sticker"));
    v.push(String::from_str("/list_stickers"));
    v.push(String::from_str("/add_sticker"));
    v.push(String::from_str("/rename_sticker"));
    v.push(String::from_str("/delete_sticker"));
    v.push(String::from_str("/cancel"));
    v
}

} // verus!
