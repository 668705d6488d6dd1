//! The workflow engine end to end: flows, isolation, menu ownership.

use slay_bot::commands::Command;
use slay_bot::errors::{ApiError, RepoError};
use slay_bot::common::{MessageContent, MessageInfo, Model, RepliedTo};
use slay_bot::generation_controller::GenerationController;
use slay_bot::handlers::root_handler::handle_command;
use slay_bot::handlers::slay::inline_choice_callback;
use slay_bot::handlers::state_dispatcher::state_dispatcher;
use slay_bot::handlers::{finish_persist, CallbackInfo, Outcome, Reply};
use slay_bot::repo::dialogue_storage::UserDialogueStorage;
use slay_bot::repo::message_history_storage::MessageHistoryStorage;
use slay_bot::repo::sticker_storage::storage::StickerStorage;
use slay_bot::utils::MoscowNow;

fn text_msg(user: u64, chat: i64, text: &str) -> MessageInfo {
    MessageInfo {
        from_user: Some(user),
        chat_id: chat,
        content: MessageContent::Text(text.to_string()),
        reply_to: None,
    }
}

fn sticker_msg(user: u64, chat: i64, file_id: &str) -> MessageInfo {
    MessageInfo {
        from_user: Some(user),
        chat_id: chat,
        content: MessageContent::Sticker(file_id.to_string()),
        reply_to: None,
    }
}

fn a_moment() -> MoscowNow {
    MoscowNow { weekday_from_monday: 1, secs_into_day: 0 }
}

fn controller() -> GenerationController {
    GenerationController::new(vec![Model::Grok], MessageHistoryStorage::new())
}

fn only_text(outcome: &Outcome) -> String {
    assert_eq!(outcome.replies.len(), 1);
    match &outcome.replies[0] {
        Reply::Text(t) => t.clone(),
        other => panic!("expected a text reply, got {:?}", other),
    }
}

/// Runs one command against the stores.
fn run_command(
    cmd: Command,
    msg: &MessageInfo,
    dialogue: &mut UserDialogueStorage,
    catalog: &mut StickerStorage,
) -> Outcome {
    let gen = controller();
    let outcome = handle_command(&cmd, msg, &a_moment(), dialogue, catalog, &gen);
    outcome
}

/// Advances a flow with a plain message, persisting whatever it decided.
fn run_message(
    msg: &MessageInfo,
    dialogue: &mut UserDialogueStorage,
    catalog: &mut StickerStorage,
    write_ok: bool,
) -> Vec<String> {
    let outcome = state_dispatcher(msg, dialogue, catalog);
    let mut texts: Vec<String> = Vec::new();
    for r in &outcome.replies {
        if let Reply::Text(t) = r {
            texts.push(t.clone());
        }
    }
    if let Some(pending) = outcome.pending {
        for r in finish_persist(pending, write_ok, catalog, dialogue) {
            if let Reply::Text(t) = r {
                texts.push(t.clone());
            }
        }
    }
    texts
}

#[test]
fn add_flow_with_name_given() {
    let mut dialogue = UserDialogueStorage::new();
    let mut catalog = StickerStorage::new();
    let user = 7;
    let chat = 100;

    let o = run_command(
        Command::AddSticker("foo".to_string()),
        &text_msg(user, chat, "/add foo"),
        &mut dialogue,
        &mut catalog,
    );
    assert_eq!(only_text(&o), "Отправь мне стикер для 'foo'");

    let texts = run_message(&sticker_msg(user, chat, "REF42"), &mut dialogue, &mut catalog, true);
    assert_eq!(texts, vec!["Стикер 'foo' сохранен! 🎉".to_string()]);

    let o = run_command(
        Command::Sticker("foo".to_string()),
        &text_msg(user, chat, "/get foo"),
        &mut dialogue,
        &mut catalog,
    );
    assert_eq!(o.replies.len(), 1);
    assert!(matches!(&o.replies[0], Reply::StickerFile(f) if f == "REF42"));
}

#[test]
fn add_flow_asks_for_name_when_omitted() {
    let mut dialogue = UserDialogueStorage::new();
    let mut catalog = StickerStorage::new();
    let user = 7;
    let chat = 100;

    let o = run_command(
        Command::AddSticker(String::new()),
        &text_msg(user, chat, "/add"),
        &mut dialogue,
        &mut catalog,
    );
    assert_eq!(only_text(&o), "Введите название стикера");

    let texts = run_message(&text_msg(user, chat, "foo"), &mut dialogue, &mut catalog, true);
    assert_eq!(texts, vec!["Отправьте стикер".to_string()]);

    let texts = run_message(&sticker_msg(user, chat, "REF1"), &mut dialogue, &mut catalog, true);
    assert_eq!(texts, vec!["Стикер 'foo' сохранен! 🎉".to_string()]);
    assert_eq!(catalog.get_sticker("foo").unwrap().file_id, "REF1");
}

#[test]
fn duplicate_add_does_not_create_second_entry() {
    let mut dialogue = UserDialogueStorage::new();
    let mut catalog = StickerStorage::new();
    let user = 7;
    let chat = 100;

    run_command(
        Command::AddSticker("dup".to_string()),
        &text_msg(user, chat, "/add dup"),
        &mut dialogue,
        &mut catalog,
    );
    run_message(&sticker_msg(user, chat, "FIRST"), &mut dialogue, &mut catalog, true);

    // the second attempt is refused at the name step
    let o = run_command(
        Command::AddSticker("dup".to_string()),
        &text_msg(user, chat, "/add dup"),
        &mut dialogue,
        &mut catalog,
    );
    assert_eq!(only_text(&o), "Стикер с именем dup уже существует, попробуй другое");

    // the intervening sticker send hits no open flow and changes nothing
    let texts = run_message(&sticker_msg(user, chat, "SECOND"), &mut dialogue, &mut catalog, true);
    assert!(texts.is_empty());
    assert_eq!(catalog.get_sticker("dup").unwrap().file_id, "FIRST");
    assert_eq!(catalog.list_stickers().unwrap().len(), 1);
}

#[test]
fn failed_write_rolls_back_and_clears_flow() {
    let mut dialogue = UserDialogueStorage::new();
    let mut catalog = StickerStorage::new();
    let user = 7;
    let chat = 100;

    run_command(
        Command::AddSticker("foo".to_string()),
        &text_msg(user, chat, "/add foo"),
        &mut dialogue,
        &mut catalog,
    );
    let texts = run_message(&sticker_msg(user, chat, "REF"), &mut dialogue, &mut catalog, false);
    assert_eq!(texts, vec!["Произошла ошибка сохранения стикера".to_string()]);
    assert!(catalog.get_sticker("foo").is_none());

    // the flow is gone: another sticker does nothing
    let texts = run_message(&sticker_msg(user, chat, "REF"), &mut dialogue, &mut catalog, true);
    assert!(texts.is_empty());
}

#[test]
fn rename_flow() {
    let mut dialogue = UserDialogueStorage::new();
    let mut catalog = StickerStorage::new();
    let user = 1;
    let chat = 5;

    run_command(
        Command::AddSticker("a".to_string()),
        &text_msg(user, chat, "/add a"),
        &mut dialogue,
        &mut catalog,
    );
    run_message(&sticker_msg(user, chat, "R"), &mut dialogue, &mut catalog, true);

    let o = run_command(Command::RenameSticker, &text_msg(user, chat, "/rename"), &mut dialogue, &mut catalog);
    assert_eq!(only_text(&o), "Введите название стикера, который хотите переименовать");

    let texts = run_message(&text_msg(user, chat, "a"), &mut dialogue, &mut catalog, true);
    assert_eq!(texts, vec!["Введите новое название".to_string()]);

    let texts = run_message(&text_msg(user, chat, "b"), &mut dialogue, &mut catalog, true);
    assert_eq!(texts, vec!["Новое имя 'b' сохранено! 🎉".to_string()]);
    assert!(catalog.get_sticker("a").is_none());
    assert_eq!(catalog.get_sticker("b").unwrap().file_id, "R");
}

#[test]
fn delete_flow() {
    let mut dialogue = UserDialogueStorage::new();
    let mut catalog = StickerStorage::new();
    let user = 1;
    let chat = 5;

    run_command(
        Command::AddSticker("gone".to_string()),
        &text_msg(user, chat, "/add gone"),
        &mut dialogue,
        &mut catalog,
    );
    run_message(&sticker_msg(user, chat, "R"), &mut dialogue, &mut catalog, true);

    let o = run_command(Command::DeleteSticker, &text_msg(user, chat, "/delete"), &mut dialogue, &mut catalog);
    assert_eq!(only_text(&o), "Введите название стикера для удаления");

    let texts = run_message(&text_msg(user, chat, "gone"), &mut dialogue, &mut catalog, true);
    assert_eq!(texts, vec!["Стикер gone успешно удален".to_string()]);
    assert!(catalog.get_sticker("gone").is_none());

    // deleting a missing sticker reports "not found" and ends the flow
    run_command(Command::DeleteSticker, &text_msg(user, chat, "/delete"), &mut dialogue, &mut catalog);
    let texts = run_message(&text_msg(user, chat, "gone"), &mut dialogue, &mut catalog, true);
    assert_eq!(
        texts,
        vec!["Стикер с названием gone не найден, попробуйте другое название".to_string()]
    );
}

#[test]
fn cancel_clears_open_flow() {
    let mut dialogue = UserDialogueStorage::new();
    let mut catalog = StickerStorage::new();
    let user = 1;
    let chat = 5;

    run_command(
        Command::AddSticker(String::new()),
        &text_msg(user, chat, "/add"),
        &mut dialogue,
        &mut catalog,
    );
    let o = run_command(Command::Cancel, &text_msg(user, chat, "/cancel"), &mut dialogue, &mut catalog);
    assert_eq!(only_text(&o), "Операция отменена.");

    // nothing left to advance
    let texts = run_message(&text_msg(user, chat, "foo"), &mut dialogue, &mut catalog, true);
    assert!(texts.is_empty());

    // cancel with no open flow says nothing
    let o = run_command(Command::Cancel, &text_msg(user, chat, "/cancel"), &mut dialogue, &mut catalog);
    assert!(o.replies.is_empty());
}

#[test]
fn workflow_isolation_between_keys() {
    let mut dialogue = UserDialogueStorage::new();
    let mut catalog = StickerStorage::new();

    // user 1 is mid-add, user 2 mid-rename, in the same chat
    run_command(
        Command::AddSticker(String::new()),
        &text_msg(1, 5, "/add"),
        &mut dialogue,
        &mut catalog,
    );
    run_command(Command::RenameSticker, &text_msg(2, 5, "/rename"), &mut dialogue, &mut catalog);

    // advancing user 1 does not disturb user 2's flow
    let texts = run_message(&text_msg(1, 5, "foo"), &mut dialogue, &mut catalog, true);
    assert_eq!(texts, vec!["Отправьте стикер".to_string()]);

    // user 2 is still at the rename name step
    let texts = run_message(&text_msg(2, 5, "nothere"), &mut dialogue, &mut catalog, true);
    assert_eq!(
        texts,
        vec!["Стикер с именем nothere не существует, попробуй другое".to_string()]
    );
}

#[test]
fn menu_ownership() {
    let mut dialogue = UserDialogueStorage::new();
    let mut catalog = StickerStorage::new();
    let owner = 10;
    let chat = 20;

    let o = run_command(Command::Slay, &text_msg(owner, chat, "/slay"), &mut dialogue, &mut catalog);
    assert_eq!(o.replies.len(), 1);
    match &o.replies[0] {
        Reply::Menu { text, rows } => {
            assert_eq!(text, "Выберите команду");
            assert_eq!(rows.len(), 2);
            assert_eq!(rows[0].len(), 4);
            assert_eq!(rows[1].len(), 4);
            assert_eq!(rows[0][0], "/help");
            assert_eq!(rows[1][3], "/cancel");
        }
        other => panic!("expected the menu, got {:?}", other),
    }

    // a press by someone else does nothing at all
    let gen = controller();
    let intruder = CallbackInfo {
        from_user: 99,
        chat_id: Some(chat),
        data: Some("/help".to_string()),
    };
    let o = inline_choice_callback(&intruder, &a_moment(), &mut dialogue, &catalog);
    assert!(o.replies.is_empty());
    assert!(o.pending.is_none());
    assert!(o.generate.is_none());
    drop(gen);

    // the owner's press dispatches the chosen command
    let press = CallbackInfo {
        from_user: owner,
        chat_id: Some(chat),
        data: Some("/add_sticker".to_string()),
    };
    let o = inline_choice_callback(&press, &a_moment(), &mut dialogue, &catalog);
    assert_eq!(only_text(&o), "Введите название стикера");

    // and the menu is gone: a second press does nothing
    let again = CallbackInfo {
        from_user: owner,
        chat_id: Some(chat),
        data: Some("/help".to_string()),
    };
    let o = inline_choice_callback(&again, &a_moment(), &mut dialogue, &catalog);
    assert!(o.replies.is_empty());
}

#[test]
fn list_is_sorted_by_name() {
    let mut dialogue = UserDialogueStorage::new();
    let mut catalog = StickerStorage::new();
    for (n, f) in [("b", "2"), ("a", "1"), ("c", "3")] {
        run_command(
            Command::AddSticker(n.to_string()),
            &text_msg(1, 1, "/add"),
            &mut dialogue,
            &mut catalog,
        );
        run_message(&sticker_msg(1, 1, f), &mut dialogue, &mut catalog, true);
    }
    let o = run_command(Command::ListStickers, &text_msg(1, 1, "/list"), &mut dialogue, &mut catalog);
    match &o.replies[0] {
        Reply::Suggestions { text, options } => {
            assert_eq!(text, "Доступные стикеры:");
            assert_eq!(options, &vec!["a".to_string(), "b".to_string(), "c".to_string()]);
        }
        other => panic!("expected suggestions, got {:?}", other),
    }
}

#[test]
fn model_info_replies() {
    let mut dialogue = UserDialogueStorage::new();
    let mut catalog = StickerStorage::new();
    let mut gen = controller();
    gen.record_success(Model::Grok, "generated text");

    let no_reply = text_msg(1, 1, "/model");
    let o = handle_command(&Command::Model, &no_reply, &a_moment(), &mut dialogue, &catalog, &gen);
    assert_eq!(only_text(&o), "Команда должна быть ответом на сообщение бота");

    let mut with_reply = text_msg(1, 1, "/model");
    with_reply.reply_to = Some(RepliedTo { text: Some("generated text".to_string()) });
    let o = handle_command(&Command::Model, &with_reply, &a_moment(), &mut dialogue, &catalog, &gen);
    assert_eq!(only_text(&o), "Это сообщение сгенерировано: Grok");

    let mut unknown = text_msg(1, 1, "/model");
    unknown.reply_to = Some(RepliedTo { text: Some("never seen".to_string()) });
    let o = handle_command(&Command::Model, &unknown, &a_moment(), &mut dialogue, &catalog, &gen);
    assert_eq!(only_text(&o), "Информации про это сообщение не найдено");
}

#[test]
fn menu_dispatches_other_commands() {
    let mut dialogue = UserDialogueStorage::new();
    let mut catalog = StickerStorage::new();
    let owner = 3;
    let chat = 4;

    // one sticker, so the sticker button has something to offer
    run_command(
        Command::AddSticker("xdd".to_string()),
        &text_msg(owner, chat, "/add xdd"),
        &mut dialogue,
        &mut catalog,
    );
    run_message(&sticker_msg(owner, chat, "R"), &mut dialogue, &mut catalog, true);

    // the friday button asks for a generation
    run_command(Command::Slay, &text_msg(owner, chat, "/slay"), &mut dialogue, &mut catalog);
    let press = |data: &str| CallbackInfo {
        from_user: owner,
        chat_id: Some(chat),
        data: Some(data.to_string()),
    };
    let o = inline_choice_callback(&press("/friday"), &a_moment(), &mut dialogue, &catalog);
    assert!(o.generate.is_some());

    // the sticker button offers every sticker as a one-tap fetch
    run_command(Command::Slay, &text_msg(owner, chat, "/slay"), &mut dialogue, &mut catalog);
    let o = inline_choice_callback(&press("/sticker"), &a_moment(), &mut dialogue, &catalog);
    match &o.replies[0] {
        Reply::Suggestions { text, options } => {
            assert_eq!(text, "Выберите опцию");
            assert_eq!(options, &vec!["/get xdd".to_string()]);
        }
        other => panic!("expected suggestions, got {:?}", other),
    }

    // a button the menu never offers is reported as unsupported
    run_command(Command::Slay, &text_msg(owner, chat, "/slay"), &mut dialogue, &mut catalog);
    let o = inline_choice_callback(&press("/slay"), &a_moment(), &mut dialogue, &catalog);
    assert_eq!(only_text(&o), "Команда пока не поддерживается");
}

#[test]
fn help_and_blank_get() {
    let mut dialogue = UserDialogueStorage::new();
    let mut catalog = StickerStorage::new();
    let o = run_command(Command::Help, &text_msg(1, 1, "/help"), &mut dialogue, &mut catalog);
    let text = only_text(&o);
    assert!(text.starts_with("Поддерживаются следующие команды:"));
    assert!(text.contains("/slay"));

    let o = run_command(
        Command::Sticker("  ".to_string()),
        &text_msg(1, 1, "/get   "),
        &mut dialogue,
        &mut catalog,
    );
    assert_eq!(only_text(&o), "Укажите имя стикера");

    let o = run_command(
        Command::Sticker("nope".to_string()),
        &text_msg(1, 1, "/get nope"),
        &mut dialogue,
        &mut catalog,
    );
    assert_eq!(only_text(&o), "Стикера с таким названием нет");

    let o = run_command(Command::ListStickers, &text_msg(1, 1, "/list"), &mut dialogue, &mut catalog);
    assert_eq!(only_text(&o), "Список стикеров пуст");
}

#[test]
fn error_messages() {
    assert_eq!(ApiError::NoProviders.message(), "нет доступных моделей");
    assert_eq!(ApiError::AllProvidersFailed.message(), "все модели недоступны");
    assert_eq!(ApiError::StickerAlreadyExists.message(), "стикер уже существует");
    assert_eq!(ApiError::StickerNotFound.message(), "стикер не найден");
    assert_eq!(RepoError::ReadJSONError, RepoError::ReadJSONError);
}

#[test]
fn channel_posts_are_refused() {
    let mut dialogue = UserDialogueStorage::new();
    let mut catalog = StickerStorage::new();
    let channel_msg = MessageInfo {
        from_user: None,
        chat_id: 9,
        content: MessageContent::Text("/add foo".to_string()),
        reply_to: None,
    };
    let o = run_command(
        Command::AddSticker("foo".to_string()),
        &channel_msg,
        &mut dialogue,
        &mut catalog,
    );
    assert_eq!(only_text(&o), "Каналы не поддерживаются");
}
