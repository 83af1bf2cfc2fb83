use piuda_twitch::action::{Access, Action, Outcome};
use piuda_twitch::dispatch::{dispatch, plan, run_builtin};
use piuda_twitch::line::{ChatLine, Sender};
use piuda_twitch::registry::{Builtin, Registry};
use piuda_twitch::reply::{Notice, Reply};
use piuda_twitch::state::BotState;
use piuda_twitch::tokenizer::TokenizeError;

fn viewer(text: &str) -> ChatLine {
    ChatLine {
        raw_text: text.to_owned(),
        sender: Sender { is_broadcaster: false, is_moderator: false },
    }
}

fn moderator(text: &str) -> ChatLine {
    ChatLine {
        raw_text: text.to_owned(),
        sender: Sender { is_broadcaster: false, is_moderator: true },
    }
}

fn broadcaster(text: &str) -> ChatLine {
    ChatLine {
        raw_text: text.to_owned(),
        sender: Sender { is_broadcaster: true, is_moderator: false },
    }
}

fn said(notice: Notice) -> Outcome {
    Outcome::Reply(Reply::Notice(notice))
}

fn text_of(outcome: &Outcome) -> Option<String> {
    outcome.reply().map(|reply| reply.text())
}

#[test]
fn ping_replies_pong() {
    let registry = Registry::builtin();
    let mut state = BotState::new();
    let outcome = dispatch(&viewer("!ping"), &registry, &mut state);
    assert_eq!(outcome, said(Notice::Pong));
    assert_eq!(text_of(&outcome), Some("pong".to_owned()));
    let outcome = dispatch(&viewer("!ping \"unterminated"), &registry, &mut state);
    assert_eq!(outcome, said(Notice::Pong));
}

#[test]
fn builtin_names_cannot_be_added() {
    let registry = Registry::builtin();
    let mut state = BotState::new();
    for name in ["arena", "id", "command", "cmd", "ping"] {
        let line = moderator(&format!("!cmd add {} hijacked", name));
        let outcome = dispatch(&line, &registry, &mut state);
        assert_eq!(outcome, said(Notice::NameCollision));
        assert_eq!(text_of(&outcome), Some("built-in command, can't overwrite".to_owned()));
        let line = moderator(&format!("!cmd edit {} hijacked", name));
        assert_eq!(dispatch(&line, &registry, &mut state), said(Notice::NameCollision));
        assert_eq!(state.custom_command(name), None);
    }
    assert_eq!(state.custom_command_count(), 0);
    assert_eq!(dispatch(&viewer("!ping"), &registry, &mut state), said(Notice::Pong));
}

#[test]
fn add_twice_keeps_first_text() {
    let registry = Registry::builtin();
    let mut state = BotState::new();
    let first = dispatch(&moderator("!cmd add foo bar"), &registry, &mut state);
    assert_eq!(first, said(Notice::Added));
    assert_eq!(text_of(&first), Some("command added".to_owned()));
    let second = dispatch(&moderator("!cmd add foo bar"), &registry, &mut state);
    assert_eq!(second, said(Notice::AlreadyExists));
    assert_eq!(text_of(&second), Some("already exists, use edit".to_owned()));
    let third = dispatch(&moderator("!cmd add foo other"), &registry, &mut state);
    assert_eq!(third, said(Notice::AlreadyExists));
    assert_eq!(state.custom_command("foo"), Some(&"bar".to_owned()));
    assert_eq!(state.custom_command_count(), 1);
}

#[test]
fn add_then_run_round_trip() {
    let registry = Registry::builtin();
    let mut state = BotState::new();
    let added = dispatch(&broadcaster("!cmd add foo \"hello world\""), &registry, &mut state);
    assert_eq!(added, said(Notice::Added));
    let outcome = dispatch(&viewer("!foo"), &registry, &mut state);
    assert_eq!(outcome, Outcome::Reply(Reply::Custom("hello world".to_owned())));
    assert_eq!(text_of(&outcome), Some("hello world".to_owned()));
    let outcome = dispatch(&viewer("!foo with arguments"), &registry, &mut state);
    assert_eq!(text_of(&outcome), Some("hello world".to_owned()));
}

#[test]
fn add_aliases_create_and_new() {
    let registry = Registry::builtin();
    let mut state = BotState::new();
    assert_eq!(dispatch(&moderator("!command create a one"), &registry, &mut state), said(Notice::Added));
    assert_eq!(dispatch(&moderator("!cmd new b two"), &registry, &mut state), said(Notice::Added));
    assert_eq!(state.custom_command("a"), Some(&"one".to_owned()));
    assert_eq!(state.custom_command("b"), Some(&"two".to_owned()));
    assert_eq!(state.custom_command_count(), 2);
}

#[test]
fn edit_existing_and_missing() {
    let registry = Registry::builtin();
    let mut state = BotState::new();
    let missing = dispatch(&moderator("!cmd edit foo baz"), &registry, &mut state);
    assert_eq!(missing, said(Notice::NotFoundUseAdd));
    assert_eq!(text_of(&missing), Some("command does not exist, use add".to_owned()));
    assert_eq!(state.custom_command("foo"), None);
    assert_eq!(state.custom_command_count(), 0);
    dispatch(&moderator("!cmd add foo bar"), &registry, &mut state);
    let edited = dispatch(&moderator("!cmd edit foo baz"), &registry, &mut state);
    assert_eq!(edited, said(Notice::Edited));
    assert_eq!(text_of(&edited), Some("command edited".to_owned()));
    assert_eq!(state.custom_command("foo"), Some(&"baz".to_owned()));
    assert_eq!(text_of(&dispatch(&viewer("!foo"), &registry, &mut state)), Some("baz".to_owned()));
}

#[test]
fn delete_twice() {
    let registry = Registry::builtin();
    let mut state = BotState::new();
    dispatch(&moderator("!cmd add foo bar"), &registry, &mut state);
    dispatch(&moderator("!cmd add keep me"), &registry, &mut state);
    let first = dispatch(&moderator("!cmd del foo"), &registry, &mut state);
    assert_eq!(first, said(Notice::Deleted));
    assert_eq!(text_of(&first), Some("command deleted".to_owned()));
    assert_eq!(state.custom_command("foo"), None);
    let second = dispatch(&moderator("!cmd del foo"), &registry, &mut state);
    assert_eq!(second, said(Notice::NotFound));
    assert_eq!(text_of(&second), Some("command does not exist".to_owned()));
    assert_eq!(state.custom_command("keep"), Some(&"me".to_owned()));
    assert_eq!(dispatch(&moderator("!cmd delete keep"), &registry, &mut state), said(Notice::Deleted));
    assert_eq!(dispatch(&moderator("!cmd rm keep"), &registry, &mut state), said(Notice::NotFound));
    assert_eq!(state.custom_command_count(), 0);
}

#[test]
fn command_usage_errors() {
    let registry = Registry::builtin();
    let mut state = BotState::new();
    let cases = [
        ("!cmd", Notice::MissingCmdSubcommand, "missing !cmd subcommand"),
        ("!cmd ", Notice::MissingCmdSubcommand, "missing !cmd subcommand"),
        ("!cmd frobnicate", Notice::UnknownCmdSubcommand, "unknown !cmd subcommand"),
        ("!cmd add", Notice::AddUsage, "`cmd add` takes exactly 2 arguments: command name and command text"),
        ("!cmd add foo", Notice::AddUsage, "`cmd add` takes exactly 2 arguments: command name and command text"),
        ("!cmd add foo bar baz", Notice::AddUsage, "`cmd add` takes exactly 2 arguments: command name and command text"),
        ("!cmd edit foo", Notice::EditUsage, "`cmd edit` takes exactly 2 arguments: command name and new command text"),
        ("!cmd del", Notice::DelUsage, "`cmd del` takes exactly 1 argument"),
        ("!cmd del a b", Notice::DelUsage, "`cmd del` takes exactly 1 argument"),
    ];
    for (line, notice, text) in cases {
        let outcome = dispatch(&moderator(line), &registry, &mut state);
        assert_eq!(outcome, said(notice));
        assert_eq!(text_of(&outcome), Some(text.to_owned()));
    }
    assert_eq!(state.custom_command_count(), 0);
}

#[test]
fn command_is_moderator_only() {
    let registry = Registry::builtin();
    let mut state = BotState::new();
    for line in ["!cmd add foo bar", "!cmd", "!command del foo", "!cmd add foo \"unterminated"] {
        let outcome = dispatch(&viewer(line), &registry, &mut state);
        assert_eq!(outcome, said(Notice::PermissionDenied));
        assert_eq!(text_of(&outcome), Some("this subcommand is moderator-only".to_owned()));
    }
    assert_eq!(state.custom_command_count(), 0);
}

#[test]
fn arena_set_and_show() {
    let registry = Registry::builtin();
    let mut state = BotState::new();
    let empty = dispatch(&viewer("!arena"), &registry, &mut state);
    assert_eq!(empty, said(Notice::NoArena));
    assert_eq!(
        text_of(&empty),
        Some("no arena running, Fenhl will open one after this game/tourney".to_owned())
    );
    let refused = dispatch(&viewer("!arena set myid"), &registry, &mut state);
    assert_eq!(refused, said(Notice::PermissionDenied));
    assert_eq!(state.session_id(), None);
    let set = dispatch(&moderator("!arena set myid"), &registry, &mut state);
    assert_eq!(set, said(Notice::ArenaUpdated));
    assert_eq!(text_of(&set), Some("arena ID updated".to_owned()));
    assert_eq!(state.session_id(), Some(&"myid".to_owned()));
    let refused = dispatch(&viewer("!id set other"), &registry, &mut state);
    assert_eq!(refused, said(Notice::PermissionDenied));
    assert_eq!(state.session_id(), Some(&"myid".to_owned()));
    let shown = dispatch(&viewer("!arena"), &registry, &mut state);
    assert_eq!(shown, Outcome::Reply(Reply::ArenaId("myid".to_owned())));
    let text = text_of(&shown).unwrap();
    assert!(text.contains("myid"));
    assert_eq!(text, "arena ID: myid \u{2022} password: 4813");
    let shown = dispatch(&viewer("!id"), &registry, &mut state);
    assert_eq!(shown, Outcome::Reply(Reply::ArenaId("myid".to_owned())));
}

#[test]
fn arena_set_replaces_and_clears() {
    let registry = Registry::builtin();
    let mut state = BotState::new();
    dispatch(&broadcaster("!arena set one"), &registry, &mut state);
    dispatch(&broadcaster("!arena set two ignored"), &registry, &mut state);
    assert_eq!(state.session_id(), Some(&"two".to_owned()));
    assert_eq!(dispatch(&broadcaster("!arena set"), &registry, &mut state), said(Notice::ArenaUpdated));
    assert_eq!(state.session_id(), None);
}

#[test]
fn arena_unknown_subcommand() {
    let registry = Registry::builtin();
    let mut state = BotState::new();
    for line in [viewer("!arena open"), moderator("!arena open")] {
        let outcome = dispatch(&line, &registry, &mut state);
        assert_eq!(outcome, said(Notice::UnknownArenaSubcommand));
        assert_eq!(text_of(&outcome), Some("unknown !arena subcommand".to_owned()));
    }
    assert_eq!(state.session_id(), None);
}

#[test]
fn malformed_arguments_fail_without_change() {
    let registry = Registry::builtin();
    let mut state = BotState::new();
    dispatch(&moderator("!arena set before"), &registry, &mut state);
    let outcome = dispatch(&moderator("!cmd add name \"unterminated"), &registry, &mut state);
    assert_eq!(outcome, Outcome::Failed(TokenizeError));
    assert_eq!(outcome.reply(), Some(Reply::Notice(Notice::Unparsable)));
    assert_eq!(text_of(&outcome), Some("couldn't parse command arguments".to_owned()));
    assert_eq!(state.custom_command("name"), None);
    assert_eq!(state.custom_command_count(), 0);
    let outcome = dispatch(&moderator("!arena set 'open"), &registry, &mut state);
    assert_eq!(outcome, Outcome::Failed(TokenizeError));
    assert_eq!(state.session_id(), Some(&"before".to_owned()));
    let outcome = dispatch(&viewer("!arena trailing\\"), &registry, &mut state);
    assert_eq!(outcome, Outcome::Failed(TokenizeError));
    assert_eq!(TokenizeError.message(), "couldn't parse command arguments");
}

#[test]
fn plain_chat_is_ignored() {
    let registry = Registry::builtin();
    let mut state = BotState::new();
    for line in ["hello there", "", "!", "! ping", "!Ping", "!ping\tnow", "ping!", " !ping", "!ping2"] {
        let outcome = dispatch(&moderator(line), &registry, &mut state);
        assert_eq!(outcome, Outcome::Ignored);
        assert_eq!(outcome.reply(), None);
        assert_eq!(plan(&moderator(line), &registry), Action::Ignore);
    }
}

#[test]
fn unknown_command_is_logged() {
    let registry = Registry::builtin();
    let mut state = BotState::new();
    let outcome = dispatch(&viewer("!unknowncmd"), &registry, &mut state);
    assert_eq!(
        outcome,
        Outcome::Unknown { name: "unknowncmd".to_owned(), raw_text: "!unknowncmd".to_owned() }
    );
    assert_eq!(outcome.reply(), Some(Reply::Notice(Notice::UnknownCommand)));
    assert_eq!(text_of(&outcome), Some("unknown command".to_owned()));
    let outcome = dispatch(&viewer("!unknowncmd with \"args"), &registry, &mut state);
    assert_eq!(
        outcome,
        Outcome::Unknown {
            name: "unknowncmd".to_owned(),
            raw_text: "!unknowncmd with \"args".to_owned(),
        }
    );
    assert_eq!(state.custom_command_count(), 0);
}

#[test]
fn plan_names_the_access_it_needs() {
    let registry = Registry::builtin();
    let cases = [
        ("hello", Access::Nothing),
        ("!ping", Access::Nothing),
        ("!cmd add a", Access::Nothing),
        ("!arena", Access::Shared),
        ("!foo", Access::Shared),
        ("!arena set x", Access::Exclusive),
        ("!cmd add a b", Access::Exclusive),
        ("!cmd edit a b", Access::Exclusive),
        ("!cmd del a", Access::Exclusive),
    ];
    for (line, access) in cases {
        assert_eq!(plan(&moderator(line), &registry).access(), access);
    }
    assert_eq!(
        plan(&moderator("!cmd add a b"), &registry),
        Action::Add { name: "a".to_owned(), text: "b".to_owned() }
    );
    assert_eq!(
        plan(&viewer("!foo bar"), &registry),
        Action::RunCustom { name: "foo".to_owned(), raw_text: "!foo bar".to_owned() }
    );
}

#[test]
fn shared_answers_match_exclusive_ones() {
    let registry = Registry::builtin();
    let mut state = BotState::new();
    dispatch(&moderator("!cmd add foo bar"), &registry, &mut state);
    dispatch(&moderator("!arena set abc"), &registry, &mut state);
    for line in ["!foo", "!arena", "!nope", "!ping", "chat"] {
        let action = plan(&viewer(line), &registry);
        assert_ne!(action.access(), Access::Exclusive);
        let shared = state.answer(action.clone());
        let exclusive = state.apply(action);
        assert_eq!(shared, exclusive);
    }
    assert_eq!(state.custom_command("foo"), Some(&"bar".to_owned()));
    assert_eq!(state.session_id(), Some(&"abc".to_owned()));
}

#[test]
fn run_builtin_without_remainder_has_no_arguments() {
    let registry = Registry::builtin();
    assert_eq!(run_builtin(Builtin::Arena, &None, false, &registry), Action::ShowArena);
    assert_eq!(
        run_builtin(Builtin::Command, &None, true, &registry),
        Action::Say(Reply::Notice(Notice::MissingCmdSubcommand))
    );
    assert_eq!(
        run_builtin(Builtin::Arena, &Some("set \"a b\"".to_owned()), true, &registry),
        Action::SetArena(Some("a b".to_owned()))
    );
}

#[test]
fn store_handles_lines_in_order() {
    let registry = Registry::builtin();
    let store = piuda_twitch::store::StateStore::new();
    assert_eq!(store.handle(&viewer("!ping"), &registry), said(Notice::Pong));
    assert_eq!(store.handle(&viewer("chat"), &registry), Outcome::Ignored);
    assert_eq!(store.handle(&viewer("!arena"), &registry), said(Notice::NoArena));
    assert_eq!(store.handle(&moderator("!cmd add foo \"hello world\""), &registry), said(Notice::Added));
    assert_eq!(store.handle(&moderator("!cmd add foo again"), &registry), said(Notice::AlreadyExists));
    assert_eq!(
        store.handle(&viewer("!foo"), &registry),
        Outcome::Reply(Reply::Custom("hello world".to_owned()))
    );
    assert_eq!(store.handle(&viewer("!arena set x"), &registry), said(Notice::PermissionDenied));
    assert_eq!(store.handle(&broadcaster("!arena set x"), &registry), said(Notice::ArenaUpdated));
    assert_eq!(store.handle(&viewer("!id"), &registry), Outcome::Reply(Reply::ArenaId("x".to_owned())));
    assert_eq!(store.handle(&moderator("!cmd del foo"), &registry), said(Notice::Deleted));
    assert_eq!(
        store.handle(&viewer("!foo"), &registry),
        Outcome::Unknown { name: "foo".to_owned(), raw_text: "!foo".to_owned() }
    );
    assert_eq!(store.handle(&moderator("!cmd add a 'b"), &registry), Outcome::Failed(TokenizeError));
}

#[test]
fn settle_needs_no_state() {
    let registry = Registry::builtin();
    assert_eq!(plan(&viewer("!ping"), &registry).settle(), said(Notice::Pong));
    assert_eq!(plan(&viewer("hi"), &registry).settle(), Outcome::Ignored);
    assert_eq!(plan(&broadcaster("!cmd add \"x"), &registry).settle(), Outcome::Failed(TokenizeError));
}

#[test]
fn new_store_starts_empty() {
    let registry = Registry::builtin();
    let store = piuda_twitch::store::StateStore::new();
    assert_eq!(store.handle(&viewer("!arena"), &registry), said(Notice::NoArena));
    assert_eq!(
        store.handle(&viewer("!foo"), &registry),
        Outcome::Unknown { name: "foo".to_owned(), raw_text: "!foo".to_owned() }
    );
    assert_eq!(store.handle(&moderator("!cmd del foo"), &registry), said(Notice::NotFound));
    assert_eq!(store.handle(&moderator("!cmd edit foo x"), &registry), said(Notice::NotFoundUseAdd));
}
