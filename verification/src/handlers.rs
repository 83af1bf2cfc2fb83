//! The built-in commands: what each asks for, given its arguments.

use vstd::prelude::*;
use crate::action::{Action, ActionView};
use crate::registry::{Builtin, Registry};
use crate::reply::{Notice, Reply, ReplyView};
use crate::tokenizer::texts;

verus! {

pub open spec fn say(kind: Notice) -> ActionView {
    ActionView::Say(ReplyView::Notice(kind))
}

/// `arena`: without arguments it shows the arena identifier; `set` stores
/// the word behind it, or clears the identifier where none follows, for
/// the broadcaster and the moderators only.
pub open spec fn arena_action(args: Seq<Seq<char>>, privileged: bool) -> ActionView {
    if args.len() == 0 {
        ActionView::ShowArena
    } else if args[0] == "set"@ {
        if !privileged {
            say(Notice::PermissionDenied)
        } else if args.len() >= 2 {
            ActionView::SetArena(Some(args[1]))
        } else {
            ActionView::SetArena(None)
        }
    } else {
        say(Notice::UnknownArenaSubcommand)
    }
}

pub open spec fn is_add(word: Seq<char>) -> bool {
    word == "add"@ || word == "create"@ || word == "new"@
}

pub open spec fn is_delete(word: Seq<char>) -> bool {
    word == "del"@ || word == "delete"@ || word == "rm"@
}

/// `command`: adds, edits or deletes a custom command, for the broadcaster
/// and the moderators only. `names` are the names of the built-in
/// commands, under which no custom command is added or edited.
pub open spec fn command_action(
    args: Seq<Seq<char>>,
    privileged: bool,
    names: Set<Seq<char>>,
) -> ActionView {
    if !privileged {
        say(Notice::PermissionDenied)
    } else if args.len() == 0 {
        say(Notice::MissingCmdSubcommand)
    } else if is_add(args[0]) {
        if args.len() != 3 {
            say(Notice::AddUsage)
        } else if names.contains(args[1]) {
            say(Notice::NameCollision)
        } else {
            ActionView::Add { name: args[1], text: args[2] }
        }
    } else if args[0] == "edit"@ {
        if args.len() != 3 {
            say(Notice::EditUsage)
        } else if names.contains(args[1]) {
            say(Notice::NameCollision)
        } else {
            ActionView::Edit { name: args[1], text: args[2] }
        }
    } else if is_delete(args[0]) {
        if args.len() != 2 {
            say(Notice::DelUsage)
        } else {
            ActionView::Delete { name: args[1] }
        }
    } else {
        say(Notice::UnknownCmdSubcommand)
    }
}

/// What a built-in command asks for, given its arguments.
pub open spec fn handler_action(
    handler: Builtin,
    args: Seq<Seq<char>>,
    privileged: bool,
    names: Set<Seq<char>>,
) -> ActionView {
    match handler {
        Builtin::Arena => arena_action(args, privileged),
        Builtin::Command => command_action(args, privileged, names),
        Builtin::Ping => say(Notice::Pong),
    }
}

fn is_word(token: &String, word: &str) -> (same: bool)
    ensures
        same == (token@ == word@),
{
    let word = word.to_owned();
    token.eq(&word)
}

fn notice(kind: Notice) -> (action: Action)
    ensures
        action@ == say(kind),
{
    Action::Say(Reply::Notice(kind))
}

/// The `arena` command.
pub fn arena(args: &Vec<String>, privileged: bool) -> (action: Action)
    ensures
        action@ == arena_action(texts(args@), privileged),
{
    if args.len() == 0 {
        Action::ShowArena
    } else if is_word(&args[0], "set") {
        if !privileged {
            notice(Notice::PermissionDenied)
        } else if args.len() >= 2 {
            Action::SetArena(Some(args[1].clone()))
        } else {
            Action::SetArena(None)
        }
    } else {
        notice(Notice::UnknownArenaSubcommand)
    }
}

/// The `command` command.
pub fn command(args: &Vec<String>, privileged: bool, registry: &Registry) -> (action: Action)
    ensures
        action@ == command_action(texts(args@), privileged, registry.name_set()),
{
    if !privileged {
        return notice(Notice::PermissionDenied);
    }
    if args.len() == 0 {
        return notice(Notice::MissingCmdSubcommand);
    }
    let keyword = &args[0];
    if is_word(keyword, "add") || is_word(keyword, "create") || is_word(keyword, "new") {
        if args.len() != 3 {
            notice(Notice::AddUsage)
        } else if registry.contains(args[1].as_str()) {
            notice(Notice::NameCollision)
        } else {
            Action::Add { name: args[1].clone(), text: args[2].clone() }
        }
    } else if is_word(keyword, "edit") {
        if args.len() != 3 {
            notice(Notice::EditUsage)
        } else if registry.contains(args[1].as_str()) {
            notice(Notice::NameCollision)
        } else {
            Action::Edit { name: args[1].clone(), text: args[2].clone() }
        }
    } else if is_word(keyword, "del") || is_word(keyword, "delete") || is_word(keyword, "rm") {
        if args.len() != 2 {
            notice(Notice::DelUsage)
        } else {
            Action::Delete { name: args[1].clone() }
        }
    } else {
        notice(Notice::UnknownCmdSubcommand)
    }
}

/// The `ping` command.
pub fn ping() -> (action: Action)
    ensures
        action@ == say(Notice::Pong),
{
    notice(Notice::Pong)
}

/// Runs a built-in command on its arguments.
pub fn run(
    handler: Builtin,
    args: &Vec<String>,
    privileged: bool,
    registry: &Registry,
) -> (action: Action)
    ensures
        action@ == handler_action(handler, texts(args@), privileged, registry.name_set()),
{
    match handler {
        Builtin::Arena => arena(args, privileged),
        Builtin::Command => command(args, privileged, registry),
        Builtin::Ping => ping(),
    }
}

} // verus!
