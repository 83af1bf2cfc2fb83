//! What holds of the dispatcher on every line and in every state.

use vstd::prelude::*;
use crate::action::{notice, outcome_of, state_after, Access, ActionView, OutcomeView};
use crate::dispatch::{builtin_action, plan_of};
use crate::handlers::{arena_action, command_action, is_add, say};
use crate::line::command_shape;
use crate::registry::Builtin;
use crate::reply::{Notice, ReplyView};
use crate::state::BotStateView;
use crate::tokenizer::shlex_split;

verus! {

/// Whether `part` stands somewhere in `text`.
pub open spec fn holds(text: Seq<char>, part: Seq<char>) -> bool {
    exists|at: int|
        0 <= at && at + part.len() <= text.len() && #[trigger] text.subrange(
            at,
            at + part.len(),
        ) == part
}

/// A line whose name is registered goes to its built-in command: the
/// custom commands are not asked for that name, whatever they hold, and
/// the line is not reported as unknown.
pub proof fn lemma_builtin_takes_precedence(
    state: BotStateView,
    text: Seq<char>,
    privileged: bool,
    registry: Map<Seq<char>, Builtin>,
)
    requires
        command_shape(text) is Some,
        registry.contains_key(command_shape(text)->0.name),
    ensures
        !(plan_of(text, privileged, registry) is RunCustom),
        !(outcome_of(state, plan_of(text, privileged, registry)) is Unknown),
        outcome_of(state, plan_of(text, privileged, registry)).reply() matches Some(reply)
            ==> !(reply is Custom),
{
}

/// Adding or editing a custom command under a registered name is refused,
/// and the state stays as it is.
pub proof fn lemma_builtin_name_is_refused(
    state: BotStateView,
    args: Seq<Seq<char>>,
    names: Set<Seq<char>>,
)
    requires
        args.len() == 3,
        is_add(args[0]) || args[0] == "edit"@,
        names.contains(args[1]),
    ensures
        command_action(args, true, names) == say(Notice::NameCollision),
        state_after(state, command_action(args, true, names)) == state,
{
}

/// No line adds or edits a custom command under a registered name.
pub proof fn lemma_plan_spares_builtins(
    text: Seq<char>,
    privileged: bool,
    registry: Map<Seq<char>, Builtin>,
)
    ensures
        plan_of(text, privileged, registry).spares(registry.dom()),
{
}

/// Where no custom command has a registered name, none has after any line.
pub proof fn lemma_builtins_stay_unshadowed(
    state: BotStateView,
    text: Seq<char>,
    privileged: bool,
    registry: Map<Seq<char>, Builtin>,
)
    requires
        state.respects(registry.dom()),
    ensures
        state_after(state, plan_of(text, privileged, registry)).respects(registry.dom()),
{
    lemma_plan_spares_builtins(text, privileged, registry);
}

/// An action that asks for no access, or for shared access only, leaves
/// the state as it is.
pub proof fn lemma_only_exclusive_actions_change_state(state: BotStateView, action: ActionView)
    requires
        action.access() != Access::Exclusive,
    ensures
        state_after(state, action) == state,
{
}

/// Adding a command a second time is answered with "already exists" and
/// changes nothing: the text of the first time stays.
pub proof fn lemma_add_twice(
    state: BotStateView,
    name: Seq<char>,
    first: Seq<char>,
    second: Seq<char>,
)
    ensures
        ({
            let once = state_after(state, ActionView::Add { name, text: first });
            let again = ActionView::Add { name, text: second };
            &&& once.custom_commands.contains_key(name)
            &&& !state.custom_commands.contains_key(name) ==> once.custom_commands[name] == first
            &&& outcome_of(once, again) == notice(Notice::AlreadyExists)
            &&& state_after(once, again) == once
        }),
{
}

/// A command that was added is run under its name and replies with the
/// text it was added with, letter for letter.
pub proof fn lemma_add_then_run(
    state: BotStateView,
    name: Seq<char>,
    text: Seq<char>,
    raw_text: Seq<char>,
)
    requires
        !state.custom_commands.contains_key(name),
    ensures
        ({
            let added = state_after(state, ActionView::Add { name, text });
            let outcome = outcome_of(added, ActionView::RunCustom { name, raw_text });
            &&& outcome_of(state, ActionView::Add { name, text }) == notice(Notice::Added)
            &&& outcome == OutcomeView::Reply(ReplyView::Custom(text))
            &&& outcome.reply()->0.text() == text
            &&& outcome.logged() is None
        }),
{
}

/// Editing a command that exists changes its text and nothing else;
/// editing one that does not exist stores nothing.
pub proof fn lemma_edit(state: BotStateView, name: Seq<char>, text: Seq<char>)
    ensures
        ({
            let edit = ActionView::Edit { name, text };
            let after = state_after(state, edit);
            if state.custom_commands.contains_key(name) {
                &&& outcome_of(state, edit) == notice(Notice::Edited)
                &&& after.custom_commands == state.custom_commands.insert(name, text)
                &&& after.custom_commands[name] == text
                &&& after.session_id == state.session_id
            } else {
                &&& outcome_of(state, edit) == notice(Notice::NotFoundUseAdd)
                &&& after == state
            }
        }),
{
}

/// Deleting a command removes it and nothing else, and deleting it again
/// is answered with "command does not exist".
pub proof fn lemma_delete_twice(state: BotStateView, name: Seq<char>)
    ensures
        ({
            let delete = ActionView::Delete { name };
            let once = state_after(state, delete);
            &&& outcome_of(state, delete) == (if state.custom_commands.contains_key(name) {
                notice(Notice::Deleted)
            } else {
                notice(Notice::NotFound)
            })
            &&& once.custom_commands == state.custom_commands.remove(name)
            &&& once.session_id == state.session_id
            &&& outcome_of(once, delete) == notice(Notice::NotFound)
            &&& state_after(once, delete).custom_commands == once.custom_commands
        }),
{
    let once = state_after(state, ActionView::Delete { name });
    assert(once.custom_commands.remove(name) =~= once.custom_commands);
}

/// `arena set` from a sender who is not privileged leaves the arena
/// identifier as it was.
pub proof fn lemma_arena_set_is_moderator_only(state: BotStateView, args: Seq<Seq<char>>)
    requires
        args.len() > 0,
        args[0] == "set"@,
    ensures
        arena_action(args, false) == say(Notice::PermissionDenied),
        state_after(state, arena_action(args, false)) == state,
        outcome_of(state, arena_action(args, false)) == notice(Notice::PermissionDenied),
{
}

/// `arena set` from a privileged sender stores the identifier, and `arena`
/// alone then replies with a line that holds it.
pub proof fn lemma_arena_set_then_show(state: BotStateView, args: Seq<Seq<char>>)
    requires
        args.len() >= 2,
        args[0] == "set"@,
    ensures
        ({
            let set = arena_action(args, true);
            let after = state_after(state, set);
            let shown = outcome_of(after, arena_action(Seq::empty(), true));
            &&& outcome_of(state, set) == notice(Notice::ArenaUpdated)
            &&& after.session_id == Some(args[1])
            &&& after.custom_commands == state.custom_commands
            &&& shown == OutcomeView::Reply(ReplyView::ArenaId(args[1]))
            &&& holds(shown.reply()->0.text(), args[1])
        }),
{
    reveal_strlit("arena ID: ");
    let text = ReplyView::ArenaId(args[1]).text();
    assert(text.subrange(10, 10 + args[1].len() as int) =~= args[1]);
}

/// Where the arguments of `arena` or `command` cannot be split into words,
/// the command fails with that error and the state stays as it is.
pub proof fn lemma_malformed_arguments_change_nothing(
    state: BotStateView,
    handler: Builtin,
    rest: Seq<char>,
    privileged: bool,
    names: Set<Seq<char>>,
)
    requires
        shlex_split(rest) is None,
        handler == Builtin::Arena || (handler == Builtin::Command && privileged),
    ensures
        builtin_action(handler, Some(rest), privileged, names) is Fail,
        state_after(state, builtin_action(handler, Some(rest), privileged, names)) == state,
        outcome_of(state, builtin_action(handler, Some(rest), privileged, names)) is Failed,
        outcome_of(state, builtin_action(handler, Some(rest), privileged, names)).reply() == Some(
            ReplyView::Notice(Notice::Unparsable),
        ),
{
}

/// A line that does not start with `!` is ignored: nothing is said and
/// nothing is logged, and the state stays as it is.
pub proof fn lemma_plain_chat_is_ignored(
    state: BotStateView,
    text: Seq<char>,
    privileged: bool,
    registry: Map<Seq<char>, Builtin>,
)
    requires
        text.len() == 0 || text[0] != '!',
    ensures
        command_shape(text) is None,
        plan_of(text, privileged, registry) == ActionView::Ignore,
        outcome_of(state, plan_of(text, privileged, registry)).reply() is None,
        outcome_of(state, plan_of(text, privileged, registry)).logged() is None,
        state_after(state, plan_of(text, privileged, registry)) == state,
{
}

/// A command that is neither built in nor custom is answered with
/// "unknown command", and its name and line go to the log; the state stays
/// as it is.
pub proof fn lemma_unknown_command(
    state: BotStateView,
    text: Seq<char>,
    privileged: bool,
    registry: Map<Seq<char>, Builtin>,
)
    requires
        command_shape(text) is Some,
        !registry.contains_key(command_shape(text)->0.name),
        !state.custom_commands.contains_key(command_shape(text)->0.name),
    ensures
        ({
            let outcome = outcome_of(state, plan_of(text, privileged, registry));
            &&& outcome.reply() == Some(ReplyView::Notice(Notice::UnknownCommand))
            &&& outcome.logged() == Some((command_shape(text)->0.name, text))
            &&& state_after(state, plan_of(text, privileged, registry)) == state
        }),
{
}

} // verus!
