//! From a chat line to what the host does for it.

use vstd::prelude::*;
use crate::action::{outcome_of, state_after, Action, ActionView, Outcome};
use crate::handlers::{handler_action, run, say};
use crate::line::{command_shape, parse_command, ChatLine};
use crate::registry::{Builtin, Registry};
use crate::reply::{Notice, Reply};
use crate::state::{BotState, BotStateView};
use crate::tokenizer::{shlex_split, texts, tokenize, TokenizeError};

verus! {

/// What a built-in command asks for, given the rest of its line: without a
/// rest it has no arguments; `ping` reads none, and `command` reads none
/// for a sender who is not privileged; otherwise the rest is split into
/// words, and the command fails where that fails.
pub open spec fn builtin_action(
    handler: Builtin,
    remainder: Option<Seq<char>>,
    privileged: bool,
    names: Set<Seq<char>>,
) -> ActionView {
    if handler == Builtin::Ping {
        say(Notice::Pong)
    } else if handler == Builtin::Command && !privileged {
        say(Notice::PermissionDenied)
    } else {
        match remainder {
            None => handler_action(handler, Seq::empty(), privileged, names),
            Some(rest) => match shlex_split(rest) {
                Some(args) => handler_action(handler, args, privileged, names),
                None => ActionView::Fail(TokenizeError),
            },
        }
    }
}

/// What a chat line asks for: nothing, where it has not the shape of a
/// command; what the built-in command of that name asks for, where there
/// is one; else to run the custom command of that name.
pub open spec fn plan_of(text: Seq<char>, privileged: bool, registry: Map<Seq<char>, Builtin>)
    -> ActionView {
    match command_shape(text) {
        None => ActionView::Ignore,
        Some(line) => if registry.contains_key(line.name) {
            builtin_action(registry[line.name], line.remainder, privileged, registry.dom())
        } else {
            ActionView::RunCustom { name: line.name, raw_text: text }
        },
    }
}

/// Runs a built-in command on the rest of its line.
pub fn run_builtin(
    handler: Builtin,
    remainder: &Option<String>,
    privileged: bool,
    registry: &Registry,
) -> (action: Action)
    ensures
        action@ == builtin_action(
            handler,
            match remainder {
                Some(rest) => Some(rest@),
                None => None,
            },
            privileged,
            registry.name_set(),
        ),
{
    if handler == Builtin::Ping {
        return Action::Say(Reply::Notice(Notice::Pong));
    }
    if handler == Builtin::Command && !privileged {
        return Action::Say(Reply::Notice(Notice::PermissionDenied));
    }
    match remainder {
        None => {
            let args: Vec<String> = Vec::new();
            assert(texts(args@) =~= Seq::<Seq<char>>::empty());
            run(handler, &args, privileged, registry)
        },
        Some(rest) => match tokenize(rest.as_str()) {
            Ok(args) => run(handler, &args, privileged, registry),
            Err(error) => Action::Fail(error),
        },
    }
}

/// Decides what a chat line asks for, without looking at the bot's state.
pub fn plan(line: &ChatLine, registry: &Registry) -> (action: Action)
    ensures
        action@ == plan_of(line.raw_text@, line.sender.privileged(), registry@),
        action@.spares(registry.name_set()),
{
    match parse_command(line.raw_text.as_str()) {
        None => Action::Ignore,
        Some(command) => match registry.lookup(command.name.as_str()) {
            Some(handler) => run_builtin(
                handler,
                &command.remainder,
                line.sender.privileged(),
                registry,
            ),
            None => Action::RunCustom { name: command.name, raw_text: line.raw_text.clone() },
        },
    }
}

/// Handles one chat line from start to end, with the state held
/// exclusively.
pub fn dispatch(line: &ChatLine, registry: &Registry, state: &mut BotState) -> (outcome: Outcome)
    ensures
        final(state)@ == state_after(
            old(state)@,
            plan_of(line.raw_text@, line.sender.privileged(), registry@),
        ),
        outcome@ == outcome_of(
            old(state)@,
            plan_of(line.raw_text@, line.sender.privileged(), registry@),
        ),
        old(state)@.respects(registry.name_set()) ==> final(state)@.respects(registry.name_set()),
{
    let action = plan(line, registry);
    proof {
        if old(state)@.respects(registry.name_set()) {
            lemma_sparing_action_keeps_builtins(old(state)@, action@, registry.name_set());
        }
    }
    state.apply(action)
}

/// An action that adds or edits nothing under a built-in name leaves the
/// built-in commands unshadowed.
pub proof fn lemma_sparing_action_keeps_builtins(
    state: BotStateView,
    action: ActionView,
    names: Set<Seq<char>>,
)
    requires
        state.respects(names),
        action.spares(names),
    ensures
        state_after(state, action).respects(names),
{
}

} // verus!
