//! What a chat line asks of the bot, and what comes of it.

use vstd::prelude::*;
use crate::reply::{Notice, Reply, ReplyView};
use crate::state::{BotState, BotStateView};
use crate::tokenizer::TokenizeError;

verus! {

/// What a chat line asks for, decided without looking at the bot's state.
#[derive(Debug, Clone, PartialEq, Eq)]
pub enum Action {
    /// The line is no command: nothing is said, nothing is logged.
    Ignore,
    /// The reply is known already.
    Say(Reply),
    /// The arguments could not be split into words.
    Fail(TokenizeError),
    /// Report the arena identifier.
    ShowArena,
    /// Run the custom command `name`, or report the line as unknown.
    RunCustom { name: String, raw_text: String },
    /// Set the arena identifier, or clear it.
    SetArena(Option<String>),
    /// Add the custom command `name`.
    Add { name: String, text: String },
    /// Change the text of the custom command `name`.
    Edit { name: String, text: String },
    /// Delete the custom command `name`.
    Delete { name: String },
}

/// An action, with texts in place of strings.
pub enum ActionView {
    Ignore,
    Say(ReplyView),
    Fail(TokenizeError),
    ShowArena,
    RunCustom { name: Seq<char>, raw_text: Seq<char> },
    SetArena(Option<Seq<char>>),
    Add { name: Seq<char>, text: Seq<char> },
    Edit { name: Seq<char>, text: Seq<char> },
    Delete { name: Seq<char> },
}

/// How an action touches the bot's state.
#[derive(Debug, Clone, Copy, PartialEq, Eq, Structural)]
pub enum Access {
    /// Not at all.
    Nothing,
    /// It reads: it can run beside other readers.
    Shared,
    /// It may change the state: it runs alone.
    Exclusive,
}

/// What the host does for one chat line.
#[derive(Debug, Clone, PartialEq, Eq)]
pub enum Outcome {
    /// Nothing.
    Ignored,
    /// Send the reply.
    Reply(Reply),
    /// Say that the command is unknown, and log the name with the line.
    Unknown { name: String, raw_text: String },
    /// Report that the arguments could not be split into words.
    Failed(TokenizeError),
}

/// An outcome, with texts in place of strings.
pub enum OutcomeView {
    Ignored,
    Reply(ReplyView),
    Unknown { name: Seq<char>, raw_text: Seq<char> },
    Failed(TokenizeError),
}

impl View for Action {
    type V = ActionView;

    open spec fn view(&self) -> ActionView {
        match self {
            Action::Ignore => ActionView::Ignore,
            Action::Say(reply) => ActionView::Say(reply@),
            Action::Fail(error) => ActionView::Fail(*error),
            Action::ShowArena => ActionView::ShowArena,
            Action::RunCustom { name, raw_text } => ActionView::RunCustom {
                name: name@,
                raw_text: raw_text@,
            },
            Action::SetArena(Some(id)) => ActionView::SetArena(Some(id@)),
            Action::SetArena(None) => ActionView::SetArena(None),
            Action::Add { name, text } => ActionView::Add { name: name@, text: text@ },
            Action::Edit { name, text } => ActionView::Edit { name: name@, text: text@ },
            Action::Delete { name } => ActionView::Delete { name: name@ },
        }
    }
}

impl View for Outcome {
    type V = OutcomeView;

    open spec fn view(&self) -> OutcomeView {
        match self {
            Outcome::Ignored => OutcomeView::Ignored,
            Outcome::Reply(reply) => OutcomeView::Reply(reply@),
            Outcome::Unknown { name, raw_text } => OutcomeView::Unknown {
                name: name@,
                raw_text: raw_text@,
            },
            Outcome::Failed(error) => OutcomeView::Failed(*error),
        }
    }
}

impl ActionView {
    pub open spec fn access(self) -> Access {
        match self {
            ActionView::Ignore | ActionView::Say(_) | ActionView::Fail(_) => Access::Nothing,
            ActionView::ShowArena | ActionView::RunCustom { .. } => Access::Shared,
            _ => Access::Exclusive,
        }
    }

    /// The action keeps the built-in commands unshadowed: it adds or edits
    /// no custom command under one of `names`.
    pub open spec fn spares(self, names: Set<Seq<char>>) -> bool {
        match self {
            ActionView::Add { name, .. } | ActionView::Edit { name, .. } => !names.contains(name),
            _ => true,
        }
    }
}

impl OutcomeView {
    /// What is said in chat: the reply; for an unknown command and for
    /// arguments that could not be split, that this is so; for a line that
    /// is ignored, nothing.
    pub open spec fn reply(self) -> Option<ReplyView> {
        match self {
            OutcomeView::Ignored => None,
            OutcomeView::Reply(reply) => Some(reply),
            OutcomeView::Unknown { .. } => Some(ReplyView::Notice(Notice::UnknownCommand)),
            OutcomeView::Failed(_) => Some(ReplyView::Notice(Notice::Unparsable)),
        }
    }

    /// What is handed to the log of unknown commands: the name and the line.
    pub open spec fn logged(self) -> Option<(Seq<char>, Seq<char>)> {
        match self {
            OutcomeView::Unknown { name, raw_text } => Some((name, raw_text)),
            _ => None,
        }
    }
}

pub open spec fn notice(kind: Notice) -> OutcomeView {
    OutcomeView::Reply(ReplyView::Notice(kind))
}

/// The state after an action.
pub open spec fn state_after(state: BotStateView, action: ActionView) -> BotStateView {
    let commands = state.custom_commands;
    match action {
        ActionView::SetArena(id) => BotStateView { session_id: id, ..state },
        ActionView::Add { name, text } => if commands.contains_key(name) {
            state
        } else {
            BotStateView { custom_commands: commands.insert(name, text), ..state }
        },
        ActionView::Edit { name, text } => if commands.contains_key(name) {
            BotStateView { custom_commands: commands.insert(name, text), ..state }
        } else {
            state
        },
        ActionView::Delete { name } => BotStateView {
            custom_commands: commands.remove(name),
            ..state
        },
        _ => state,
    }
}

/// What comes of an action in a state.
pub open spec fn outcome_of(state: BotStateView, action: ActionView) -> OutcomeView {
    let commands = state.custom_commands;
    match action {
        ActionView::Ignore => OutcomeView::Ignored,
        ActionView::Say(reply) => OutcomeView::Reply(reply),
        ActionView::Fail(error) => OutcomeView::Failed(error),
        ActionView::ShowArena => match state.session_id {
            Some(id) => OutcomeView::Reply(ReplyView::ArenaId(id)),
            None => notice(Notice::NoArena),
        },
        ActionView::RunCustom { name, raw_text } => if commands.contains_key(name) {
            OutcomeView::Reply(ReplyView::Custom(commands[name]))
        } else {
            OutcomeView::Unknown { name, raw_text }
        },
        ActionView::SetArena(_) => notice(Notice::ArenaUpdated),
        ActionView::Add { name, .. } => if commands.contains_key(name) {
            notice(Notice::AlreadyExists)
        } else {
            notice(Notice::Added)
        },
        ActionView::Edit { name, .. } => if commands.contains_key(name) {
            notice(Notice::Edited)
        } else {
            notice(Notice::NotFoundUseAdd)
        },
        ActionView::Delete { name } => if commands.contains_key(name) {
            notice(Notice::Deleted)
        } else {
            notice(Notice::NotFound)
        },
    }
}

impl Action {
    /// How the action touches the bot's state.
    pub fn access(&self) -> (access: Access)
        ensures
            access == self@.access(),
    {
        match self {
            Action::Ignore | Action::Say(_) | Action::Fail(_) => Access::Nothing,
            Action::ShowArena | Action::RunCustom { .. } => Access::Shared,
            _ => Access::Exclusive,
        }
    }

    /// The outcome of an action that does not touch the state: the same
    /// in every state.
    pub fn settle(self) -> (outcome: Outcome)
        requires
            self@.access() == Access::Nothing,
        ensures
            forall|state: BotStateView| outcome@ == #[trigger] outcome_of(state, self@),
    {
        match self {
            Action::Say(reply) => Outcome::Reply(reply),
            Action::Fail(error) => Outcome::Failed(error),
            _ => Outcome::Ignored,
        }
    }
}

impl Outcome {
    /// What is said in chat, if anything.
    pub fn reply(&self) -> (reply: Option<Reply>)
        ensures
            match reply {
                Some(reply) => self@.reply() == Some(reply@),
                None => self@.reply() is None,
            },
    {
        match self {
            Outcome::Reply(Reply::Notice(notice)) => Some(Reply::Notice(*notice)),
            Outcome::Reply(Reply::ArenaId(id)) => Some(Reply::ArenaId(id.clone())),
            Outcome::Reply(Reply::Custom(text)) => Some(Reply::Custom(text.clone())),
            Outcome::Unknown { .. } => Some(Reply::Notice(Notice::UnknownCommand)),
            Outcome::Failed(_) => Some(Reply::Notice(Notice::Unparsable)),
            Outcome::Ignored => None,
        }
    }
}

impl BotState {
    /// Answers an action that changes nothing, from a shared view of the
    /// state.
    pub fn answer(&self, action: Action) -> (outcome: Outcome)
        requires
            action@.access() != Access::Exclusive,
        ensures
            outcome@ == outcome_of(self@, action@),
    {
        match action {
            Action::ShowArena => match self.session_id() {
                Some(id) => Outcome::Reply(Reply::ArenaId(id.clone())),
                None => Outcome::Reply(Reply::Notice(Notice::NoArena)),
            },
            Action::RunCustom { name, raw_text } => match self.custom_command(name.as_str()) {
                Some(text) => Outcome::Reply(Reply::Custom(text.clone())),
                None => Outcome::Unknown { name, raw_text },
            },
            other => other.settle(),
        }
    }

    /// Carries out an action, with the state held exclusively. The state
    /// changes only where a command is added, edited or deleted, or the
    /// arena is set; each change is a single step, made after every check.
    pub fn apply(&mut self, action: Action) -> (outcome: Outcome)
        ensures
            final(self)@ == state_after(old(self)@, action@),
            outcome@ == outcome_of(old(self)@, action@),
    {
        match action {
            Action::SetArena(id) => {
                self.set_session_id(id);
                assert(self@ == state_after(old(self)@, action@));
                Outcome::Reply(Reply::Notice(Notice::ArenaUpdated))
            },
            Action::Add { name, text } => {
                if self.custom_command(name.as_str()).is_some() {
                    Outcome::Reply(Reply::Notice(Notice::AlreadyExists))
                } else {
                    self.insert_command(name, text);
                    assert(self@ == state_after(old(self)@, action@));
                    Outcome::Reply(Reply::Notice(Notice::Added))
                }
            },
            Action::Edit { name, text } => {
                if self.custom_command(name.as_str()).is_some() {
                    self.insert_command(name, text);
                    assert(self@ == state_after(old(self)@, action@));
                    Outcome::Reply(Reply::Notice(Notice::Edited))
                } else {
                    Outcome::Reply(Reply::Notice(Notice::NotFoundUseAdd))
                }
            },
            Action::Delete { name } => {
                let known = self.custom_command(name.as_str()).is_some();
                self.remove_command(name.as_str());
                assert(self@ == state_after(old(self)@, action@));
                if known {
                    Outcome::Reply(Reply::Notice(Notice::Deleted))
                } else {
                    Outcome::Reply(Reply::Notice(Notice::NotFound))
                }
            },
            other => self.answer(other),
        }
    }
}

} // verus!
