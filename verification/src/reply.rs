//! What the bot says in chat.

use vstd::prelude::*;

verus! {

/// A reply with a fixed text.
#[derive(Debug, Clone, Copy, PartialEq, Eq, Structural)]
pub enum Notice {
    /// `ping` was called.
    Pong,
    /// The arena identifier was set.
    ArenaUpdated,
    /// The sender is neither the broadcaster nor a moderator.
    PermissionDenied,
    /// `arena` was called with a subcommand it does not have.
    UnknownArenaSubcommand,
    /// No arena identifier is set.
    NoArena,
    /// A custom command would have shadowed a built-in one.
    NameCollision,
    /// The custom command to add is there already.
    AlreadyExists,
    /// A custom command was added.
    Added,
    /// A custom command was edited.
    Edited,
    /// The custom command to edit is not there.
    NotFoundUseAdd,
    /// A custom command was deleted.
    Deleted,
    /// The custom command to delete is not there.
    NotFound,
    /// `add` was called with more or fewer than two arguments.
    AddUsage,
    /// `edit` was called with more or fewer than two arguments.
    EditUsage,
    /// `del` was called with more or fewer than one argument.
    DelUsage,
    /// `command` was called with a subcommand it does not have.
    UnknownCmdSubcommand,
    /// `command` was called without a subcommand.
    MissingCmdSubcommand,
    /// The line names no command, built in or custom.
    UnknownCommand,
    /// The arguments of a command could not be split into words.
    Unparsable,
}

impl Notice {
    /// The text of each fixed reply.
    pub open spec fn text_spec(self) -> Seq<char> {
        match self {
            Notice::Pong => "pong"@,
            Notice::ArenaUpdated => "arena ID updated"@,
            Notice::PermissionDenied => "this subcommand is moderator-only"@,
            Notice::UnknownArenaSubcommand => "unknown !arena subcommand"@,
            Notice::NoArena => "no arena running, Fenhl will open one after this game/tourney"@,
            Notice::NameCollision => "built-in command, can't overwrite"@,
            Notice::AlreadyExists => "already exists, use edit"@,
            Notice::Added => "command added"@,
            Notice::Edited => "command edited"@,
            Notice::NotFoundUseAdd => "command does not exist, use add"@,
            Notice::Deleted => "command deleted"@,
            Notice::NotFound => "command does not exist"@,
            Notice::AddUsage => "`cmd add` takes exactly 2 arguments: command name and command text"@,
            Notice::EditUsage => "`cmd edit` takes exactly 2 arguments: command name and new command text"@,
            Notice::DelUsage => "`cmd del` takes exactly 1 argument"@,
            Notice::UnknownCmdSubcommand => "unknown !cmd subcommand"@,
            Notice::MissingCmdSubcommand => "missing !cmd subcommand"@,
            Notice::UnknownCommand => "unknown command"@,
            Notice::Unparsable => "couldn't parse command arguments"@,
        }
    }

    /// The text of the reply.
    pub fn text(&self) -> (text: &'static str)
        ensures
            text@ == self.text_spec(),
    {
        match self {
            Notice::Pong => "pong",
            Notice::ArenaUpdated => "arena ID updated",
            Notice::PermissionDenied => "this subcommand is moderator-only",
            Notice::UnknownArenaSubcommand => "unknown !arena subcommand",
            Notice::NoArena => "no arena running, Fenhl will open one after this game/tourney",
            Notice::NameCollision => "built-in command, can't overwrite",
            Notice::AlreadyExists => "already exists, use edit",
            Notice::Added => "command added",
            Notice::Edited => "command edited",
            Notice::NotFoundUseAdd => "command does not exist, use add",
            Notice::Deleted => "command deleted",
            Notice::NotFound => "command does not exist",
            Notice::AddUsage => "`cmd add` takes exactly 2 arguments: command name and command text",
            Notice::EditUsage => "`cmd edit` takes exactly 2 arguments: command name and new command text",
            Notice::DelUsage => "`cmd del` takes exactly 1 argument",
            Notice::UnknownCmdSubcommand => "unknown !cmd subcommand",
            Notice::MissingCmdSubcommand => "missing !cmd subcommand",
            Notice::UnknownCommand => "unknown command",
            Notice::Unparsable => "couldn't parse command arguments",
        }
    }
}

/// A reply to one chat line.
#[derive(Debug, Clone, PartialEq, Eq)]
pub enum Reply {
    /// One of the fixed texts.
    Notice(Notice),
    /// The arena identifier, with the password beside it.
    ArenaId(String),
    /// The text of a custom command, verbatim.
    Custom(String),
}

/// A reply, with texts in place of strings.
pub enum ReplyView {
    Notice(Notice),
    ArenaId(Seq<char>),
    Custom(Seq<char>),
}

impl View for Reply {
    type V = ReplyView;

    open spec fn view(&self) -> ReplyView {
        match self {
            Reply::Notice(notice) => ReplyView::Notice(*notice),
            Reply::ArenaId(id) => ReplyView::ArenaId(id@),
            Reply::Custom(text) => ReplyView::Custom(text@),
        }
    }
}

impl ReplyView {
    /// The line that is sent to chat.
    pub open spec fn text(self) -> Seq<char> {
        match self {
            ReplyView::Notice(notice) => notice.text_spec(),
            ReplyView::ArenaId(id) => "arena ID: "@ + id + " \u{2022} password: 4813"@,
            ReplyView::Custom(text) => text,
        }
    }
}

impl Reply {
    /// The line that is sent to chat.
    pub fn text(&self) -> (text: String)
        ensures
            text@ == self@.text(),
    {
        match self {
            Reply::Notice(notice) => notice.text().to_owned(),
            Reply::ArenaId(id) => {
                let mut text = "arena ID: ".to_owned();
                text.append(id.as_str());
                text.append(" \u{2022} password: 4813");
                text
            },
            Reply::Custom(text) => text.clone(),
        }
    }
}

} // verus!
