//! Chat lines, and the shape of those that are commands.

use vstd::prelude::*;
use vstd::string::StrSliceExecFns;

verus! {

/// Who sent a chat line.
#[derive(Debug, Clone, Copy, PartialEq, Eq, Structural)]
pub struct Sender {
    pub is_broadcaster: bool,
    pub is_moderator: bool,
}

impl Sender {
    pub open spec fn privileged_spec(self) -> bool {
        self.is_broadcaster || self.is_moderator
    }

    /// Whether the sender may change the bot's state: the broadcaster and
    /// the moderators may.
    #[verifier::when_used_as_spec(privileged_spec)]
    pub fn privileged(self) -> (r: bool)
        ensures
            r == self.privileged_spec(),
    {
        self.is_broadcaster || self.is_moderator
    }
}

/// One line of chat.
#[derive(Debug, Clone, PartialEq, Eq)]
pub struct ChatLine {
    pub raw_text: String,
    pub sender: Sender,
}

/// A chat line that has the shape of a command: `!`, a name of lowercase
/// letters and, behind one space, the rest of the line.
#[derive(Debug, Clone, PartialEq, Eq)]
pub struct CommandLine {
    pub name: String,
    pub remainder: Option<String>,
}

/// A command line, with texts in place of strings.
pub struct CommandLineView {
    pub name: Seq<char>,
    pub remainder: Option<Seq<char>>,
}

impl View for CommandLine {
    type V = CommandLineView;

    open spec fn view(&self) -> CommandLineView {
        CommandLineView {
            name: self.name@,
            remainder: match self.remainder {
                Some(rest) => Some(rest@),
                None => None,
            },
        }
    }
}

pub open spec fn is_lower(c: char) -> bool {
    'a' <= c && c <= 'z'
}

/// Where the run of lowercase letters that starts at `from` ends.
pub open spec fn letters_end(text: Seq<char>, from: int) -> int
    decreases text.len() - from,
{
    if 0 <= from < text.len() && is_lower(text[from]) {
        letters_end(text, from + 1)
    } else {
        from
    }
}

/// The command that a line holds, if it has the shape of one: `!`, one or
/// more lowercase letters, and then either the end of the line or a space
/// and a remainder without a line feed.
pub open spec fn command_shape(text: Seq<char>) -> Option<CommandLineView> {
    if text.len() >= 2 && text[0] == '!' && is_lower(text[1]) {
        let end = letters_end(text, 1);
        let rest = text.subrange(end + 1, text.len() as int);
        if end == text.len() {
            Some(CommandLineView { name: text.subrange(1, end), remainder: None })
        } else if text[end] == ' ' && !rest.contains('\n') {
            Some(CommandLineView { name: text.subrange(1, end), remainder: Some(rest) })
        } else {
            None
        }
    } else {
        None
    }
}

/// The run of letters ends inside the text, on the first character that is
/// no lowercase letter.
pub proof fn lemma_letters_end(text: Seq<char>, from: int)
    requires
        0 <= from <= text.len(),
    ensures
        from <= letters_end(text, from) <= text.len(),
        forall|i: int| from <= i < letters_end(text, from) ==> is_lower(#[trigger] text[i]),
        letters_end(text, from) < text.len() ==> !is_lower(text[letters_end(text, from)]),
    decreases text.len() - from,
{
    if from < text.len() && is_lower(text[from]) {
        lemma_letters_end(text, from + 1);
    }
}

/// The line that is written as `!`, a name and, where there is a
/// remainder, a space and the remainder.
pub open spec fn line_text(name: Seq<char>, remainder: Option<Seq<char>>) -> Seq<char> {
    match remainder {
        Some(rest) => seq!['!'] + name + seq![' '] + rest,
        None => seq!['!'] + name,
    }
}

/// What a name and a remainder must be like to make a command line: the
/// name is not empty and holds lowercase letters only, and the remainder
/// holds no line feed.
pub open spec fn well_formed(line: CommandLineView) -> bool {
    &&& line.name.len() > 0
    &&& forall|i: int| 0 <= i < line.name.len() ==> is_lower(#[trigger] line.name[i])
    &&& line.remainder matches Some(rest) ==> !rest.contains('\n')
}

/// A line that has the shape of a command is written as `!`, its name and,
/// where there is a remainder, a space and the remainder.
pub proof fn lemma_command_shape_parts(text: Seq<char>)
    requires
        command_shape(text) is Some,
    ensures
        well_formed(command_shape(text)->0),
        text == line_text(command_shape(text)->0.name, command_shape(text)->0.remainder),
{
    lemma_letters_end(text, 1);
    let line = command_shape(text)->0;
    match line.remainder {
        Some(rest) => {
            assert(text =~= seq!['!'] + line.name + seq![' '] + rest);
        },
        None => {
            assert(text =~= seq!['!'] + line.name);
        },
    }
}

/// A run of lowercase letters from `from` up to `to`, where the text ends
/// or another character stands, ends at `to`.
pub proof fn lemma_letters_run(text: Seq<char>, from: int, to: int)
    requires
        0 <= from <= to <= text.len(),
        forall|i: int| from <= i < to ==> is_lower(#[trigger] text[i]),
        to < text.len() ==> !is_lower(text[to]),
    ensures
        letters_end(text, from) == to,
    decreases to - from,
{
    if from < to {
        lemma_letters_run(text, from + 1, to);
    }
}

/// Every line written as `!`, a name of lowercase letters and, where
/// there is a remainder, a space and a remainder without a line feed has
/// the shape of a command, with that name and that remainder.
pub proof fn lemma_command_shape_complete(line: CommandLineView)
    requires
        well_formed(line),
    ensures
        command_shape(line_text(line.name, line.remainder)) == Some(line),
{
    let text = line_text(line.name, line.remainder);
    let end = 1 + line.name.len() as int;
    assert forall|i: int| 1 <= i < end implies is_lower(#[trigger] text[i]) by {
        assert(text[i] == line.name[i - 1]);
    }
    assert(text[1] == line.name[0]);
    lemma_letters_run(text, 1, end);
    assert(text.subrange(1, end) =~= line.name);
    match line.remainder {
        Some(rest) => {
            assert(text[end] == ' ');
            assert(text.subrange(end + 1, text.len() as int) =~= rest);
        },
        None => {},
    }
}

/// Reads a chat line as a command, if it has the shape of one.
pub fn parse_command(text: &str) -> (line: Option<CommandLine>)
    ensures
        match line {
            Some(line) => command_shape(text@) == Some(line@),
            None => command_shape(text@) is None,
        },
{
    let len: usize = text.unicode_len();
    if len < 2 || text.get_char(0) != '!' {
        return None;
    }
    let first: char = text.get_char(1);
    if !('a' <= first && first <= 'z') {
        return None;
    }
    let mut end: usize = 1;
    while end < len && 'a' <= text.get_char(end) && text.get_char(end) <= 'z'
        invariant
            1 <= end <= len,
            len == text@.len(),
            letters_end(text@, 1) == letters_end(text@, end as int),
        decreases len - end,
    {
        end += 1;
    }
    let name = text.substring_char(1, end).to_owned();
    if end == len {
        return Some(CommandLine { name, remainder: None });
    }
    if text.get_char(end) != ' ' {
        return None;
    }
    let mut at: usize = end + 1;
    while at < len
        invariant
            end < at <= len,
            len == text@.len(),
            letters_end(text@, 1) == end,
            forall|i: int| end < i < at ==> text@[i] != '\n',
        decreases len - at,
    {
        if text.get_char(at) == '\n' {
            proof {
                let rest = text@.subrange(end + 1, len as int);
                assert(rest[at - end - 1] == '\n');
                assert(rest.contains('\n'));
            }
            return None;
        }
        at += 1;
    }
    let rest = text.substring_char(end + 1, len).to_owned();
    Some(CommandLine { name, remainder: Some(rest) })
}

} // verus!
