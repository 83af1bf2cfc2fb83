//! Splitting a command's arguments into words, with shell-like quoting.

use vstd::prelude::*;
use crate::reply::Notice;

verus! {

/// The arguments of a command could not be split into words: a quote is not
/// closed, or the text ends in a lone backslash.
#[derive(Debug, Clone, Copy, PartialEq, Eq)]
pub struct TokenizeError;

impl TokenizeError {
    /// What is said in chat when a command's arguments cannot be split.
    pub fn message(&self) -> (text: String)
        ensures
            text@ == Notice::Unparsable.text_spec(),
    {
        Notice::Unparsable.text().to_owned()
    }
}

/// What `shlex::split` returns on a text: the words, or `None` on malformed
/// quoting or escaping.
pub uninterp spec fn shlex_split(text: Seq<char>) -> Option<Seq<Seq<char>>>;

/// The texts of a sequence of strings.
pub open spec fn texts(words: Seq<String>) -> Seq<Seq<char>> {
    words.map_values(|word: String| word@)
}

/// Calls `shlex::split`. Trusted: the result is the one that `shlex_split`
/// names, word by word; nothing more is claimed of it.
#[verifier::external_body]
fn split_words(text: &str) -> (words: Option<Vec<String>>)
    ensures
        match words {
            Some(words) => shlex_split(text@) == Some(texts(words@)),
            None => shlex_split(text@) is None,
        },
{
    shlex::split(text)
}

/// Splits `text` into words on whitespace outside quotes, honouring single
/// and double quotes and backslash escapes.
pub fn tokenize(text: &str) -> (words: Result<Vec<String>, TokenizeError>)
    ensures
        match words {
            Ok(words) => shlex_split(text@) == Some(texts(words@)),
            Err(_) => shlex_split(text@) is None,
        },
{
    match split_words(text) {
        Some(words) => Ok(words),
        None => Err(TokenizeError),
    }
}

} // verus!
