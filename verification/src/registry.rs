//! The built-in commands and the names they answer to.

use vstd::prelude::*;
use vstd::hash_map::StringHashMap;
use crate::tokenizer::texts;

verus! {

/// A built-in command.
#[derive(Debug, Clone, Copy, PartialEq, Eq, Structural)]
pub enum Builtin {
    /// Shows or sets the arena identifier.
    Arena,
    /// Adds, edits and deletes custom commands.
    Command,
    /// Answers `pong`.
    Ping,
}

/// The names and aliases of the built-in commands, each with its command.
pub struct Registry {
    table: StringHashMap<Builtin>,
    names: Vec<String>,
}

impl View for Registry {
    type V = Map<Seq<char>, Builtin>;

    closed spec fn view(&self) -> Map<Seq<char>, Builtin> {
        self.table@
    }
}

/// The fixed table: `arena` with its alias `id`, `command` with its alias
/// `cmd`, and `ping`.
pub open spec fn builtin_table() -> Map<Seq<char>, Builtin> {
    Map::<Seq<char>, Builtin>::empty()
        .insert("arena"@, Builtin::Arena)
        .insert("id"@, Builtin::Arena)
        .insert("command"@, Builtin::Command)
        .insert("cmd"@, Builtin::Command)
        .insert("ping"@, Builtin::Ping)
}

/// No name of the fixed table is registered twice: each of the five names
/// leads to the command it was declared for, and no other name is known.
pub proof fn lemma_builtin_table()
    ensures
        builtin_table()["arena"@] == Builtin::Arena,
        builtin_table()["id"@] == Builtin::Arena,
        builtin_table()["command"@] == Builtin::Command,
        builtin_table()["cmd"@] == Builtin::Command,
        builtin_table()["ping"@] == Builtin::Ping,
        builtin_table().dom() =~= set!["arena"@, "id"@, "command"@, "cmd"@, "ping"@],
        builtin_table().dom().len() == 5,
{
    reveal_strlit("arena");
    reveal_strlit("id");
    reveal_strlit("command");
    reveal_strlit("cmd");
    reveal_strlit("ping");
    assert("arena"@.len() == 5 && "id"@.len() == 2 && "command"@.len() == 7 && "cmd"@.len() == 3
        && "ping"@.len() == 4);
    let names = Set::<Seq<char>>::empty().insert("arena"@).insert("id"@).insert("command"@).insert(
        "cmd"@,
    ).insert("ping"@);
    assert(builtin_table().dom() =~= names);
    assert(names =~= set!["arena"@, "id"@, "command"@, "cmd"@, "ping"@]);
}

impl Registry {
    /// The list of names holds the keys of the table, and nothing else.
    #[verifier::type_invariant]
    closed spec fn listed(&self) -> bool {
        texts(self.names@).to_set() == self.table@.dom()
    }

    /// The names that are registered, canonical names and aliases alike.
    pub open spec fn name_set(&self) -> Set<Seq<char>> {
        self@.dom()
    }

    /// The names that are registered, canonical names and aliases alike.
    pub fn names(&self) -> (names: &Vec<String>)
        ensures
            texts(names@).to_set() == self.name_set(),
    {
        proof {
            use_type_invariant(self);
        }
        &self.names
    }

    /// The registry of the built-in commands.
    pub fn builtin() -> (registry: Registry)
        ensures
            registry@ == builtin_table(),
    {
        let mut table: StringHashMap<Builtin> = StringHashMap::new();
        table.insert("arena".to_owned(), Builtin::Arena);
        table.insert("id".to_owned(), Builtin::Arena);
        table.insert("command".to_owned(), Builtin::Command);
        table.insert("cmd".to_owned(), Builtin::Command);
        table.insert("ping".to_owned(), Builtin::Ping);
        let mut names: Vec<String> = Vec::new();
        names.push("arena".to_owned());
        names.push("id".to_owned());
        names.push("command".to_owned());
        names.push("cmd".to_owned());
        names.push("ping".to_owned());
        proof {
            let listed = texts(names@);
            assert(listed[0] == "arena"@ && listed[1] == "id"@ && listed[2] == "command"@
                && listed[3] == "cmd"@ && listed[4] == "ping"@);
            assert(listed.to_set() =~= table@.dom());
        }
        Registry { table, names }
    }

    /// The command that `name` is registered for.
    pub fn lookup(&self, name: &str) -> (handler: Option<Builtin>)
        ensures
            handler == (if self@.contains_key(name@) {
                Some(self@[name@])
            } else {
                None
            }),
    {
        match self.table.get(name) {
            Some(handler) => Some(*handler),
            None => None,
        }
    }

    /// Whether `name` is registered, as a canonical name or as an alias.
    pub fn contains(&self, name: &str) -> (known: bool)
        ensures
            known == self.name_set().contains(name@),
    {
        self.table.contains_key(name)
    }
}

} // verus!
