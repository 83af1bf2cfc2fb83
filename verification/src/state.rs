//! The bot's mutable state: the arena identifier and the custom commands.

use vstd::prelude::*;
use vstd::hash_map::StringHashMap;

verus! {

/// The state that the commands read and change.
pub struct BotState {
    session_id: Option<String>,
    custom_commands: StringHashMap<String>,
}

/// The state as plain values.
pub struct BotStateView {
    pub session_id: Option<Seq<char>>,
    pub custom_commands: Map<Seq<char>, Seq<char>>,
}

impl View for BotState {
    type V = BotStateView;

    closed spec fn view(&self) -> BotStateView {
        BotStateView {
            session_id: match self.session_id {
                Some(id) => Some(id@),
                None => None,
            },
            custom_commands: self.custom_commands@.map_values(|text: String| text@),
        }
    }
}

impl BotStateView {
    /// No custom command has one of `names`: the built-in commands are not
    /// shadowed.
    pub open spec fn respects(self, names: Set<Seq<char>>) -> bool {
        forall|name: Seq<char>| #[trigger]
            names.contains(name) ==> !self.custom_commands.contains_key(name)
    }
}

impl BotState {
    /// The state at startup: no arena, no custom command.
    pub fn new() -> (state: BotState)
        ensures
            state@.session_id is None,
            state@.custom_commands == Map::<Seq<char>, Seq<char>>::empty(),
    {
        let state = BotState { session_id: None, custom_commands: StringHashMap::new() };
        assert(state@.custom_commands =~= Map::<Seq<char>, Seq<char>>::empty());
        state
    }

    /// The arena identifier, if one is set.
    pub fn session_id(&self) -> (id: Option<&String>)
        ensures
            match id {
                Some(id) => self@.session_id == Some(id@),
                None => self@.session_id is None,
            },
    {
        match &self.session_id {
            Some(id) => Some(id),
            None => None,
        }
    }

    /// The text of the custom command `name`, if there is one.
    pub fn custom_command(&self, name: &str) -> (text: Option<&String>)
        ensures
            match text {
                Some(text) => self@.custom_commands.contains_key(name@)
                    && self@.custom_commands[name@] == text@,
                None => !self@.custom_commands.contains_key(name@),
            },
    {
        self.custom_commands.get(name)
    }

    /// How many custom commands there are.
    pub fn custom_command_count(&self) -> (count: usize)
        ensures
            count == self@.custom_commands.len(),
    {
        proof {
            let texts = self.custom_commands@.map_values(|text: String| text@);
            assert(texts.dom() =~= self.custom_commands@.dom());
        }
        self.custom_commands.len()
    }

    pub(crate) fn set_session_id(&mut self, id: Option<String>)
        ensures
            final(self)@.custom_commands == old(self)@.custom_commands,
            final(self)@.session_id == (match id {
                Some(id) => Some(id@),
                None => None,
            }),
    {
        self.session_id = id;
    }

    pub(crate) fn insert_command(&mut self, name: String, text: String)
        ensures
            final(self)@.session_id == old(self)@.session_id,
            final(self)@.custom_commands == old(self)@.custom_commands.insert(name@, text@),
    {
        self.custom_commands.insert(name, text);
        assert(self@.custom_commands =~= old(self)@.custom_commands.insert(name@, text@));
    }

    pub(crate) fn remove_command(&mut self, name: &str)
        ensures
            final(self)@.session_id == old(self)@.session_id,
            final(self)@.custom_commands == old(self)@.custom_commands.remove(name@),
    {
        self.custom_commands.remove(name);
        assert(self@.custom_commands =~= old(self)@.custom_commands.remove(name@));
    }
}

} // verus!
