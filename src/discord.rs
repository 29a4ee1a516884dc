//! Items of the chat platform's interactions API: command definitions,
//! inbound interactions and outbound responses.

use vstd::prelude::*;

verus! {

/// A fixed value that a user may pick for an option, or the value that a
/// user supplied for a named option.
#[derive(Clone, Debug)]
pub struct Choice {
    pub name: String,
    pub value: String,
}

/// An option (argument) of a command.
#[derive(Debug)]
pub struct Option {
    /// The option's type tag (`STRING_OPTION` for a string).
    pub typ: i8,
    pub name: String,
    pub description: String,
    pub required: bool,
    pub choices: Vec<Choice>,
    pub options: Vec<Option>,
}

impl Clone for Option {
    /// A copy of the option and, recursively, of its sub-options.
    fn clone(&self) -> (r: Self)
        ensures
            r.typ == self.typ,
            r.name@ == self.name@,
            r.description@ == self.description@,
            r.required == self.required,
            r.options@.len() == self.options@.len(),
        decreases self,
    {
        let mut options: Vec<Option> = Vec::new();
        let mut i: usize = 0;
        while i < self.options.len()
            invariant
                i <= self.options@.len(),
                options@.len() == i,
            decreases self.options@.len() - i,
        {
            assert(decreases_to!(self => self.options@[i as int]));
            options.push(self.options[i].clone());
            i = i + 1;
        }
        Option {
            typ: self.typ,
            name: self.name.clone(),
            description: self.description.clone(),
            required: self.required,
            choices: self.choices.clone(),
            options,
        }
    }
}

/// The value that a command definition's permission flag takes when it is
/// not given.
pub fn set_true() -> (r: bool)
    ensures
        r,
{
    true
}

/// A command definition as registered with the platform.
#[derive(Clone, Debug)]
pub struct Command {
    pub id: String,
    pub application_id: String,
    pub guild_id: String,
    pub name: String,
    pub description: String,
    pub default_permissions: bool,
    pub options: Vec<Option>,
}

/// An inbound interaction. Type tag 1 is a ping, 2 a command invocation.
#[derive(Default, Clone, Debug)]
pub struct Interaction {
    pub id: String,
    pub application_id: String,
    pub typ: i8,
    pub data: std::option::Option<Data>,
    pub guild_id: String,
    pub channel_id: String,
    pub token: String,
    pub version: i8,
}

/// Whether a version number is zero, that is not given.
pub fn is_zero(i: &i8) -> (r: bool)
    ensures
        r == (*i == 0),
{
    *i == 0
}

/// The data of a command invocation.
#[derive(Clone, Debug)]
pub struct Data {
    pub id: String,
    pub name: String,
    pub options: Vec<Choice>,
    pub custom_id: String,
    pub component_type: i64,
}

/// An outbound response. Type tag 1 is a pong, 4 a message with data.
#[derive(Default, Clone, Debug)]
pub struct Response {
    pub typ: i8,
    pub data: std::option::Option<DataResponse>,
}

/// The message of a response.
#[derive(Default, Clone, Debug)]
pub struct DataResponse {
    pub tts: bool,
    pub content: String,
}

/// Type tag of a string option.
pub const STRING_OPTION: i8 = 3;

/// Whether `c` is the definition of the bot's one command: `pokedex`,
/// allowed by default, with one required string option `pokemon`.
pub open spec fn is_pokedex_definition(c: Command) -> bool {
    &&& c.name@ == "pokedex"@
    &&& c.description@ == "Looks up a pokemon in the pokedex database."@
    &&& c.default_permissions
    &&& c.id@.len() == 0 && c.application_id@.len() == 0 && c.guild_id@.len() == 0
    &&& c.options@.len() == 1
    &&& c.options@[0].typ == STRING_OPTION
    &&& c.options@[0].name@ == "pokemon"@
    &&& c.options@[0].description@ == "The name of the pokemon to look up."@
    &&& c.options@[0].required
    &&& c.options@[0].choices@.len() == 0
    &&& c.options@[0].options@.len() == 0
}

/// The one command of the bot: look up a pokemon by name.
pub fn pokedex_definition() -> (r: Command)
    ensures
        is_pokedex_definition(r),
{
    let option = Option {
        typ: STRING_OPTION,
        name: String::from_str("pokemon"),
        description: String::from_str("The name of the pokemon to look up."),
        required: true,
        choices: Vec::new(),
        options: Vec::new(),
    };
    let mut options: Vec<Option> = Vec::new();
    options.push(option);
    proof {
        reveal_strlit("");
    }
    Command {
        id: String::from_str(""),
        application_id: String::from_str(""),
        guild_id: String::from_str(""),
        name: String::from_str("pokedex"),
        description: String::from_str("Looks up a pokemon in the pokedex database."),
        default_permissions: set_true(),
        options,
    }
}

/// Every command that the bot registers, in order of registration.
pub fn registry() -> (r: Vec<Command>)
    ensures
        r@.len() == 1,
        is_pokedex_definition(r@[0]),
{
    let mut r: Vec<Command> = Vec::new();
    r.push(pokedex_definition());
    r
}

} // verus!
