//! The description of a slash command, as it is registered with Discord.

use vstd::prelude::*;

verus! {

/// A text option of a command.
#[derive(Debug)]
pub struct CommandOption {
    pub name: String,
    pub description: String,
    pub required: bool,
    /// The only values the option accepts, where it is limited to some.
    pub choices: Vec<String>,
}

/// A slash command: name, description and options.
#[derive(Debug)]
pub struct CommandSpec {
    pub name: String,
    pub description: String,
    pub options: Vec<CommandOption>,
}

/// The abstract value of an option.
pub struct CommandOptionView {
    pub name: Seq<char>,
    pub description: Seq<char>,
    pub required: bool,
    pub choices: Seq<Seq<char>>,
}

/// The abstract value of a command.
pub struct CommandSpecView {
    pub name: Seq<char>,
    pub description: Seq<char>,
    pub options: Seq<CommandOptionView>,
}

impl View for CommandOption {
    type V = CommandOptionView;

    open spec fn view(&self) -> CommandOptionView {
        CommandOptionView {
            name: self.name@,
            description: self.description@,
            required: self.required,
            choices: self.choices@.map_values(|c: String| c@),
        }
    }
}

impl View for CommandSpec {
    type V = CommandSpecView;

    open spec fn view(&self) -> CommandSpecView {
        CommandSpecView {
            name: self.name@,
            description: self.description@,
            options: self.options@.map_values(|o: CommandOption| o@),
        }
    }
}

/// A command without options.
pub open spec fn plain_command(name: Seq<char>, description: Seq<char>) -> CommandSpecView {
    CommandSpecView { name, description, options: Seq::empty() }
}

/// Builds a command without options.
pub fn make_plain_command(name: &str, description: &str) -> (r: CommandSpec)
    ensures
        r@ == plain_command(name@, description@),
{
    let r = CommandSpec { name: name.to_owned(), description: description.to_owned(), options: Vec::new() };
    assert(r@.options =~= Seq::<CommandOptionView>::empty());
    r
}

} // verus!
