//! What the bot decides for a command before it touches the chat platform:
//! who may run it, whether the command message is deleted afterwards, whether
//! a confirmation is sent, and which temperature is stored.

use vstd::prelude::*;

use crate::storage::{DEFAULT_TEMPERATURE, MAX_TEMPERATURE};

verus! {

/// A command that a user sends to the bot.
pub enum Command {
    /// Greets the user.
    Start,
    /// Lists the commands.
    Help,
    /// Sends its text to the model.
    Chat(String),
    /// Clears the conversation history.
    Clear,
    /// Sets the persona directive.
    System(String),
    /// Sets the temperature, in hundredths, as the user wrote it.
    Temperature(i64),
    /// Asks the model for a prediction.
    Future,
    /// Adds a note.
    AddNote(String),
    /// Removes the note with this id.
    RemoveNote(i64),
    /// Lists the notes.
    ListNotes,
    /// Removes all notes.
    EraseNotes,
    /// Enables the bot in this chat or thread.
    Enable,
    /// Disables the bot in this chat or thread.
    Disable,
}

/// What to do with a command in a given chat.
pub struct CommandPlan {
    /// Whether the command takes effect.
    pub run: bool,
    /// Whether the command message is deleted from the chat.
    pub delete_command: bool,
    /// Whether a confirmation is sent back.
    pub confirm: bool,
}

/// The plan of a command that only administrators may run in a group, and
/// anyone in a private chat.
pub open spec fn managed(
    is_private: bool,
    is_admin: bool,
    delete_in_group: bool,
    confirm_in_private: bool,
) -> CommandPlan {
    CommandPlan {
        run: is_private || is_admin,
        delete_command: !is_private && is_admin && delete_in_group,
        confirm: is_private && confirm_in_private,
    }
}

/// The plan of `cmd` sent in a private chat or a group, by an administrator
/// of it or not. Greeting, help and requests to the model are open to all;
/// settings, notes and enablement are managed.
pub open spec fn command_plan(cmd: Command, is_private: bool, is_admin: bool) -> CommandPlan {
    match cmd {
        Command::Start | Command::Help | Command::Chat(_) | Command::Future => CommandPlan {
            run: true,
            delete_command: false,
            confirm: false,
        },
        Command::Clear | Command::System(_) | Command::Temperature(_) => managed(
            is_private,
            is_admin,
            true,
            true,
        ),
        Command::AddNote(_) | Command::RemoveNote(_) | Command::ListNotes => managed(
            is_private,
            is_admin,
            true,
            false,
        ),
        Command::EraseNotes | Command::Enable | Command::Disable => managed(
            is_private,
            is_admin,
            false,
            false,
        ),
    }
}

fn managed_plan(
    is_private: bool,
    is_admin: bool,
    delete_in_group: bool,
    confirm_in_private: bool,
) -> (r: CommandPlan)
    ensures
        r == managed(is_private, is_admin, delete_in_group, confirm_in_private),
{
    CommandPlan {
        run: is_private || is_admin,
        delete_command: !is_private && is_admin && delete_in_group,
        confirm: is_private && confirm_in_private,
    }
}

/// Decides what to do with a command.
pub fn plan_for(cmd: &Command, is_private: bool, is_admin: bool) -> (r: CommandPlan)
    ensures
        r == command_plan(*cmd, is_private, is_admin),
{
    match cmd {
        Command::Start | Command::Help | Command::Chat(_) | Command::Future => CommandPlan {
            run: true,
            delete_command: false,
            confirm: false,
        },
        Command::Clear | Command::System(_) | Command::Temperature(_) => managed_plan(
            is_private,
            is_admin,
            true,
            true,
        ),
        Command::AddNote(_) | Command::RemoveNote(_) | Command::ListNotes => managed_plan(
            is_private,
            is_admin,
            true,
            false,
        ),
        Command::EraseNotes | Command::Enable | Command::Disable => managed_plan(
            is_private,
            is_admin,
            false,
            false,
        ),
    }
}

/// Whether the full list of commands is shown in reply to `Help`: in private
/// chats, and to administrators of a group.
pub fn shows_full_help(is_private: bool, is_admin: bool) -> (r: bool)
    ensures
        r == (is_private || is_admin),
{
    is_private || is_admin
}

/// Whether a plain message is answered: never in a channel; always in a
/// private chat; in a group only where it replies to the bot and the bot is
/// enabled in that chat or thread.
pub fn answers_message(
    is_channel: bool,
    is_private: bool,
    replies_to_bot: bool,
    enabled: bool,
) -> (r: bool)
    ensures
        r == (!is_channel && (is_private || (replies_to_bot && enabled))),
{
    !is_channel && (is_private || (replies_to_bot && enabled))
}

/// The temperature, in hundredths, that a requested one is stored as: itself
/// where it lies in the allowed range, the default otherwise.
pub fn normalize_temperature(requested: i64) -> (r: u16)
    ensures
        0 <= requested <= MAX_TEMPERATURE ==> r == requested,
        !(0 <= requested <= MAX_TEMPERATURE) ==> r == DEFAULT_TEMPERATURE,
        r <= MAX_TEMPERATURE,
{
    if 0 <= requested && requested <= MAX_TEMPERATURE as i64 {
        requested as u16
    } else {
        DEFAULT_TEMPERATURE
    }
}

} // verus!
