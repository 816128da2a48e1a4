//! Key presses coming in from the terminal and intents going out to the
//! command processor.

use vstd::prelude::*;

verus! {

/// A key press, as the mode controller sees it.
#[derive(Copy, Clone, Debug, PartialEq, Eq)]
pub enum Key {
    /// A printable character without a control modifier.
    Char(char),
    /// A character pressed together with the control modifier.
    CtrlChar(char),
    Enter,
    Esc,
    Backspace,
    Tab,
    BackTab,
    Left,
    Right,
    Up,
    Down,
    /// Any key this controller does not react to.
    Other,
}

/// An intent sent by the user from the UI to the command processor, which
/// performs the corresponding remote effect.
#[derive(Debug, PartialEq, Eq)]
pub enum ClientEvent {
    /// Quits the program.
    Quit,
    /// Sends a text message to the current channel.
    Send(Vec<char>),
    /// Gets more messages from the current channel, older than the given
    /// message id (or the newest page when absent).
    GetMoreMessages(Option<u64>),
    /// Deletes a message in the current channel.
    Delete(u64),
    /// Replaces the text of a message in the current channel.
    Edit(u64, Vec<char>),
    /// Gets the channels of the current guild.
    GetChannels,
    /// Gets a user's profile from their id.
    GetUser(u64),
    /// Leaves the given guild.
    LeaveGuild(u64),
    /// Joins a guild given an invite.
    JoinGuild(Vec<char>),
}

} // verus!
