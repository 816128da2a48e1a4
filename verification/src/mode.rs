//! The mode controller: a finite state machine mapping the current mode
//! and a key press to a local mutation (cursor move, buffer edit, mode
//! transition) or an outbound intent for the command processor.
//!
//! Each mode has its own handler with an exact transition relation;
//! [`AppState::handle_key`] dispatches on the current mode.

use vstd::prelude::*;
use crate::event::{ClientEvent, Key};
use crate::input_buffer::{backspaced, inserted, moved_left, moved_right, reset, InputBuffer};
use crate::store::{
    channel_written, guild_written, lemma_channel_written_wf, lemma_guild_written_wf, AppMode,
    AppState, Channel, Guild, Message, MessageContent,
};
use crate::text::{bytes_len, chars_suffix, clone_chars};

verus! {

/// The short form of the quit command.
pub open spec fn quit_short() -> Seq<char> {
    seq!['q']
}

/// The long form of the quit command.
pub open spec fn quit_long() -> Seq<char> {
    seq!['q', 'u', 'i', 't']
}

/// The prefix of the join command; what follows is the invite.
pub open spec fn join_prefix() -> Seq<char> {
    seq!['j', 'o', 'i', 'n', ' ']
}

/// Whether the prompt holds a quit command.
pub open spec fn is_quit_command(cmd: Seq<char>) -> bool {
    cmd == quit_short() || cmd == quit_long()
}

/// Whether the prompt holds a join command.
pub open spec fn is_join_command(cmd: Seq<char>) -> bool {
    cmd.len() >= 5 && cmd.take(5) == join_prefix()
}

/// Parses the command prompt: `q`/`quit` quits, `join <invite>` joins a
/// guild, and anything else is silently ignored.
pub fn parse_command(cmd: &Vec<char>) -> (r: Option<ClientEvent>)
    ensures
        is_quit_command(cmd@) ==> r == Some(ClientEvent::Quit),
        !is_quit_command(cmd@) && is_join_command(cmd@) ==> {
            &&& r is Some
            &&& r.unwrap() is JoinGuild
            &&& r.unwrap()->JoinGuild_0@ == cmd@.skip(5)
        },
        !is_quit_command(cmd@) && !is_join_command(cmd@) ==> r is None,
{
    if cmd.len() == 1 && cmd[0] == 'q' {
        proof {
            assert(cmd@ =~= quit_short());
        }
        return Some(ClientEvent::Quit);
    }
    if cmd.len() == 4 && cmd[0] == 'q' && cmd[1] == 'u' && cmd[2] == 'i' && cmd[3] == 't' {
        proof {
            assert(cmd@ =~= quit_long());
        }
        return Some(ClientEvent::Quit);
    }
    proof {
        assert(!is_quit_command(cmd@));
    }
    if cmd.len() >= 5 && cmd[0] == 'j' && cmd[1] == 'o' && cmd[2] == 'i' && cmd[3] == 'n'
        && cmd[4] == ' ' {
        proof {
            assert(cmd@.take(5) =~= join_prefix());
        }
        Some(ClientEvent::JoinGuild(chars_suffix(cmd, 5)))
    } else {
        proof {
            if is_join_command(cmd@) {
                assert(cmd@[0] == join_prefix()[0]);
                assert(cmd@[1] == join_prefix()[1]);
                assert(cmd@[2] == join_prefix()[2]);
                assert(cmd@[3] == join_prefix()[3]);
                assert(cmd@[4] == join_prefix()[4]);
            }
        }
        None
    }
}

/// The id of the message the scroll cursor sits on, if it sits on one.
/// The cursor counts from the newest message upward.
pub open spec fn selected_message_id(c: Channel) -> Option<u64> {
    if c.scroll_selected < c.messages_list@.len() {
        Some(c.messages_list@[c.messages_list@.len() - c.scroll_selected - 1])
    } else {
        None
    }
}

/// The message the scroll cursor sits on, if tracked.
pub open spec fn selected_message(c: Channel) -> Option<Message> {
    match selected_message_id(c) {
        None => None,
        Some(mid) => if c.messages_map@.contains_key(mid) {
            Some(c.messages_map@[mid])
        } else {
            None
        },
    }
}

/// The delete intent for the scroll-selected message, owed exactly when
/// the selected message exists and is the current user's own.
pub open spec fn delete_intent(pre: AppState) -> Option<ClientEvent> {
    match pre.spec_current_channel() {
        None => None,
        Some(c) => match selected_message(c) {
            None => None,
            Some(m) => if m.author_id == pre.current_user {
                Some(ClientEvent::Delete(m.id))
            } else {
                None
            },
        },
    }
}

/// How submitting the input box changes the state.  While editing, the
/// submission becomes an edit of the scroll-selected message, the mode
/// returns to scroll and the saved buffer is restored; otherwise the text
/// is sent as a new message.  An empty buffer sends nothing.
pub open spec fn message_submitted(pre: AppState, post: AppState, r: Option<ClientEvent>) -> bool {
    if pre.editing {
        let target = match pre.spec_current_channel() {
            None => None::<u64>,
            Some(c) => selected_message_id(c),
        };
        &&& post == (AppState {
            mode: AppMode::Scroll,
            editing: false,
            input: pre.old_input,
            old_input: post.old_input,
            ..pre
        })
        &&& reset(post.old_input)
        &&& r == match target {
            Some(mid) => if pre.input@.len() > 0 {
                Some(ClientEvent::Edit(mid, pre.input.chars))
            } else {
                None::<ClientEvent>
            },
            None => None::<ClientEvent>,
        }
    } else {
        &&& post == (AppState { input: post.input, ..pre })
        &&& reset(post.input)
        &&& r == if pre.input@.len() > 0 {
            Some(ClientEvent::Send(pre.input.chars))
        } else {
            None::<ClientEvent>
        }
    }
}

/// Leaving an edit without submitting: back to scroll mode with the saved
/// buffer restored.
pub open spec fn edit_cancelled(pre: AppState, post: AppState) -> bool {
    &&& post == (AppState {
        mode: AppMode::Scroll,
        editing: false,
        input: pre.old_input,
        old_input: post.old_input,
        ..pre
    })
    &&& reset(post.old_input)
}

/// Whether pressing the edit key on the scroll-selected message begins an
/// edit: the message must exist, be the current user's own, and its text
/// must fit an input buffer.
pub open spec fn edit_beginnable(pre: AppState) -> bool {
    match pre.spec_current_channel() {
        None => false,
        Some(c) => match selected_message(c) {
            None => false,
            Some(m) => m.author_id == pre.current_user && bytes_len(m.content->Text_0@)
                <= usize::MAX,
        },
    }
}

/// Beginning an edit swaps the selected message's text into the input
/// buffer with the cursor at its end, saves the previous buffer for
/// restoration, sets the editing flag and switches to insert mode.
pub open spec fn edit_begun(pre: AppState, post: AppState) -> bool {
    if edit_beginnable(pre) {
        let m = selected_message(pre.spec_current_channel().unwrap()).unwrap();
        &&& post == (AppState {
            mode: AppMode::TextInsert,
            editing: true,
            input: post.input,
            old_input: pre.input,
            ..pre
        })
        &&& post.input@ == m.content->Text_0@
        &&& post.input.char_pos == post.input@.len()
    } else {
        post == pre
    }
}

/// The selection one step down: bounded by the end of the list, landing
/// on the first element when nothing was selected.
pub open spec fn sel_next(sel: Option<usize>, len: nat) -> Option<usize> {
    match sel {
        Some(j) => if j + 1 < len {
            Some((j + 1) as usize)
        } else {
            Some(j)
        },
        None => if len > 0 {
            Some(0usize)
        } else {
            None
        },
    }
}

/// The selection one step up: bounded by the start of the list, landing
/// on the last element when nothing was selected.
pub open spec fn sel_prev(sel: Option<usize>, len: nat) -> Option<usize> {
    match sel {
        Some(j) => if j > 0 {
            Some((j - 1) as usize)
        } else {
            Some(j)
        },
        None => if len > 0 {
            Some((len - 1) as usize)
        } else {
            None
        },
    }
}

/// How a key changes the state in normal mode.
pub open spec fn normal_key_applied(
    pre: AppState,
    post: AppState,
    key: Key,
    r: Option<ClientEvent>,
) -> bool {
    match key {
        Key::Esc => if pre.editing {
            edit_cancelled(pre, post) && r is None
        } else {
            post == pre && r is None
        },
        Key::Char(c) => if c == 'i' {
            post == (AppState { mode: AppMode::TextInsert, ..pre }) && r is None
        } else if c == 's' {
            post == (AppState { mode: AppMode::Scroll, ..pre }) && r is None
        } else if c == 'g' {
            post == (AppState { mode: AppMode::GuildSelect, ..pre }) && r is None
        } else if c == 'c' {
            post == (AppState { mode: AppMode::ChannelSelect, ..pre }) && r is None
        } else if c == ':' {
            &&& post == (AppState { mode: AppMode::Command, command: post.command, ..pre })
            &&& reset(post.command)
            &&& r is None
        } else if c == 'h' {
            post == (AppState { input: post.input, ..pre }) && moved_left(pre.input, post.input)
                && r is None
        } else if c == 'l' {
            post == (AppState { input: post.input, ..pre }) && moved_right(pre.input, post.input)
                && r is None
        } else {
            post == pre && r is None
        },
        Key::Left => post == (AppState { input: post.input, ..pre }) && moved_left(
            pre.input,
            post.input,
        ) && r is None,
        Key::Right => post == (AppState { input: post.input, ..pre }) && moved_right(
            pre.input,
            post.input,
        ) && r is None,
        Key::Enter => message_submitted(pre, post, r),
        _ => post == pre && r is None,
    }
}

/// How a key changes the state in insert mode.
pub open spec fn insert_key_applied(
    pre: AppState,
    post: AppState,
    key: Key,
    r: Option<ClientEvent>,
) -> bool {
    match key {
        Key::Esc => post == (AppState { mode: AppMode::TextNormal, ..pre }) && r is None,
        Key::Left => post == (AppState { input: post.input, ..pre }) && moved_left(
            pre.input,
            post.input,
        ) && r is None,
        Key::Right => post == (AppState { input: post.input, ..pre }) && moved_right(
            pre.input,
            post.input,
        ) && r is None,
        Key::Backspace => post == (AppState { input: post.input, ..pre }) && backspaced(
            pre.input,
            post.input,
        ) && r is None,
        Key::Char(c) => post == (AppState { input: post.input, ..pre }) && inserted(
            pre.input,
            post.input,
            c,
        ) && r is None,
        Key::Enter => message_submitted(pre, post, r),
        _ => post == pre && r is None,
    }
}

/// How a key changes the state in command mode.
pub open spec fn command_key_applied(
    pre: AppState,
    post: AppState,
    key: Key,
    r: Option<ClientEvent>,
) -> bool {
    match key {
        Key::Esc => post == (AppState { mode: AppMode::TextNormal, ..pre }) && r is None,
        Key::Enter => {
            &&& post == (AppState { mode: AppMode::TextNormal, ..pre })
            &&& (is_quit_command(pre.command@) ==> r == Some(ClientEvent::Quit))
            &&& (!is_quit_command(pre.command@) && is_join_command(pre.command@) ==> {
                &&& r is Some
                &&& r.unwrap() is JoinGuild
                &&& r.unwrap()->JoinGuild_0@ == pre.command@.skip(5)
            })
            &&& (!is_quit_command(pre.command@) && !is_join_command(pre.command@) ==> r is None)
        },
        Key::Left => post == (AppState { command: post.command, ..pre }) && moved_left(
            pre.command,
            post.command,
        ) && r is None,
        Key::Right => post == (AppState { command: post.command, ..pre }) && moved_right(
            pre.command,
            post.command,
        ) && r is None,
        Key::Backspace => if pre.command.char_pos > 0 {
            post == (AppState { command: post.command, ..pre }) && backspaced(
                pre.command,
                post.command,
            ) && r is None
        } else if pre.command@.len() == 0 {
            post == (AppState { mode: AppMode::TextNormal, ..pre }) && r is None
        } else {
            post == pre && r is None
        },
        Key::Char(c) => post == (AppState { command: post.command, ..pre }) && inserted(
            pre.command,
            post.command,
            c,
        ) && r is None,
        _ => post == pre && r is None,
    }
}

/// Scrolling one message up (older); reaching past the oldest loaded
/// message asks for more history, with the oldest loaded id as cursor.
pub open spec fn scrolled_up(pre: AppState, post: AppState, r: Option<ClientEvent>) -> bool {
    match pre.spec_current_channel() {
        None => post == pre && r is None,
        Some(c0) => if c0.scroll_selected < c0.messages_list@.len() {
            let c1 = Channel { scroll_selected: (c0.scroll_selected + 1) as usize, ..c0 };
            &&& channel_written(
                pre,
                post,
                pre.current_guild.unwrap(),
                pre.spec_current_guild().unwrap().current_channel.unwrap(),
                c1,
            )
            &&& r == if c0.scroll_selected + 1 >= c0.messages_list@.len() {
                Some(ClientEvent::GetMoreMessages(Some(c0.messages_list@[0])))
            } else {
                None::<ClientEvent>
            }
        } else {
            post == pre && r is None
        },
    }
}

/// Scrolling one message down (newer), bounded at the bottom.
pub open spec fn scrolled_down(pre: AppState, post: AppState, r: Option<ClientEvent>) -> bool {
    match pre.spec_current_channel() {
        None => post == pre && r is None,
        Some(c0) => if c0.scroll_selected > 0 {
            let c1 = Channel { scroll_selected: (c0.scroll_selected - 1) as usize, ..c0 };
            channel_written(
                pre,
                post,
                pre.current_guild.unwrap(),
                pre.spec_current_guild().unwrap().current_channel.unwrap(),
                c1,
            ) && r is None
        } else {
            post == pre && r is None
        },
    }
}

/// Jumping to the oldest loaded message.
pub open spec fn scrolled_top(pre: AppState, post: AppState, r: Option<ClientEvent>) -> bool {
    match pre.spec_current_channel() {
        None => post == pre && r is None,
        Some(c0) => if c0.messages_list@.len() > 0 {
            let c1 = Channel {
                scroll_selected: (c0.messages_list@.len() - 1) as usize,
                ..c0
            };
            channel_written(
                pre,
                post,
                pre.current_guild.unwrap(),
                pre.spec_current_guild().unwrap().current_channel.unwrap(),
                c1,
            ) && r is None
        } else {
            post == pre && r is None
        },
    }
}

/// Jumping to the newest message.
pub open spec fn scrolled_bottom(pre: AppState, post: AppState, r: Option<ClientEvent>) -> bool {
    match pre.spec_current_channel() {
        None => post == pre && r is None,
        Some(c0) => {
            let c1 = Channel { scroll_selected: 0usize, ..c0 };
            channel_written(
                pre,
                post,
                pre.current_guild.unwrap(),
                pre.spec_current_guild().unwrap().current_channel.unwrap(),
                c1,
            ) && r is None
        },
    }
}

/// How a key changes the state in scroll mode.
pub open spec fn scroll_key_applied(
    pre: AppState,
    post: AppState,
    key: Key,
    r: Option<ClientEvent>,
) -> bool {
    match key {
        Key::Esc => post == (AppState { mode: AppMode::TextNormal, ..pre }) && r is None,
        Key::Up => scrolled_up(pre, post, r),
        Key::Down => scrolled_down(pre, post, r),
        Key::CtrlChar(c) => if c == 'd' {
            post == pre && r == delete_intent(pre)
        } else {
            post == pre && r is None
        },
        Key::Char(c) => if c == 'k' {
            scrolled_up(pre, post, r)
        } else if c == 'j' {
            scrolled_down(pre, post, r)
        } else if c == 'g' {
            scrolled_top(pre, post, r)
        } else if c == 'G' {
            scrolled_bottom(pre, post, r)
        } else if c == 'd' {
            post == (AppState { mode: AppMode::Delete, ..pre }) && r is None
        } else if c == 'e' {
            edit_begun(pre, post) && r is None
        } else {
            post == pre && r is None
        },
        _ => post == pre && r is None,
    }
}

/// How a key changes the state in the delete-confirmation prompt.
pub open spec fn delete_key_applied(
    pre: AppState,
    post: AppState,
    key: Key,
    r: Option<ClientEvent>,
) -> bool {
    &&& post == (AppState { mode: AppMode::Scroll, ..pre })
    &&& r == if key == Key::Char('y') {
        delete_intent(pre)
    } else {
        None::<ClientEvent>
    }
}

/// Entering the selected guild: the current-guild pointer follows the
/// selection (clearing it when nothing is selected), an empty channel
/// list asks for channels, and the mode moves on to channel selection.
pub open spec fn guild_entered(pre: AppState, post: AppState, r: Option<ClientEvent>) -> bool {
    match pre.guilds_select {
        None => post == (AppState { current_guild: None::<u64>, ..pre }) && r is None,
        Some(j) => {
            let gid = pre.guilds_list@[j as int];
            &&& post == (AppState {
                current_guild: Some(gid),
                mode: AppMode::ChannelSelect,
                ..pre
            })
            &&& r == if pre.guilds_map@[gid].channels_list@.len() == 0 {
                Some(ClientEvent::GetChannels)
            } else {
                None::<ClientEvent>
            }
        },
    }
}

/// How a key changes the state in guild-select mode.
pub open spec fn guild_select_key_applied(
    pre: AppState,
    post: AppState,
    key: Key,
    r: Option<ClientEvent>,
) -> bool {
    match key {
        Key::Esc => post == (AppState { mode: AppMode::TextNormal, ..pre }) && r is None,
        Key::Down => post == (AppState {
            guilds_select: sel_next(pre.guilds_select, pre.guilds_list@.len()),
            ..pre
        }) && r is None,
        Key::Up => post == (AppState {
            guilds_select: sel_prev(pre.guilds_select, pre.guilds_list@.len()),
            ..pre
        }) && r is None,
        Key::Enter => guild_entered(pre, post, r),
        Key::Char(c) => if c == 'j' {
            post == (AppState {
                guilds_select: sel_next(pre.guilds_select, pre.guilds_list@.len()),
                ..pre
            }) && r is None
        } else if c == 'k' {
            post == (AppState {
                guilds_select: sel_prev(pre.guilds_select, pre.guilds_list@.len()),
                ..pre
            }) && r is None
        } else if c == 'l' {
            post == (AppState { mode: AppMode::GuildLeave, ..pre }) && r is None
        } else {
            post == pre && r is None
        },
        _ => post == pre && r is None,
    }
}

/// Entering the selected channel of the current guild: the current-channel
/// pointer follows the selection (clearing it when nothing is selected),
/// an empty message list asks for the first page, and the mode returns to
/// normal.
pub open spec fn channel_entered(pre: AppState, post: AppState, r: Option<ClientEvent>) -> bool {
    match pre.spec_current_guild() {
        None => post == pre && r is None,
        Some(g0) => {
            let gid = pre.current_guild.unwrap();
            match g0.channels_select {
                None => guild_written(
                    pre,
                    post,
                    gid,
                    Guild { current_channel: None::<u64>, ..g0 },
                ) && r is None,
                Some(j) => {
                    let cid = g0.channels_list@[j as int];
                    &&& post == (AppState {
                        mode: AppMode::TextNormal,
                        guilds_map: post.guilds_map,
                        ..pre
                    })
                    &&& post.guilds_map@ == pre.guilds_map@.insert(
                        gid,
                        Guild { current_channel: Some(cid), ..g0 },
                    )
                    &&& r == if g0.channels_map@[cid].messages_list@.len() == 0 {
                        Some(ClientEvent::GetMoreMessages(None::<u64>))
                    } else {
                        None::<ClientEvent>
                    }
                },
            }
        },
    }
}

/// How a key changes the state in channel-select mode.
pub open spec fn channel_select_key_applied(
    pre: AppState,
    post: AppState,
    key: Key,
    r: Option<ClientEvent>,
) -> bool {
    match key {
        Key::Esc => post == (AppState { mode: AppMode::TextNormal, ..pre }) && r is None,
        Key::Down => channel_selection_moved(pre, post, false) && r is None,
        Key::Up => channel_selection_moved(pre, post, true) && r is None,
        Key::Enter => channel_entered(pre, post, r),
        Key::Char(c) => if c == 'j' {
            channel_selection_moved(pre, post, false) && r is None
        } else if c == 'k' {
            channel_selection_moved(pre, post, true) && r is None
        } else {
            post == pre && r is None
        },
        _ => post == pre && r is None,
    }
}

/// The current guild's channel selection moved one step (up or down),
/// bounded by its channel list.
pub open spec fn channel_selection_moved(pre: AppState, post: AppState, up: bool) -> bool {
    match pre.spec_current_guild() {
        None => post == pre,
        Some(g0) => {
            let sel = if up {
                sel_prev(g0.channels_select, g0.channels_list@.len())
            } else {
                sel_next(g0.channels_select, g0.channels_list@.len())
            };
            guild_written(pre, post, pre.current_guild.unwrap(), Guild { channels_select: sel, ..g0 })
        },
    }
}

/// How a key changes the state in the guild-leave prompt.
pub open spec fn guild_leave_key_applied(
    pre: AppState,
    post: AppState,
    key: Key,
    r: Option<ClientEvent>,
) -> bool {
    &&& post == (AppState { mode: AppMode::GuildSelect, ..pre })
    &&& r == if key == Key::Char('y') {
        match pre.guilds_select {
            Some(j) => Some(ClientEvent::LeaveGuild(pre.guilds_list@[j as int])),
            None => None::<ClientEvent>,
        }
    } else {
        None::<ClientEvent>
    }
}

impl AppState {
    /// Submits the input box: while editing this emits an edit of the
    /// scroll-selected message and restores the saved buffer; otherwise it
    /// emits the text as a new message.  An empty buffer emits nothing.
    pub fn send_message(&mut self) -> (r: Option<ClientEvent>)
        requires
            old(self).wf(),
        ensures
            final(self).wf(),
            message_submitted(*old(self), *final(self), r),
    {
        if self.editing {
            self.editing = false;
            let message = self.input.take();
            let target: Option<u64> = match self.current_channel() {
                None => None,
                Some(ch) => {
                    if ch.scroll_selected < ch.messages_list.len() {
                        let idx = ch.messages_list.len() - ch.scroll_selected - 1;
                        Some(ch.messages_list[idx])
                    } else {
                        None
                    }
                },
            };
            let r = match target {
                None => None,
                Some(mid) => if message.is_empty() {
                    None
                } else {
                    Some(ClientEvent::Edit(mid, message))
                },
            };
            self.mode = AppMode::Scroll;
            core::mem::swap(&mut self.input, &mut self.old_input);
            r
        } else {
            let message = self.input.take();
            if message.is_empty() {
                None
            } else {
                Some(ClientEvent::Send(message))
            }
        }
    }

    /// The delete intent for the scroll-selected message, owed exactly
    /// when that message exists and was authored by the current user.
    pub fn delete_message(&self) -> (r: Option<ClientEvent>)
        requires
            self.wf(),
        ensures
            r == delete_intent(*self),
    {
        match self.current_channel() {
            None => None,
            Some(ch) => {
                if ch.scroll_selected < ch.messages_list.len() {
                    let idx = ch.messages_list.len() - ch.scroll_selected - 1;
                    let mid = ch.messages_list[idx];
                    match ch.messages_map.get(&mid) {
                        None => None,
                        Some(m) => if m.author_id == self.current_user {
                            Some(ClientEvent::Delete(m.id))
                        } else {
                            None
                        },
                    }
                } else {
                    None
                }
            },
        }
    }

    /// Begins editing the scroll-selected message if it is the current
    /// user's own: its text goes to the input buffer with the cursor at
    /// the end, the previous buffer is saved, and the mode switches to
    /// insert with the editing flag set.
    pub fn begin_edit(&mut self)
        requires
            old(self).wf(),
        ensures
            final(self).wf(),
            edit_begun(*old(self), *final(self)),
    {
        let text: Option<Vec<char>> = match self.current_channel() {
            None => None,
            Some(ch) => {
                if ch.scroll_selected < ch.messages_list.len() {
                    let idx = ch.messages_list.len() - ch.scroll_selected - 1;
                    let mid = ch.messages_list[idx];
                    match ch.messages_map.get(&mid) {
                        None => None,
                        Some(m) => if m.author_id == self.current_user {
                            match &m.content {
                                MessageContent::Text(t) => Some(clone_chars(t)),
                            }
                        } else {
                            None
                        },
                    }
                } else {
                    None
                }
            },
        };
        match text {
            None => {},
            Some(t) => {
                match InputBuffer::from_text(t) {
                    None => {},
                    Some(buf) => {
                        self.mode = AppMode::TextInsert;
                        self.editing = true;
                        core::mem::swap(&mut self.input, &mut self.old_input);
                        self.input = buf;
                    },
                }
            },
        }
    }

    /// Handles a key press in normal mode.
    pub fn handle_normal_key(&mut self, key: Key) -> (r: Option<ClientEvent>)
        requires
            old(self).wf(),
        ensures
            final(self).wf(),
            normal_key_applied(*old(self), *final(self), key, r),
    {
        match key {
            Key::Esc => {
                if self.editing {
                    self.mode = AppMode::Scroll;
                    self.editing = false;
                    core::mem::swap(&mut self.input, &mut self.old_input);
                    let _ = self.old_input.take();
                }
                None
            },
            Key::Char(c) => {
                if c == 'i' {
                    self.mode = AppMode::TextInsert;
                } else if c == 's' {
                    self.mode = AppMode::Scroll;
                } else if c == 'g' {
                    self.mode = AppMode::GuildSelect;
                } else if c == 'c' {
                    self.mode = AppMode::ChannelSelect;
                } else if c == ':' {
                    self.mode = AppMode::Command;
                    let _ = self.command.take();
                } else if c == 'h' {
                    self.input.move_left();
                } else if c == 'l' {
                    self.input.move_right();
                }
                None
            },
            Key::Left => {
                self.input.move_left();
                None
            },
            Key::Right => {
                self.input.move_right();
                None
            },
            Key::Enter => self.send_message(),
            _ => None,
        }
    }

    /// Handles a key press in insert mode.
    pub fn handle_insert_key(&mut self, key: Key) -> (r: Option<ClientEvent>)
        requires
            old(self).wf(),
        ensures
            final(self).wf(),
            insert_key_applied(*old(self), *final(self), key, r),
    {
        match key {
            Key::Esc => {
                self.mode = AppMode::TextNormal;
                None
            },
            Key::Left => {
                self.input.move_left();
                None
            },
            Key::Right => {
                self.input.move_right();
                None
            },
            Key::Backspace => {
                self.input.backspace();
                None
            },
            Key::Char(c) => {
                self.input.insert(c);
                None
            },
            Key::Enter => self.send_message(),
            _ => None,
        }
    }

    /// Handles a key press in command mode.
    pub fn handle_command_key(&mut self, key: Key) -> (r: Option<ClientEvent>)
        requires
            old(self).wf(),
        ensures
            final(self).wf(),
            command_key_applied(*old(self), *final(self), key, r),
    {
        match key {
            Key::Esc => {
                self.mode = AppMode::TextNormal;
                None
            },
            Key::Enter => {
                self.mode = AppMode::TextNormal;
                parse_command(&self.command.chars)
            },
            Key::Left => {
                self.command.move_left();
                None
            },
            Key::Right => {
                self.command.move_right();
                None
            },
            Key::Backspace => {
                if self.command.char_pos > 0 {
                    self.command.backspace();
                } else if self.command.is_empty() {
                    self.mode = AppMode::TextNormal;
                }
                None
            },
            Key::Char(c) => {
                self.command.insert(c);
                None
            },
            _ => None,
        }
    }

    /// Scrolls one message up (older); reaching past the oldest loaded
    /// message emits a request for more history.
    pub fn scroll_up(&mut self) -> (r: Option<ClientEvent>)
        requires
            old(self).wf(),
        ensures
            final(self).wf(),
            scrolled_up(*old(self), *final(self), r),
    {
        let ghost pre = *self;
        let mut r: Option<ClientEvent> = None;
        match self.current_channel_mut() {
            None => {},
            Some(ch) => {
                if ch.scroll_selected < ch.messages_list.len() {
                    ch.scroll_selected = ch.scroll_selected + 1;
                    if ch.scroll_selected >= ch.messages_list.len() {
                        r = Some(ClientEvent::GetMoreMessages(Some(ch.messages_list[0])));
                    }
                }
            },
        }
        proof {
            if pre.spec_current_channel() is Some {
                let c0 = pre.spec_current_channel().unwrap();
                if c0.scroll_selected < c0.messages_list@.len() {
                    lemma_channel_written_wf(
                        pre,
                        *self,
                        pre.current_guild.unwrap(),
                        pre.spec_current_guild().unwrap().current_channel.unwrap(),
                        final(self).spec_channel(
                            pre.current_guild.unwrap(),
                            pre.spec_current_guild().unwrap().current_channel.unwrap(),
                        ).unwrap(),
                    );
                }
            }
        }
        r
    }

    /// Scrolls one message down (newer), bounded at the bottom.
    pub fn scroll_down(&mut self)
        requires
            old(self).wf(),
        ensures
            final(self).wf(),
            scrolled_down(*old(self), *final(self), None::<ClientEvent>),
    {
        let ghost pre = *self;
        match self.current_channel_mut() {
            None => {},
            Some(ch) => {
                if ch.scroll_selected > 0 {
                    ch.scroll_selected = ch.scroll_selected - 1;
                }
            },
        }
        proof {
            if pre.spec_current_channel() is Some {
                let c0 = pre.spec_current_channel().unwrap();
                if c0.scroll_selected > 0 {
                    lemma_channel_written_wf(
                        pre,
                        *self,
                        pre.current_guild.unwrap(),
                        pre.spec_current_guild().unwrap().current_channel.unwrap(),
                        final(self).spec_channel(
                            pre.current_guild.unwrap(),
                            pre.spec_current_guild().unwrap().current_channel.unwrap(),
                        ).unwrap(),
                    );
                }
            }
        }
    }

    /// Jumps the scroll cursor to the oldest loaded message.
    pub fn scroll_top(&mut self)
        requires
            old(self).wf(),
        ensures
            final(self).wf(),
            scrolled_top(*old(self), *final(self), None::<ClientEvent>),
    {
        let ghost pre = *self;
        match self.current_channel_mut() {
            None => {},
            Some(ch) => {
                if ch.messages_list.len() > 0 {
                    ch.scroll_selected = ch.messages_list.len() - 1;
                }
            },
        }
        proof {
            if pre.spec_current_channel() is Some {
                let c0 = pre.spec_current_channel().unwrap();
                if c0.messages_list@.len() > 0 {
                    lemma_channel_written_wf(
                        pre,
                        *self,
                        pre.current_guild.unwrap(),
                        pre.spec_current_guild().unwrap().current_channel.unwrap(),
                        final(self).spec_channel(
                            pre.current_guild.unwrap(),
                            pre.spec_current_guild().unwrap().current_channel.unwrap(),
                        ).unwrap(),
                    );
                }
            }
        }
    }

    /// Jumps the scroll cursor back to the newest message.
    pub fn scroll_bottom(&mut self)
        requires
            old(self).wf(),
        ensures
            final(self).wf(),
            scrolled_bottom(*old(self), *final(self), None::<ClientEvent>),
    {
        let ghost pre = *self;
        match self.current_channel_mut() {
            None => {},
            Some(ch) => {
                ch.scroll_selected = 0;
            },
        }
        proof {
            if pre.spec_current_channel() is Some {
                lemma_channel_written_wf(
                    pre,
                    *self,
                    pre.current_guild.unwrap(),
                    pre.spec_current_guild().unwrap().current_channel.unwrap(),
                    final(self).spec_channel(
                        pre.current_guild.unwrap(),
                        pre.spec_current_guild().unwrap().current_channel.unwrap(),
                    ).unwrap(),
                );
            }
        }
    }

    /// Handles a key press in scroll mode.
    pub fn handle_scroll_key(&mut self, key: Key) -> (r: Option<ClientEvent>)
        requires
            old(self).wf(),
        ensures
            final(self).wf(),
            scroll_key_applied(*old(self), *final(self), key, r),
    {
        match key {
            Key::Esc => {
                self.mode = AppMode::TextNormal;
                None
            },
            Key::Up => self.scroll_up(),
            Key::Down => {
                self.scroll_down();
                None
            },
            Key::CtrlChar(c) => {
                if c == 'd' {
                    self.delete_message()
                } else {
                    None
                }
            },
            Key::Char(c) => {
                if c == 'k' {
                    self.scroll_up()
                } else if c == 'j' {
                    self.scroll_down();
                    None
                } else if c == 'g' {
                    self.scroll_top();
                    None
                } else if c == 'G' {
                    self.scroll_bottom();
                    None
                } else if c == 'd' {
                    self.mode = AppMode::Delete;
                    None
                } else if c == 'e' {
                    self.begin_edit();
                    None
                } else {
                    None
                }
            },
            _ => None,
        }
    }

    /// Handles a key press in the delete-confirmation prompt: `y` emits
    /// the delete intent (ownership re-checked); every key returns to
    /// scroll mode.
    pub fn handle_delete_key(&mut self, key: Key) -> (r: Option<ClientEvent>)
        requires
            old(self).wf(),
        ensures
            final(self).wf(),
            delete_key_applied(*old(self), *final(self), key, r),
    {
        let r = match key {
            Key::Char(c) => if c == 'y' {
                self.delete_message()
            } else {
                None
            },
            _ => None,
        };
        self.mode = AppMode::Scroll;
        r
    }

    /// Handles a key press in guild-select mode.
    pub fn handle_guild_select_key(&mut self, key: Key) -> (r: Option<ClientEvent>)
        requires
            old(self).wf(),
        ensures
            final(self).wf(),
            guild_select_key_applied(*old(self), *final(self), key, r),
    {
        match key {
            Key::Esc => {
                self.mode = AppMode::TextNormal;
                None
            },
            Key::Down => {
                self.guild_selection_down();
                None
            },
            Key::Up => {
                self.guild_selection_up();
                None
            },
            Key::Enter => self.enter_guild(),
            Key::Char(c) => {
                if c == 'j' {
                    self.guild_selection_down();
                } else if c == 'k' {
                    self.guild_selection_up();
                } else if c == 'l' {
                    self.mode = AppMode::GuildLeave;
                }
                None
            },
            _ => None,
        }
    }

    /// Moves the guild selection one step down, bounded by the list.
    pub fn guild_selection_down(&mut self)
        requires
            old(self).wf(),
        ensures
            final(self).wf(),
            *final(self) == (AppState {
                guilds_select: sel_next(old(self).guilds_select, old(self).guilds_list@.len()),
                ..*old(self)
            }),
    {
        let len = self.guilds_list.len();
        self.guilds_select = match self.guilds_select {
            Some(j) => if j + 1 < len {
                Some(j + 1)
            } else {
                Some(j)
            },
            None => if len > 0 {
                Some(0)
            } else {
                None
            },
        };
    }

    /// Moves the guild selection one step up, bounded by the list.
    pub fn guild_selection_up(&mut self)
        requires
            old(self).wf(),
        ensures
            final(self).wf(),
            *final(self) == (AppState {
                guilds_select: sel_prev(old(self).guilds_select, old(self).guilds_list@.len()),
                ..*old(self)
            }),
    {
        let len = self.guilds_list.len();
        self.guilds_select = match self.guilds_select {
            Some(j) => if j > 0 {
                Some(j - 1)
            } else {
                Some(j)
            },
            None => if len > 0 {
                Some(len - 1)
            } else {
                None
            },
        };
    }

    /// Sets the current guild from the selection, asks for its channel
    /// list when none is loaded, and moves on to channel selection.
    pub fn enter_guild(&mut self) -> (r: Option<ClientEvent>)
        requires
            old(self).wf(),
        ensures
            final(self).wf(),
            guild_entered(*old(self), *final(self), r),
    {
        match self.guilds_select {
            None => {
                self.current_guild = None;
                None
            },
            Some(j) => {
                let gid = self.guilds_list[j];
                self.current_guild = Some(gid);
                let empty = match self.guilds_map.get(&gid) {
                    Some(g) => g.channels_list.is_empty(),
                    None => false,
                };
                self.mode = AppMode::ChannelSelect;
                if empty {
                    Some(ClientEvent::GetChannels)
                } else {
                    None
                }
            },
        }
    }

    /// Moves the current guild's channel selection one step, bounded by
    /// its channel list.
    pub fn channel_selection_move(&mut self, up: bool)
        requires
            old(self).wf(),
        ensures
            final(self).wf(),
            channel_selection_moved(*old(self), *final(self), up),
    {
        let ghost pre = *self;
        match self.current_guild_mut() {
            None => {},
            Some(g) => {
                let len = g.channels_list.len();
                g.channels_select = match g.channels_select {
                    Some(j) => if up {
                        if j > 0 {
                            Some(j - 1)
                        } else {
                            Some(j)
                        }
                    } else {
                        if j + 1 < len {
                            Some(j + 1)
                        } else {
                            Some(j)
                        }
                    },
                    None => if len > 0 {
                        if up {
                            Some(len - 1)
                        } else {
                            Some(0)
                        }
                    } else {
                        None
                    },
                };
            },
        }
        proof {
            if pre.spec_current_guild() is Some {
                lemma_guild_written_wf(
                    pre,
                    *self,
                    pre.current_guild.unwrap(),
                    final(self).guilds_map@[pre.current_guild.unwrap()],
                );
            }
        }
    }

    /// Sets the current channel from the current guild's selection, asks
    /// for the first message page when none is loaded, and returns to
    /// normal mode.
    pub fn enter_channel(&mut self) -> (r: Option<ClientEvent>)
        requires
            old(self).wf(),
        ensures
            final(self).wf(),
            channel_entered(*old(self), *final(self), r),
    {
        let ghost pre = *self;
        let mut r: Option<ClientEvent> = None;
        let mut to_normal = false;
        match self.current_guild_mut() {
            None => {},
            Some(g) => {
                match g.channels_select {
                    None => {
                        g.current_channel = None;
                    },
                    Some(j) => {
                        let cid = g.channels_list[j];
                        g.current_channel = Some(cid);
                        let empty = match g.channels_map.get(&cid) {
                            Some(c) => c.messages_list.is_empty(),
                            None => false,
                        };
                        if empty {
                            r = Some(ClientEvent::GetMoreMessages(None));
                        }
                        to_normal = true;
                    },
                }
            },
        }
        if to_normal {
            self.mode = AppMode::TextNormal;
        }
        proof {
            if pre.spec_current_guild() is Some {
                let gid = pre.current_guild.unwrap();
                assert forall|id: u64| #[trigger] final(self).guilds_map@.contains_key(id)
                    implies {
                    &&& final(self).guilds_map@[id].wf()
                    &&& final(self).guilds_map@[id].id == id
                } by {
                    assert(pre.guilds_map@.contains_key(id));
                    if id != gid {
                        assert(final(self).guilds_map@[id] == pre.guilds_map@[id]);
                    }
                }
                assert forall|i: int| 0 <= i < final(self).guilds_list@.len()
                    implies final(self).guilds_map@.contains_key(
                    #[trigger] final(self).guilds_list@[i],
                ) by {
                    assert(pre.guilds_map@.contains_key(pre.guilds_list@[i]));
                }
            }
        }
        r
    }

    /// Handles a key press in channel-select mode.
    pub fn handle_channel_select_key(&mut self, key: Key) -> (r: Option<ClientEvent>)
        requires
            old(self).wf(),
        ensures
            final(self).wf(),
            channel_select_key_applied(*old(self), *final(self), key, r),
    {
        match key {
            Key::Esc => {
                self.mode = AppMode::TextNormal;
                None
            },
            Key::Down => {
                self.channel_selection_move(false);
                None
            },
            Key::Up => {
                self.channel_selection_move(true);
                None
            },
            Key::Enter => self.enter_channel(),
            Key::Char(c) => {
                if c == 'j' {
                    self.channel_selection_move(false);
                } else if c == 'k' {
                    self.channel_selection_move(true);
                }
                None
            },
            _ => None,
        }
    }

    /// Handles a key press in the guild-leave prompt: `y` emits the leave
    /// intent for the selected guild; every key returns to guild-select
    /// mode.
    pub fn handle_guild_leave_key(&mut self, key: Key) -> (r: Option<ClientEvent>)
        requires
            old(self).wf(),
        ensures
            final(self).wf(),
            guild_leave_key_applied(*old(self), *final(self), key, r),
    {
        let r = match key {
            Key::Char(c) => if c == 'y' {
                match self.guilds_select {
                    Some(j) => Some(ClientEvent::LeaveGuild(self.guilds_list[j])),
                    None => None,
                }
            } else {
                None
            },
            _ => None,
        };
        self.mode = AppMode::GuildSelect;
        r
    }

    /// Turns one key press into a local mutation or an outbound intent,
    /// evaluated against the current mode only.
    pub fn handle_key(&mut self, key: Key) -> (r: Option<ClientEvent>)
        requires
            old(self).wf(),
        ensures
            final(self).wf(),
            match old(self).mode {
                AppMode::TextNormal => normal_key_applied(*old(self), *final(self), key, r),
                AppMode::TextInsert => insert_key_applied(*old(self), *final(self), key, r),
                AppMode::Command => command_key_applied(*old(self), *final(self), key, r),
                AppMode::Scroll => scroll_key_applied(*old(self), *final(self), key, r),
                AppMode::Delete => delete_key_applied(*old(self), *final(self), key, r),
                AppMode::GuildSelect => guild_select_key_applied(*old(self), *final(self), key, r),
                AppMode::ChannelSelect => channel_select_key_applied(
                    *old(self),
                    *final(self),
                    key,
                    r,
                ),
                AppMode::GuildLeave => guild_leave_key_applied(*old(self), *final(self), key, r),
            },
    {
        let m = self.mode;
        match m {
            AppMode::TextNormal => self.handle_normal_key(key),
            AppMode::TextInsert => self.handle_insert_key(key),
            AppMode::Command => self.handle_command_key(key),
            AppMode::Scroll => self.handle_scroll_key(key),
            AppMode::Delete => self.handle_delete_key(key),
            AppMode::GuildSelect => self.handle_guild_select_key(key),
            AppMode::ChannelSelect => self.handle_channel_select_key(key),
            AppMode::GuildLeave => self.handle_guild_leave_key(key),
        }
    }
}

} // verus!
