use ilo_toki::event::{ClientEvent, Key};
use ilo_toki::store::{AppMode, AppState, MessageContent};
use ilo_toki::sync::{add_channel, add_guild, handle_message, IncomingContent, MessageData};

fn chars(s: &str) -> Vec<char> {
    s.chars().collect()
}

fn text_message(author_id: u64, text: &str, created_at: u64) -> MessageData {
    MessageData {
        author_id,
        override_username: None,
        content: IncomingContent::Text(chars(text)),
        created_at,
        edited_at: None,
    }
}

fn state_with_messages(messages: &[(u64, u64, &str)]) -> AppState {
    let mut s = AppState::default();
    add_guild(&mut s, 1, chars("guild"));
    add_channel(&mut s, 1, 10, chars("general"));
    for &(mid, author, text) in messages {
        handle_message(&mut s, text_message(author, text, 1000 + mid), 1, 10, mid, usize::MAX);
    }
    s.current_guild = Some(1);
    s.guilds_map.get_mut(&1).unwrap().current_channel = Some(10);
    s
}

fn type_text(s: &mut AppState, text: &str) {
    for c in text.chars() {
        s.handle_key(Key::Char(c));
    }
}

#[test]
fn normal_mode_transitions() {
    let mut s = AppState::default();
    assert!(matches!(s.mode, AppMode::TextNormal));
    s.handle_key(Key::Char('i'));
    assert!(matches!(s.mode, AppMode::TextInsert));
    s.handle_key(Key::Esc);
    assert!(matches!(s.mode, AppMode::TextNormal));
    s.handle_key(Key::Char('s'));
    assert!(matches!(s.mode, AppMode::Scroll));
    s.handle_key(Key::Esc);
    s.handle_key(Key::Char('g'));
    assert!(matches!(s.mode, AppMode::GuildSelect));
    s.handle_key(Key::Esc);
    s.handle_key(Key::Char('c'));
    assert!(matches!(s.mode, AppMode::ChannelSelect));
}

#[test]
fn insert_and_submit_sends_message() {
    let mut s = AppState::default();
    s.handle_key(Key::Char('i'));
    type_text(&mut s, "hello");
    let r = s.handle_key(Key::Enter);
    assert_eq!(r, Some(ClientEvent::Send(chars("hello"))));
    assert_eq!(s.input.chars.len(), 0);
    assert_eq!(s.input.char_pos, 0);
}

#[test]
fn empty_submit_sends_nothing() {
    let mut s = AppState::default();
    let r = s.handle_key(Key::Enter);
    assert_eq!(r, None);
}

#[test]
fn command_quit_and_join() {
    let mut s = AppState::default();
    s.handle_key(Key::Char(':'));
    assert!(matches!(s.mode, AppMode::Command));
    type_text(&mut s, "quit");
    let r = s.handle_key(Key::Enter);
    assert_eq!(r, Some(ClientEvent::Quit));
    assert!(matches!(s.mode, AppMode::TextNormal));

    s.handle_key(Key::Char(':'));
    type_text(&mut s, "join abc-invite");
    let r = s.handle_key(Key::Enter);
    assert_eq!(r, Some(ClientEvent::JoinGuild(chars("abc-invite"))));

    s.handle_key(Key::Char(':'));
    type_text(&mut s, "frobnicate");
    let r = s.handle_key(Key::Enter);
    assert_eq!(r, None);
}

#[test]
fn command_backspace_on_empty_returns_to_normal() {
    let mut s = AppState::default();
    s.handle_key(Key::Char(':'));
    s.handle_key(Key::Backspace);
    assert!(matches!(s.mode, AppMode::TextNormal));
}

#[test]
fn scroll_up_past_oldest_asks_for_more() {
    // Channel has messages [1, 2, 3] (oldest first), offset 0; three
    // scroll-ups set the offset to 3 and emit a request carrying the
    // oldest loaded id 1; a fourth scroll-up is a no-op.
    let mut s = state_with_messages(&[(1, 9, "a"), (2, 9, "b"), (3, 9, "c")]);
    s.mode = AppMode::Scroll;
    assert_eq!(s.handle_key(Key::Char('k')), None);
    assert_eq!(s.handle_key(Key::Char('k')), None);
    let r = s.handle_key(Key::Char('k'));
    assert_eq!(r, Some(ClientEvent::GetMoreMessages(Some(1))));
    let ch = &s.guilds_map.get(&1).unwrap().channels_map[&10];
    assert_eq!(ch.scroll_selected, 3);
    let r = s.handle_key(Key::Char('k'));
    assert_eq!(r, None);
    let ch = &s.guilds_map.get(&1).unwrap().channels_map[&10];
    assert_eq!(ch.scroll_selected, 3);
}

#[test]
fn scroll_down_and_jumps() {
    let mut s = state_with_messages(&[(1, 9, "a"), (2, 9, "b"), (3, 9, "c")]);
    s.mode = AppMode::Scroll;
    s.handle_key(Key::Char('g'));
    let ch = &s.guilds_map.get(&1).unwrap().channels_map[&10];
    assert_eq!(ch.scroll_selected, 2);
    s.handle_key(Key::Char('j'));
    let ch = &s.guilds_map.get(&1).unwrap().channels_map[&10];
    assert_eq!(ch.scroll_selected, 1);
    s.handle_key(Key::Char('G'));
    let ch = &s.guilds_map.get(&1).unwrap().channels_map[&10];
    assert_eq!(ch.scroll_selected, 0);
    s.handle_key(Key::Char('j'));
    let ch = &s.guilds_map.get(&1).unwrap().channels_map[&10];
    assert_eq!(ch.scroll_selected, 0);
}

#[test]
fn edit_key_on_foreign_message_is_noop() {
    // Pressing the edit key on a message authored by another user leaves
    // the mode unchanged and begins no edit.
    let mut s = state_with_messages(&[(1, 9, "theirs")]);
    s.current_user = 5;
    s.mode = AppMode::Scroll;
    s.handle_key(Key::Char('e'));
    assert!(matches!(s.mode, AppMode::Scroll));
    assert!(!s.editing);
    assert_eq!(s.input.chars.len(), 0);
}

#[test]
fn edit_key_on_own_message_swaps_text_in() {
    // Pressing the edit key on the current user's own text message swaps
    // it into the input buffer and switches to insert mode.
    let mut s = state_with_messages(&[(1, 5, "mine")]);
    s.current_user = 5;
    s.mode = AppMode::Scroll;
    s.handle_key(Key::Char('e'));
    assert!(matches!(s.mode, AppMode::TextInsert));
    assert!(s.editing);
    assert_eq!(s.input.chars, chars("mine"));
    assert_eq!(s.input.char_pos, 4);
}

#[test]
fn edit_submit_emits_edit_intent_and_restores_buffer() {
    let mut s = state_with_messages(&[(1, 5, "mine")]);
    s.current_user = 5;
    // A draft sits in the input box before the edit begins.
    s.handle_key(Key::Char('i'));
    type_text(&mut s, "draft");
    s.handle_key(Key::Esc);
    s.handle_key(Key::Char('s'));
    s.handle_key(Key::Char('e'));
    assert_eq!(s.input.chars, chars("mine"));
    type_text(&mut s, "!");
    let r = s.handle_key(Key::Enter);
    assert_eq!(r, Some(ClientEvent::Edit(1, chars("mine!"))));
    assert!(matches!(s.mode, AppMode::Scroll));
    assert!(!s.editing);
    // The draft returns to the input box.
    assert_eq!(s.input.chars, chars("draft"));
}

#[test]
fn edit_cancel_restores_draft() {
    let mut s = state_with_messages(&[(1, 5, "mine")]);
    s.current_user = 5;
    s.handle_key(Key::Char('i'));
    type_text(&mut s, "draft");
    s.handle_key(Key::Esc);
    s.handle_key(Key::Char('s'));
    s.handle_key(Key::Char('e'));
    s.handle_key(Key::Esc); // back to normal, still editing
    assert!(matches!(s.mode, AppMode::TextNormal));
    s.handle_key(Key::Esc); // cancel the edit
    assert!(matches!(s.mode, AppMode::Scroll));
    assert!(!s.editing);
    assert_eq!(s.input.chars, chars("draft"));
}

#[test]
fn delete_confirmation_flow() {
    let mut s = state_with_messages(&[(1, 5, "mine")]);
    s.current_user = 5;
    s.mode = AppMode::Scroll;
    s.handle_key(Key::Char('d'));
    assert!(matches!(s.mode, AppMode::Delete));
    let r = s.handle_key(Key::Char('y'));
    assert_eq!(r, Some(ClientEvent::Delete(1)));
    assert!(matches!(s.mode, AppMode::Scroll));
}

#[test]
fn delete_confirmation_declined() {
    let mut s = state_with_messages(&[(1, 5, "mine")]);
    s.current_user = 5;
    s.mode = AppMode::Delete;
    let r = s.handle_key(Key::Char('n'));
    assert_eq!(r, None);
    assert!(matches!(s.mode, AppMode::Scroll));
}

#[test]
fn ctrl_d_deletes_own_message_without_prompt() {
    let mut s = state_with_messages(&[(1, 5, "mine")]);
    s.current_user = 5;
    s.mode = AppMode::Scroll;
    let r = s.handle_key(Key::CtrlChar('d'));
    assert_eq!(r, Some(ClientEvent::Delete(1)));
}

#[test]
fn delete_of_foreign_message_is_refused() {
    let mut s = state_with_messages(&[(1, 9, "theirs")]);
    s.current_user = 5;
    s.mode = AppMode::Scroll;
    assert_eq!(s.handle_key(Key::CtrlChar('d')), None);
    s.mode = AppMode::Delete;
    assert_eq!(s.handle_key(Key::Char('y')), None);
}

#[test]
fn guild_selection_moves_and_enters() {
    let mut s = AppState::default();
    add_guild(&mut s, 1, chars("A"));
    add_guild(&mut s, 2, chars("B"));
    s.mode = AppMode::GuildSelect;
    s.handle_key(Key::Char('j'));
    assert_eq!(s.guilds_select, Some(0));
    s.handle_key(Key::Char('j'));
    assert_eq!(s.guilds_select, Some(1));
    s.handle_key(Key::Char('j'));
    assert_eq!(s.guilds_select, Some(1)); // clamped
    s.handle_key(Key::Char('k'));
    assert_eq!(s.guilds_select, Some(0));
    let r = s.handle_key(Key::Enter);
    // The entered guild has no channels loaded: a fetch is requested.
    assert_eq!(r, Some(ClientEvent::GetChannels));
    assert_eq!(s.current_guild, Some(1));
    assert!(matches!(s.mode, AppMode::ChannelSelect));
}

#[test]
fn guild_selection_on_empty_list_stays_absent() {
    let mut s = AppState::default();
    s.mode = AppMode::GuildSelect;
    s.handle_key(Key::Char('j'));
    assert_eq!(s.guilds_select, None);
    s.handle_key(Key::Char('k'));
    assert_eq!(s.guilds_select, None);
}

#[test]
fn channel_selection_moves_and_enters() {
    let mut s = state_with_messages(&[(1, 9, "a")]);
    s.mode = AppMode::ChannelSelect;
    s.guilds_map.get_mut(&1).unwrap().current_channel = None;
    s.handle_key(Key::Char('j'));
    assert_eq!(s.guilds_map.get(&1).unwrap().channels_select, Some(0));
    let r = s.handle_key(Key::Enter);
    // The channel already has messages: no fetch needed.
    assert_eq!(r, None);
    assert_eq!(s.guilds_map.get(&1).unwrap().current_channel, Some(10));
    assert!(matches!(s.mode, AppMode::TextNormal));
}

#[test]
fn entering_empty_channel_asks_for_messages() {
    let mut s = AppState::default();
    add_guild(&mut s, 1, chars("g"));
    add_channel(&mut s, 1, 10, chars("c"));
    s.current_guild = Some(1);
    s.mode = AppMode::ChannelSelect;
    s.handle_key(Key::Char('j'));
    let r = s.handle_key(Key::Enter);
    assert_eq!(r, Some(ClientEvent::GetMoreMessages(None)));
}

#[test]
fn guild_leave_flow() {
    let mut s = AppState::default();
    add_guild(&mut s, 1, chars("A"));
    add_guild(&mut s, 2, chars("B"));
    s.mode = AppMode::GuildSelect;
    s.handle_key(Key::Char('j'));
    s.handle_key(Key::Char('j'));
    s.handle_key(Key::Char('l'));
    assert!(matches!(s.mode, AppMode::GuildLeave));
    let r = s.handle_key(Key::Char('y'));
    assert_eq!(r, Some(ClientEvent::LeaveGuild(2)));
    assert!(matches!(s.mode, AppMode::GuildSelect));
}

#[test]
fn guild_leave_declined() {
    let mut s = AppState::default();
    add_guild(&mut s, 1, chars("A"));
    s.mode = AppMode::GuildLeave;
    s.guilds_select = Some(0);
    let r = s.handle_key(Key::Esc);
    assert_eq!(r, None);
    assert!(matches!(s.mode, AppMode::GuildSelect));
}

#[test]
fn cursor_moves_in_normal_mode() {
    let mut s = AppState::default();
    s.handle_key(Key::Char('i'));
    type_text(&mut s, "ab");
    s.handle_key(Key::Esc);
    s.handle_key(Key::Char('h'));
    assert_eq!(s.input.char_pos, 1);
    s.handle_key(Key::Char('l'));
    assert_eq!(s.input.char_pos, 2);
    // In insert mode those same letters are text, not movement.
    s.handle_key(Key::Char('i'));
    s.handle_key(Key::Char('h'));
    assert_eq!(s.input.chars, chars("abh"));
}

#[test]
fn stored_message_text_is_intact_after_edit_begins() {
    // Beginning an edit copies the text; the stored message keeps it.
    let mut s = state_with_messages(&[(1, 5, "mine")]);
    s.current_user = 5;
    s.mode = AppMode::Scroll;
    s.handle_key(Key::Char('e'));
    let ch = &s.guilds_map.get(&1).unwrap().channels_map[&10];
    let MessageContent::Text(t) = &ch.messages_map[&1].content;
    assert_eq!(t, &chars("mine"));
}

#[test]
fn command_backspace_mid_buffer_and_at_start() {
    let mut s = AppState::default();
    s.handle_key(Key::Char(':'));
    type_text(&mut s, "ab");
    s.handle_key(Key::Left);
    s.handle_key(Key::Left);
    // The cursor sits at the start of a non-empty prompt: backspace does
    // nothing and the mode holds.
    s.handle_key(Key::Backspace);
    assert!(matches!(s.mode, AppMode::Command));
    assert_eq!(s.command.chars, chars("ab"));
    s.handle_key(Key::Right);
    s.handle_key(Key::Backspace);
    assert_eq!(s.command.chars, chars("b"));
}

#[test]
fn unhandled_keys_change_nothing() {
    let mut s = state_with_messages(&[(1, 9, "a")]);
    s.mode = AppMode::Scroll;
    assert_eq!(s.handle_key(Key::Char('x')), None);
    assert!(matches!(s.mode, AppMode::Scroll));
    assert_eq!(s.handle_key(Key::Other), None);
    s.mode = AppMode::GuildSelect;
    assert_eq!(s.handle_key(Key::Char('x')), None);
    assert!(matches!(s.mode, AppMode::GuildSelect));
}
