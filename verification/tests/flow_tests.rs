//! One longer flow through the library, driving it the way the program
//! does: fetch results feed the store, key presses drive the controller,
//! and the emitted intents are answered with further results.

use ilo_toki::event::{ClientEvent, Key};
use ilo_toki::store::{AppMode, AppState};
use ilo_toki::sync::{
    apply_event, apply_fetch_result, handle_user, ChatEvent, FetchResult, IncomingContent,
    MessageData,
};

fn chars(s: &str) -> Vec<char> {
    s.chars().collect()
}

fn text_message(author_id: u64, text: &str, created_at: u64) -> MessageData {
    MessageData {
        author_id,
        override_username: None,
        content: IncomingContent::Text(chars(text)),
        created_at,
        edited_at: None,
    }
}

#[test]
fn full_session_flow() {
    let mut s = AppState::default();
    s.current_user = 42;

    // The guild list arrives.
    apply_fetch_result(&mut s, FetchResult::GuildFetched { guild_id: 1, name: chars("home") });
    apply_fetch_result(&mut s, FetchResult::GuildFetched { guild_id: 2, name: chars("work") });

    // Pick the second guild; its channels are not loaded yet.
    s.handle_key(Key::Char('g'));
    s.handle_key(Key::Char('j'));
    s.handle_key(Key::Char('j'));
    let r = s.handle_key(Key::Enter);
    assert_eq!(r, Some(ClientEvent::GetChannels));
    assert_eq!(s.current_guild, Some(2));

    // The channel list arrives; pick the first channel.
    apply_fetch_result(
        &mut s,
        FetchResult::ChannelListFetched {
            guild_id: 2,
            entries: vec![(10, chars("general")), (11, chars("random"))],
        },
    );
    s.handle_key(Key::Char('j'));
    let r = s.handle_key(Key::Enter);
    assert_eq!(r, Some(ClientEvent::GetMoreMessages(None)));
    assert!(matches!(s.mode, AppMode::TextNormal));

    // The first page arrives (newest first); the first entry is the
    // boundary and is skipped, and the page's authors get resolved.
    let authors = apply_fetch_result(
        &mut s,
        FetchResult::MessagePageFetched {
            guild_id: 2,
            channel_id: 10,
            entries: vec![
                (3, text_message(42, "mine", 3)),
                (2, text_message(7, "hi there", 2)),
                (1, text_message(7, "hello", 1)),
            ],
        },
    );
    assert_eq!(authors, vec![7]);
    handle_user(&mut s, 7, chars("ana"), false);

    // A live message arrives; its author (the current user, never
    // fetched so far) still needs resolving.
    let follow_up = apply_event(
        &mut s,
        ChatEvent::SentMessage {
            guild_id: 2,
            channel_id: 10,
            message_id: 4,
            data: text_message(42, "mime", 4),
        },
    );
    assert_eq!(follow_up, Some(ClientEvent::GetUser(42)));
    handle_user(&mut s, 42, chars("me"), false);
    {
        let ch = &s.guilds_map.get(&2).unwrap().channels_map[&10];
        assert_eq!(ch.messages_list, vec![1, 2, 4]);
    }

    // Scroll to the just-sent message and fix its typo.
    s.handle_key(Key::Char('s'));
    s.handle_key(Key::Char('e'));
    assert!(s.editing);
    assert_eq!(s.input.chars, chars("mime"));
    s.handle_key(Key::Backspace);
    s.handle_key(Key::Backspace);
    s.handle_key(Key::Char('n'));
    s.handle_key(Key::Char('e'));
    let r = s.handle_key(Key::Enter);
    assert_eq!(r, Some(ClientEvent::Edit(4, chars("mine"))));

    // The confirming edit event comes back from the server.
    apply_event(
        &mut s,
        ChatEvent::EditedMessage {
            guild_id: 2,
            channel_id: 10,
            message_id: 4,
            new_content: Some(chars("mine")),
            edited_at: 99,
        },
    );
    let ch = &s.guilds_map.get(&2).unwrap().channels_map[&10];
    assert_eq!(ch.messages_map[&4].edited_timestamp, Some(99));

    // Leave via the command prompt.
    s.handle_key(Key::Esc);
    s.handle_key(Key::Esc);
    s.handle_key(Key::Char(':'));
    s.handle_key(Key::Char('q'));
    let r = s.handle_key(Key::Enter);
    assert_eq!(r, Some(ClientEvent::Quit));
}
