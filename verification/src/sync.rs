//! The sync engine: applies inbound push events and fetch results to the
//! entity store, preserving its invariants, and emits follow-up intents
//! when information is missing (an unknown message author).
//!
//! Every application degrades to a no-op on a missing target: an event for
//! a channel or message the store does not track leaves the store exactly
//! as it was.

use vstd::prelude::*;
use crate::event::ClientEvent;
use crate::store::{
    channel_written, find_id, lemma_channel_written_refl, lemma_channel_written_trans,
    lemma_channel_written_wf, lemma_paired_insert, lemma_paired_remove, lemma_paired_update,
    map_get_mut, AppState, Member, Message, MessageContent,
};

verus! {

/// The contents of an inbound message, as delivered by the event stream.
/// Kinds other than text are recognized but not materialized.
pub enum IncomingContent {
    /// A plain text body.
    Text(Vec<char>),
    /// Any content kind this client does not materialize.
    Other,
}

/// An inbound message, stripped down to what the store keeps.
pub struct MessageData {
    /// The user id of the author.
    pub author_id: u64,
    /// If present, overrides the author's display name.
    pub override_username: Option<Vec<char>>,
    /// The content of the message.
    pub content: IncomingContent,
    /// The timestamp the message was created at.
    pub created_at: u64,
    /// The timestamp the message was edited at, if ever.
    pub edited_at: Option<u64>,
}

/// The stored form of an inbound text message.
pub open spec fn message_of(message_id: u64, data: MessageData) -> Message
    recommends
        data.content is Text,
{
    Message {
        id: message_id,
        author_id: data.author_id,
        override_username: data.override_username,
        content: MessageContent::Text(data.content->Text_0),
        timestamp: data.created_at,
        edited_timestamp: data.edited_at,
    }
}

/// Position at which a message asked to sit at `index` actually lands in a
/// list of length `len`: past-the-end indices append.
pub open spec fn landing_index(index: usize, len: nat) -> int {
    if index <= len {
        index as int
    } else {
        len as int
    }
}

/// Whether storing `data` under `message_id` changes channel `(guild_id,
/// channel_id)` of `pre` at all: the channel must be tracked, the content
/// must be text, and the id must be new.
pub open spec fn message_stored(
    pre: AppState,
    guild_id: u64,
    channel_id: u64,
    message_id: u64,
    data: MessageData,
) -> bool {
    &&& pre.spec_channel(guild_id, channel_id) is Some
    &&& data.content is Text
    &&& !pre.spec_channel(guild_id, channel_id).unwrap().messages_map@.contains_key(message_id)
}

/// How an inbound message changes the store: when [`message_stored`]
/// holds, exactly one channel gains the message in its map and ordered
/// list; otherwise nothing changes.
pub open spec fn message_applied(
    pre: AppState,
    post: AppState,
    guild_id: u64,
    channel_id: u64,
    message_id: u64,
    data: MessageData,
    index: usize,
) -> bool {
    if message_stored(pre, guild_id, channel_id, message_id, data) {
        let c0 = pre.spec_channel(guild_id, channel_id).unwrap();
        let c1 = post.spec_channel(guild_id, channel_id).unwrap();
        let at = landing_index(index, c0.messages_list@.len());
        &&& channel_written(pre, post, guild_id, channel_id, c1)
        &&& c1.messages_list@ == c0.messages_list@.insert(at, message_id)
        &&& c1.messages_map@ == c0.messages_map@.insert(message_id, message_of(message_id, data))
        &&& c1.id == c0.id
        &&& c1.guild_id == c0.guild_id
        &&& c1.name == c0.name
        &&& c1.scroll_selected == c0.scroll_selected
    } else {
        post == pre
    }
}

/// Handles an inbound message: if its channel is tracked, its content is
/// text and its id is new, it is stored in the channel's map and placed in
/// the ordered list at `index` (or at the end when `index` is past it);
/// anything else is a no-op.  Returns the author's id exactly when that
/// author is not yet known, so the caller can fetch the profile.
pub fn handle_message(
    state: &mut AppState,
    data: MessageData,
    guild_id: u64,
    channel_id: u64,
    message_id: u64,
    index: usize,
) -> (r: Option<u64>)
    requires
        old(state).wf(),
    ensures
        final(state).wf(),
        r == if old(state).users@.contains_key(data.author_id) {
            None::<u64>
        } else {
            Some(data.author_id)
        },
        message_applied(*old(state), *final(state), guild_id, channel_id, message_id, data, index),
{
    let ghost pre = *state;
    let author_id = data.author_id;
    match state.get_channel_mut(guild_id, channel_id) {
        None => {},
        Some(channel) => {
            let ghost c0 = *channel;
            match data.content {
                IncomingContent::Other => {},
                IncomingContent::Text(text) => {
                    if !channel.messages_map.contains_key(&message_id) {
                        let message = Message {
                            id: message_id,
                            author_id,
                            override_username: data.override_username,
                            content: MessageContent::Text(text),
                            timestamp: data.created_at,
                            edited_timestamp: data.edited_at,
                        };
                        let ghost at = landing_index(index, c0.messages_list@.len());
                        if index >= channel.messages_list.len() {
                            channel.messages_list.push(message_id);
                            proof {
                                assert(channel.messages_list@ =~= c0.messages_list@.insert(
                                    at,
                                    message_id,
                                ));
                            }
                        } else {
                            channel.messages_list.insert(index, message_id);
                        }
                        channel.messages_map.insert(message_id, message);
                        proof {
                            lemma_paired_insert(
                                c0.messages_list@,
                                c0.messages_map@,
                                at,
                                message_id,
                                message_of(message_id, data),
                            );
                            assert(channel.wf());
                        }
                    }
                },
            }
        },
    }
    proof {
        if message_stored(pre, guild_id, channel_id, message_id, data) {
            let c1 = final(state).spec_channel(guild_id, channel_id).unwrap();
            lemma_channel_written_wf(pre, *state, guild_id, channel_id, c1);
        }
    }
    if !state.users.contains_key(&author_id) {
        Some(author_id)
    } else {
        None
    }
}

/// Records a member's profile, creating it on first sight and replacing it
/// on a redundant fetch.
pub fn handle_user(state: &mut AppState, user_id: u64, name: Vec<char>, is_bot: bool)
    requires
        old(state).wf(),
    ensures
        final(state).wf(),
        final(state).users@ == old(state).users@.insert(user_id, Member { name, is_bot }),
        final(state).mode == old(state).mode,
        final(state).guilds_map == old(state).guilds_map,
        final(state).guilds_list == old(state).guilds_list,
        final(state).guilds_select == old(state).guilds_select,
        final(state).current_guild == old(state).current_guild,
        final(state).current_user == old(state).current_user,
        final(state).editing == old(state).editing,
        final(state).input == old(state).input,
        final(state).old_input == old(state).old_input,
        final(state).command == old(state).command,
{
    state.users.insert(user_id, Member { name, is_bot });
}

/// A guild with no channels yet, as created from a guild-list or
/// guild-details fetch.
pub open spec fn fresh_guild(g: crate::store::Guild, guild_id: u64, name: Vec<char>) -> bool {
    &&& g.id == guild_id
    &&& g.name == name
    &&& g.channels_list@ == Seq::<u64>::empty()
    &&& g.channels_select is None
    &&& g.channels_map@ == Map::<u64, crate::store::Channel>::empty()
    &&& g.current_channel is None
}

/// A channel with no messages yet, as created from a channel-list fetch.
pub open spec fn fresh_channel(
    c: crate::store::Channel,
    channel_id: u64,
    guild_id: u64,
    name: Vec<char>,
) -> bool {
    &&& c.id == channel_id
    &&& c.guild_id == guild_id
    &&& c.name == name
    &&& c.scroll_selected == 0
    &&& c.messages_map@ == Map::<u64, Message>::empty()
    &&& c.messages_list@ == Seq::<u64>::empty()
}

/// How a fetched guild changes the store: a newly seen guild is appended
/// to the list and map, fresh and empty; one already present is left
/// exactly as it was (no duplicate insertion on redundant fetches).
pub open spec fn guild_added(pre: AppState, post: AppState, guild_id: u64, name: Vec<char>) -> bool {
    if pre.guilds_map@.contains_key(guild_id) {
        post == pre
    } else {
        &&& post.guilds_list@ == pre.guilds_list@.push(guild_id)
        &&& post.guilds_map@ == pre.guilds_map@.insert(guild_id, post.guilds_map@[guild_id])
        &&& fresh_guild(post.guilds_map@[guild_id], guild_id, name)
        &&& post.mode == pre.mode
        &&& post.users == pre.users
        &&& post.guilds_select == pre.guilds_select
        &&& post.current_guild == pre.current_guild
        &&& post.current_user == pre.current_user
        &&& post.editing == pre.editing
        &&& post.input == pre.input
        &&& post.old_input == pre.old_input
        &&& post.command == pre.command
    }
}

/// Appends a newly seen guild to the store; a guild already present is
/// left exactly as it was.
pub fn add_guild(state: &mut AppState, guild_id: u64, name: Vec<char>)
    requires
        old(state).wf(),
    ensures
        final(state).wf(),
        guild_added(*old(state), *final(state), guild_id, name),
{
    let ghost pre = *state;
    if state.guilds_map.contains_key(&guild_id) {
        return ;
    }
    let guild = crate::store::Guild {
        id: guild_id,
        channels_list: Vec::new(),
        channels_select: None,
        channels_map: std::collections::HashMap::new(),
        name,
        current_channel: None,
    };
    state.guilds_list.push(guild_id);
    state.guilds_map.insert(guild_id, guild);
    proof {
        assert(pre.guilds_list@.push(guild_id) =~= pre.guilds_list@.insert(
            pre.guilds_list@.len() as int,
            guild_id,
        ));
        lemma_paired_insert(
            pre.guilds_list@,
            pre.guilds_map@,
            pre.guilds_list@.len() as int,
            guild_id,
            final(state).guilds_map@[guild_id],
        );
        assert forall|id: u64| #[trigger] final(state).guilds_map@.contains_key(id) implies {
            &&& final(state).guilds_map@[id].wf()
            &&& final(state).guilds_map@[id].id == id
        } by {
            if id != guild_id {
                assert(pre.guilds_map@.contains_key(id));
            }
        }
    }
}

/// How one fetched channel changes the store: a newly seen channel is
/// appended to its tracked guild, fresh and empty; an untracked guild or
/// a channel already present leaves the store exactly as it was.
pub open spec fn channel_added(
    pre: AppState,
    post: AppState,
    guild_id: u64,
    channel_id: u64,
    name: Vec<char>,
) -> bool {
    if !pre.guilds_map@.contains_key(guild_id)
        || pre.guilds_map@[guild_id].channels_map@.contains_key(channel_id) {
        post == pre
    } else {
        let g0 = pre.guilds_map@[guild_id];
        let g1 = post.guilds_map@[guild_id];
        &&& crate::store::guild_written(pre, post, guild_id, g1)
        &&& g1.channels_list@ == g0.channels_list@.push(channel_id)
        &&& g1.channels_map@ == g0.channels_map@.insert(channel_id, g1.channels_map@[channel_id])
        &&& fresh_channel(g1.channels_map@[channel_id], channel_id, guild_id, name)
        &&& g1.id == g0.id
        &&& g1.channels_select == g0.channels_select
        &&& g1.name == g0.name
        &&& g1.current_channel == g0.current_channel
    }
}

/// Appends a newly seen channel to a tracked guild; an untracked guild is
/// a no-op, and a channel already present is left exactly as it was.
pub fn add_channel(state: &mut AppState, guild_id: u64, channel_id: u64, name: Vec<char>)
    requires
        old(state).wf(),
    ensures
        final(state).wf(),
        channel_added(*old(state), *final(state), guild_id, channel_id, name),
{
    let ghost pre = *state;
    match map_get_mut(&mut state.guilds_map, guild_id) {
        None => {},
        Some(guild) => {
            let ghost g0 = *guild;
            if !guild.channels_map.contains_key(&channel_id) {
                let channel = crate::store::Channel {
                    id: channel_id,
                    guild_id,
                    name,
                    scroll_selected: 0,
                    messages_map: std::collections::HashMap::new(),
                    messages_list: Vec::new(),
                };
                guild.channels_list.push(channel_id);
                guild.channels_map.insert(channel_id, channel);
                proof {
                    assert(g0.channels_list@.push(channel_id) =~= g0.channels_list@.insert(
                        g0.channels_list@.len() as int,
                        channel_id,
                    ));
                    lemma_paired_insert(
                        g0.channels_list@,
                        g0.channels_map@,
                        g0.channels_list@.len() as int,
                        channel_id,
                        guild.channels_map@[channel_id],
                    );
                    assert forall|id: u64| #[trigger] guild.channels_map@.contains_key(id)
                        implies {
                        &&& guild.channels_map@[id].wf()
                        &&& guild.channels_map@[id].id == id
                        &&& guild.channels_map@[id].guild_id == guild.id
                    } by {
                        if id != channel_id {
                            assert(g0.channels_map@.contains_key(id));
                        }
                    }
                    assert(guild.wf());
                }
            }
        },
    }
    proof {
        if pre.guilds_map@.contains_key(guild_id)
            && !pre.guilds_map@[guild_id].channels_map@.contains_key(channel_id) {
            crate::store::lemma_guild_written_wf(
                pre,
                *state,
                guild_id,
                final(state).guilds_map@[guild_id],
            );
        }
    }
}

/// How a whole fetched channel list changes the store: its entries are
/// applied in order, each as one [`channel_added`] step.
pub open spec fn channel_list_applied(
    pre: AppState,
    post: AppState,
    guild_id: u64,
    entries: Seq<(u64, Vec<char>)>,
) -> bool
    decreases entries.len(),
{
    if entries.len() == 0 {
        post == pre
    } else {
        exists|mid: AppState|
            #[trigger] channel_added(pre, mid, guild_id, entries[0].0, entries[0].1)
                && channel_list_applied(mid, post, guild_id, entries.drop_first())
    }
}

/// One more `channel_added` step extends a sequential application by one
/// entry at its end.
proof fn lemma_channel_list_applied_snoc(
    pre: AppState,
    mid: AppState,
    post: AppState,
    guild_id: u64,
    entries: Seq<(u64, Vec<char>)>,
    channel_id: u64,
    name: Vec<char>,
)
    requires
        channel_list_applied(pre, mid, guild_id, entries),
        channel_added(mid, post, guild_id, channel_id, name),
    ensures
        channel_list_applied(pre, post, guild_id, entries.push((channel_id, name))),
    decreases entries.len(),
{
    let whole = entries.push((channel_id, name));
    if entries.len() == 0 {
        assert(mid == pre);
        assert(whole[0] == (channel_id, name));
        assert(whole.drop_first() =~= Seq::<(u64, Vec<char>)>::empty());
        assert(channel_added(pre, post, guild_id, whole[0].0, whole[0].1));
        assert(channel_list_applied(post, post, guild_id, whole.drop_first()));
    } else {
        let m1 = choose|m1: AppState|
            #[trigger] channel_added(pre, m1, guild_id, entries[0].0, entries[0].1)
                && channel_list_applied(m1, mid, guild_id, entries.drop_first());
        lemma_channel_list_applied_snoc(
            m1,
            mid,
            post,
            guild_id,
            entries.drop_first(),
            channel_id,
            name,
        );
        assert(whole.drop_first() =~= entries.drop_first().push((channel_id, name)));
        assert(whole[0] == entries[0]);
        assert(channel_added(pre, m1, guild_id, whole[0].0, whole[0].1));
    }
}

/// Applies a fetched channel list to a guild, entry by entry: newly seen
/// channels are appended in order, ones already present are skipped, and
/// an untracked guild leaves the store unchanged.
pub fn apply_channel_list(
    state: &mut AppState,
    guild_id: u64,
    mut entries: Vec<(u64, Vec<char>)>,
)
    requires
        old(state).wf(),
    ensures
        final(state).wf(),
        channel_list_applied(*old(state), *final(state), guild_id, entries@),
{
    let ghost pre = *state;
    let ghost full = entries@;
    proof {
        assert(full.take(0) =~= Seq::<(u64, Vec<char>)>::empty());
        assert(full.skip(0) =~= full);
    }
    while entries.len() > 0
        invariant
            state.wf(),
            entries@.len() <= full.len(),
            entries@ == full.skip(full.len() - entries@.len()),
            channel_list_applied(
                pre,
                *state,
                guild_id,
                full.take(full.len() - entries@.len()),
            ),
        decreases entries@.len(),
    {
        let ghost k: int = full.len() - entries@.len();
        let ghost s_before = *state;
        let (channel_id, name) = entries.remove(0);
        proof {
            assert(entries@ =~= full.skip(k + 1));
            assert((channel_id, name) == full[k]);
        }
        add_channel(state, guild_id, channel_id, name);
        proof {
            lemma_channel_list_applied_snoc(
                pre,
                s_before,
                *state,
                guild_id,
                full.take(k),
                channel_id,
                name,
            );
            assert(full.take(k).push((channel_id, name)) =~= full.take(k + 1));
        }
    }
    proof {
        assert(full.take(full.len() as int) =~= full);
    }
}

/// The ordered list and message map of a channel after a history page is
/// folded in, entry by entry: each text message with a new id is stored
/// and its id prepended; everything else is skipped.
pub open spec fn page_fold(
    l: Seq<u64>,
    m: Map<u64, Message>,
    entries: Seq<(u64, MessageData)>,
) -> (Seq<u64>, Map<u64, Message>)
    decreases entries.len(),
{
    if entries.len() == 0 {
        (l, m)
    } else {
        let mid = entries[0].0;
        let data = entries[0].1;
        if data.content is Text && !m.contains_key(mid) {
            page_fold(l.insert(0, mid), m.insert(mid, message_of(mid, data)), entries.drop_first())
        } else {
            page_fold(l, m, entries.drop_first())
        }
    }
}

/// The authors of a page's entries that are not yet known, in first-seen
/// order, each exactly once.
pub open spec fn unknown_authors(known: Set<u64>, entries: Seq<(u64, MessageData)>) -> Seq<u64>
    decreases entries.len(),
{
    if entries.len() == 0 {
        Seq::<u64>::empty()
    } else {
        let a = entries[0].1.author_id;
        if known.contains(a) {
            unknown_authors(known, entries.drop_first())
        } else {
            seq![a] + unknown_authors(known.insert(a), entries.drop_first())
        }
    }
}

/// A page's processed entries: everything after the boundary entry.
pub open spec fn page_rest(entries: Seq<(u64, MessageData)>) -> Seq<(u64, MessageData)> {
    if entries.len() == 0 {
        Seq::<(u64, MessageData)>::empty()
    } else {
        entries.drop_first()
    }
}

/// How a fetched history page changes its channel: the processed entries
/// are folded into the ordered list and message map; an untracked channel
/// stays untouched.
pub open spec fn message_page_applied(
    pre: AppState,
    post: AppState,
    guild_id: u64,
    channel_id: u64,
    entries: Seq<(u64, MessageData)>,
) -> bool {
    &&& (pre.spec_channel(guild_id, channel_id) is None ==> post == pre)
    &&& (pre.spec_channel(guild_id, channel_id) is Some ==> {
        let c0 = pre.spec_channel(guild_id, channel_id).unwrap();
        let c1 = post.spec_channel(guild_id, channel_id).unwrap();
        &&& channel_written(pre, post, guild_id, channel_id, c1)
        &&& (c1.messages_list@, c1.messages_map@) == page_fold(
            c0.messages_list@,
            c0.messages_map@,
            page_rest(entries),
        )
        &&& c1.id == c0.id
        &&& c1.guild_id == c0.guild_id
        &&& c1.name == c0.name
        &&& c1.scroll_selected == c0.scroll_selected
    })
}

/// Applies a fetched history page to channel `(guild_id, channel_id)`.
/// The first entry duplicates the boundary message already held locally
/// and is skipped; each remaining text message with a new id is prepended
/// to the ordered list (so a newest-first page lands oldest-first).
/// Returns the authors the caller should resolve: those of the page's
/// processed entries not yet in the member map, each once.
pub fn apply_message_page(
    state: &mut AppState,
    guild_id: u64,
    channel_id: u64,
    mut entries: Vec<(u64, MessageData)>,
) -> (authors: Vec<u64>)
    requires
        old(state).wf(),
    ensures
        final(state).wf(),
        authors@ == unknown_authors(old(state).users@.dom(), page_rest(entries@)),
        message_page_applied(*old(state), *final(state), guild_id, channel_id, entries@),
{
    let ghost pre = *state;
    let ghost full = page_rest(entries@);
    let ghost users0 = old(state).users@.dom();
    let mut authors: Vec<u64> = Vec::new();
    let ghost known = users0;
    if entries.len() == 0 {
        proof {
            if pre.spec_channel(guild_id, channel_id) is Some {
                lemma_channel_written_refl(pre, guild_id, channel_id);
            }
        }
        return authors;
    }
    let _boundary = entries.remove(0);
    proof {
        assert(entries@ =~= full);
        if pre.spec_channel(guild_id, channel_id) is Some {
            lemma_channel_written_refl(pre, guild_id, channel_id);
        }
    }
    while entries.len() > 0
        invariant
            state.wf(),
            state.users == pre.users,
            unknown_authors(users0, full) == authors@ + unknown_authors(known, entries@),
            forall|a: u64| known.contains(a) <==> (pre.users@.contains_key(a)
                || authors@.contains(a)),
            pre.spec_channel(guild_id, channel_id) is None ==> *state == pre,
            pre.spec_channel(guild_id, channel_id) is Some ==> {
                let c0 = pre.spec_channel(guild_id, channel_id).unwrap();
                let cc = state.spec_channel(guild_id, channel_id).unwrap();
                &&& channel_written(pre, *state, guild_id, channel_id, cc)
                &&& page_fold(cc.messages_list@, cc.messages_map@, entries@) == page_fold(
                    c0.messages_list@,
                    c0.messages_map@,
                    full,
                )
                &&& cc.id == c0.id
                &&& cc.guild_id == c0.guild_id
                &&& cc.name == c0.name
                &&& cc.scroll_selected == c0.scroll_selected
            },
        decreases entries@.len(),
    {
        let ghost s_before = *state;
        let ghost entries_before = entries@;
        let ghost authors_before = authors@;
        let ghost known_before = known;
        let (message_id, data) = entries.remove(0);
        let ghost a = data.author_id;
        proof {
            assert(entries@ =~= entries_before.drop_first());
        }
        let r = handle_message(state, data, guild_id, channel_id, message_id, 0);
        proof {
            if pre.spec_channel(guild_id, channel_id) is Some {
                let c0 = pre.spec_channel(guild_id, channel_id).unwrap();
                let cb = s_before.spec_channel(guild_id, channel_id).unwrap();
                let cc = state.spec_channel(guild_id, channel_id).unwrap();
                if message_stored(s_before, guild_id, channel_id, message_id, data) {
                    assert(cc.messages_list@ == cb.messages_list@.insert(0, message_id));
                    lemma_channel_written_trans(
                        pre,
                        s_before,
                        *state,
                        guild_id,
                        channel_id,
                        cb,
                        cc,
                    );
                } else {
                    assert(*state == s_before);
                }
            }
        }
        match r {
            None => {
                proof {
                    assert(known_before.contains(a));
                }
            },
            Some(author_id) => {
                match crate::store::find_id(&authors, author_id) {
                    Some(_) => {
                        proof {
                            assert(authors_before.contains(a));
                        }
                    },
                    None => {
                        authors.push(author_id);
                        proof {
                            known = known_before.insert(a);
                            assert(!known_before.contains(a));
                            assert(unknown_authors(known_before, entries_before) == seq![a]
                                + unknown_authors(known, entries_before.drop_first()));
                            assert(authors@ =~= authors_before + seq![a]);
                            assert(authors_before + (seq![a] + unknown_authors(
                                known,
                                entries_before.drop_first(),
                            )) =~= (authors_before + seq![a]) + unknown_authors(
                                known,
                                entries_before.drop_first(),
                            ));
                            assert forall|x: u64| known.contains(x) <==> (
                                pre.users@.contains_key(x) || authors@.contains(x)) by {
                                if x == a {
                                    assert(authors@[authors@.len() - 1] == a);
                                } else {
                                    assert(authors@.contains(x) <==> authors_before.contains(
                                        x,
                                    )) by {
                                        if authors@.contains(x) {
                                            let j = choose|j: int|
                                                0 <= j < authors@.len() && authors@[j] == x;
                                            assert(authors_before[j] == x);
                                        } else {
                                        }
                                        if authors_before.contains(x) {
                                            let j = choose|j: int|
                                                0 <= j < authors_before.len()
                                                    && authors_before[j] == x;
                                            assert(authors@[j] == x);
                                        }
                                    }
                                }
                            }
                        }
                    },
                }
            },
        }
    }
    proof {
        assert(entries@ =~= Seq::<(u64, MessageData)>::empty());
        assert(unknown_authors(known, entries@) =~= Seq::<u64>::empty());
        assert(authors@ + Seq::<u64>::empty() =~= authors@);
        if pre.spec_channel(guild_id, channel_id) is Some {
            let c0 = pre.spec_channel(guild_id, channel_id).unwrap();
            let cc = state.spec_channel(guild_id, channel_id).unwrap();
            assert(page_fold(cc.messages_list@, cc.messages_map@, entries@) == (
                cc.messages_list@,
                cc.messages_map@,
            ));
        }
    }
    authors
}

/// The result of a fetch request, as handed back by the command
/// processor once the transport call resolved.
pub enum FetchResult {
    /// A guild's details arrived (from the guild list or a join).
    GuildFetched { guild_id: u64, name: Vec<char> },
    /// A guild's channel list arrived, as `(id, name)` pairs in order.
    ChannelListFetched { guild_id: u64, entries: Vec<(u64, Vec<char>)> },
    /// A message history page arrived, newest first, the boundary entry
    /// included.
    MessagePageFetched { guild_id: u64, channel_id: u64, entries: Vec<(u64, MessageData)> },
}

/// Applies one fetch result to the store: newly seen entities are
/// appended (never duplicated on redundant fetches), and a history page
/// is folded into its channel.  Returns the authors the caller should
/// resolve, in first-seen order.
pub fn apply_fetch_result(state: &mut AppState, result: FetchResult) -> (authors: Vec<u64>)
    requires
        old(state).wf(),
    ensures
        final(state).wf(),
        match result {
            FetchResult::GuildFetched { guild_id, name } => {
                &&& guild_added(*old(state), *final(state), guild_id, name)
                &&& authors@ == Seq::<u64>::empty()
            },
            FetchResult::ChannelListFetched { guild_id, entries } => {
                &&& channel_list_applied(*old(state), *final(state), guild_id, entries@)
                &&& authors@ == Seq::<u64>::empty()
            },
            FetchResult::MessagePageFetched { guild_id, channel_id, entries } => {
                &&& message_page_applied(
                    *old(state),
                    *final(state),
                    guild_id,
                    channel_id,
                    entries@,
                )
                &&& authors@ == unknown_authors(old(state).users@.dom(), page_rest(entries@))
            },
        },
{
    match result {
        FetchResult::GuildFetched { guild_id, name } => {
            add_guild(state, guild_id, name);
            Vec::new()
        },
        FetchResult::ChannelListFetched { guild_id, entries } => {
            apply_channel_list(state, guild_id, entries);
            Vec::new()
        },
        FetchResult::MessagePageFetched { guild_id, channel_id, entries } => {
            apply_message_page(state, guild_id, channel_id, entries)
        },
    }
}

/// An inbound push event, reduced to the variants this client
/// materializes; everything else arrives as `Other` and is discarded
/// without error.
pub enum ChatEvent {
    /// A message was sent to a channel.
    SentMessage { guild_id: u64, channel_id: u64, message_id: u64, data: MessageData },
    /// A message's text was replaced.
    EditedMessage {
        guild_id: u64,
        channel_id: u64,
        message_id: u64,
        new_content: Option<Vec<char>>,
        edited_at: u64,
    },
    /// A message was deleted.
    DeletedMessage { guild_id: u64, channel_id: u64, message_id: u64 },
    /// A guild left the account's guild list.
    GuildRemovedFromList { guild_id: u64 },
    /// Parts of a member's profile changed.
    ProfileUpdated { user_id: u64, new_username: Option<Vec<char>>, new_is_bot: Option<bool> },
    /// Any event kind this client does not materialize.
    Other,
}

/// Whether an edit event finds its target: a tracked channel, a tracked
/// message with text content, and a new text to store.
pub open spec fn edit_applies(
    pre: AppState,
    guild_id: u64,
    channel_id: u64,
    message_id: u64,
    new_content: Option<Vec<char>>,
) -> bool {
    &&& pre.spec_channel(guild_id, channel_id) is Some
    &&& new_content is Some
    &&& pre.spec_channel(guild_id, channel_id).unwrap().messages_map@.contains_key(message_id)
    &&& pre.spec_channel(guild_id, channel_id).unwrap().messages_map@[message_id].content is Text
}

/// How an edit event changes the store: when it applies, the target
/// message keeps its id, author and creation timestamp, its text is
/// replaced and its edit timestamp set; otherwise nothing changes.
pub open spec fn message_edited(
    pre: AppState,
    post: AppState,
    guild_id: u64,
    channel_id: u64,
    message_id: u64,
    new_content: Option<Vec<char>>,
    edited_at: u64,
) -> bool {
    if edit_applies(pre, guild_id, channel_id, message_id, new_content) {
        let c0 = pre.spec_channel(guild_id, channel_id).unwrap();
        let c1 = post.spec_channel(guild_id, channel_id).unwrap();
        let m1 = Message {
            content: MessageContent::Text(new_content.unwrap()),
            edited_timestamp: Some(edited_at),
            ..c0.messages_map@[message_id]
        };
        &&& channel_written(pre, post, guild_id, channel_id, c1)
        &&& c1.messages_map@ == c0.messages_map@.insert(message_id, m1)
        &&& c1.messages_list == c0.messages_list
        &&& c1.id == c0.id
        &&& c1.guild_id == c0.guild_id
        &&& c1.name == c0.name
        &&& c1.scroll_selected == c0.scroll_selected
    } else {
        post == pre
    }
}

/// Replaces the text of a tracked text message, setting its edit
/// timestamp; unknown channels, unknown message ids, absent new content
/// and non-text targets are no-ops.
pub fn apply_edited_message(
    state: &mut AppState,
    guild_id: u64,
    channel_id: u64,
    message_id: u64,
    new_content: Option<Vec<char>>,
    edited_at: u64,
)
    requires
        old(state).wf(),
    ensures
        final(state).wf(),
        message_edited(
            *old(state),
            *final(state),
            guild_id,
            channel_id,
            message_id,
            new_content,
            edited_at,
        ),
{
    let ghost pre = *state;
    match state.get_channel_mut(guild_id, channel_id) {
        None => {},
        Some(channel) => {
            let ghost c0 = *channel;
            match new_content {
                None => {},
                Some(text) => {
                    match map_get_mut(&mut channel.messages_map, message_id) {
                        None => {},
                        Some(message) => {
                            match &message.content {
                                MessageContent::Text(_) => {
                                    message.content = MessageContent::Text(text);
                                    message.edited_timestamp = Some(edited_at);
                                },
                            }
                        },
                    }
                    proof {
                        if c0.messages_map@.contains_key(message_id) {
                            lemma_paired_update(
                                c0.messages_list@,
                                c0.messages_map@,
                                message_id,
                                channel.messages_map@[message_id],
                            );
                        }
                    }
                },
            }
        },
    }
    proof {
        if edit_applies(pre, guild_id, channel_id, message_id, new_content) {
            let c1 = final(state).spec_channel(guild_id, channel_id).unwrap();
            lemma_channel_written_wf(pre, *state, guild_id, channel_id, c1);
        }
    }
}

/// Whether a delete event finds its target.
pub open spec fn delete_applies(pre: AppState, guild_id: u64, channel_id: u64, message_id: u64) -> bool {
    &&& pre.spec_channel(guild_id, channel_id) is Some
    &&& pre.spec_channel(guild_id, channel_id).unwrap().messages_map@.contains_key(message_id)
}

/// The scroll offset after a list shrank to `new_len`: clamped down so it
/// stays below the length, or zero for an empty list.
pub open spec fn clamped_scroll(scroll: nat, new_len: nat) -> nat {
    if scroll >= new_len {
        if new_len == 0 {
            0
        } else {
            (new_len - 1) as nat
        }
    } else {
        scroll
    }
}

/// How a delete event changes the store: when it applies, the message
/// leaves the map and exactly one position of the ordered list (the one
/// position holding its id), and the scroll offset is clamped down;
/// otherwise nothing changes.
pub open spec fn message_deleted(
    pre: AppState,
    post: AppState,
    guild_id: u64,
    channel_id: u64,
    message_id: u64,
) -> bool {
    if delete_applies(pre, guild_id, channel_id, message_id) {
        let c0 = pre.spec_channel(guild_id, channel_id).unwrap();
        let c1 = post.spec_channel(guild_id, channel_id).unwrap();
        let i = c0.messages_list@.index_of_first(message_id).unwrap();
        &&& channel_written(pre, post, guild_id, channel_id, c1)
        &&& c1.messages_map@ == c0.messages_map@.remove(message_id)
        &&& c1.messages_list@ == c0.messages_list@.remove(i)
        &&& c1.scroll_selected == clamped_scroll(
            c0.scroll_selected as nat,
            c1.messages_list@.len(),
        )
        &&& c1.id == c0.id
        &&& c1.guild_id == c0.guild_id
        &&& c1.name == c0.name
    } else {
        post == pre
    }
}

/// In a well-formed channel a message id occupies at most one position of
/// the ordered list, so a delete removes it from exactly one position.
pub proof fn lemma_message_position_unique(c: crate::store::Channel, i: int, j: int)
    requires
        c.wf(),
        0 <= i < c.messages_list@.len(),
        0 <= j < c.messages_list@.len(),
        c.messages_list@[i] == c.messages_list@[j],
    ensures
        i == j,
{
}

/// After a delete event finds its target, the message is gone from both
/// access paths of its channel.
pub proof fn lemma_deleted_message_gone(
    pre: AppState,
    post: AppState,
    guild_id: u64,
    channel_id: u64,
    message_id: u64,
)
    requires
        pre.wf(),
        delete_applies(pre, guild_id, channel_id, message_id),
        message_deleted(pre, post, guild_id, channel_id, message_id),
    ensures
        !post.spec_channel(guild_id, channel_id).unwrap().messages_map@.contains_key(message_id),
        !post.spec_channel(guild_id, channel_id).unwrap().messages_list@.contains(message_id),
{
    let c0 = pre.spec_channel(guild_id, channel_id).unwrap();
    let c1 = post.spec_channel(guild_id, channel_id).unwrap();
    c0.messages_list@.index_of_first_ensures(message_id);
    let i = c0.messages_list@.index_of_first(message_id).unwrap();
    c0.messages_list@.remove_ensures(i);
    assert forall|j: int| 0 <= j < c1.messages_list@.len() implies c1.messages_list@[j]
        != message_id by {
        if j < i {
            assert(c1.messages_list@[j] == c0.messages_list@[j]);
            if c0.messages_list@[j] == message_id {
                lemma_message_position_unique(c0, i, j);
            }
        } else {
            assert(c1.messages_list@[j] == c0.messages_list@[j + 1]);
            if c0.messages_list@[j + 1] == message_id {
                lemma_message_position_unique(c0, i, j + 1);
            }
        }
    }
}

/// Removes a message from both the id-keyed map and the ordered list,
/// clamping the scroll offset so it stays inside the shrunk list; unknown
/// channels and unknown message ids are no-ops.
pub fn apply_deleted_message(state: &mut AppState, guild_id: u64, channel_id: u64, message_id: u64)
    requires
        old(state).wf(),
    ensures
        final(state).wf(),
        message_deleted(*old(state), *final(state), guild_id, channel_id, message_id),
{
    let ghost pre = *state;
    match state.get_channel_mut(guild_id, channel_id) {
        None => {},
        Some(channel) => {
            let ghost c0 = *channel;
            if channel.messages_map.contains_key(&message_id) {
                channel.messages_map.remove(&message_id);
                match find_id(&channel.messages_list, message_id) {
                    None => {
                        proof {
                            assert(c0.messages_list@.contains(message_id));
                            assert(false);
                        }
                    },
                    Some(i) => {
                        proof {
                            c0.messages_list@.index_of_first_ensures(message_id);
                            let k = c0.messages_list@.index_of_first(message_id).unwrap();
                            assert(c0.messages_list@[k] == message_id);
                            assert(k == i);
                            lemma_paired_remove(c0.messages_list@, c0.messages_map@, i as int);
                        }
                        channel.messages_list.remove(i);
                        if channel.scroll_selected >= channel.messages_list.len() {
                            if channel.messages_list.len() == 0 {
                                channel.scroll_selected = 0;
                            } else {
                                channel.scroll_selected = channel.messages_list.len() - 1;
                            }
                        }
                    },
                }
            }
        },
    }
    proof {
        if delete_applies(pre, guild_id, channel_id, message_id) {
            let c1 = final(state).spec_channel(guild_id, channel_id).unwrap();
            lemma_channel_written_wf(pre, *state, guild_id, channel_id, c1);
        }
    }
}

/// How a guild-removed event changes the store: the guild leaves the map
/// and the ordered list; a current-guild pointer at it is cleared; the
/// selection is cleared when it sat on the removed guild and follows its
/// element otherwise.  An untracked guild id changes nothing.
pub open spec fn guild_removed(pre: AppState, post: AppState, guild_id: u64) -> bool {
    if pre.guilds_map@.contains_key(guild_id) {
        let i = pre.guilds_list@.index_of_first(guild_id).unwrap();
        &&& post.guilds_map@ == pre.guilds_map@.remove(guild_id)
        &&& post.guilds_list@ == pre.guilds_list@.remove(i)
        &&& post.current_guild == if pre.current_guild == Some(guild_id) {
            None::<u64>
        } else {
            pre.current_guild
        }
        &&& post.guilds_select == match pre.guilds_select {
            None => None::<usize>,
            Some(j) => if j == i {
                None::<usize>
            } else if j > i {
                Some((j - 1) as usize)
            } else {
                Some(j)
            },
        }
        &&& post.mode == pre.mode
        &&& post.users == pre.users
        &&& post.current_user == pre.current_user
        &&& post.editing == pre.editing
        &&& post.input == pre.input
        &&& post.old_input == pre.old_input
        &&& post.command == pre.command
    } else {
        post == pre
    }
}

/// Deletes a guild from the store and the ordered list; if it was the
/// current or selected guild, the corresponding pointer and index are
/// cleared in the same step.  An untracked guild id is a no-op.
pub fn apply_guild_removed(state: &mut AppState, guild_id: u64)
    requires
        old(state).wf(),
    ensures
        final(state).wf(),
        guild_removed(*old(state), *final(state), guild_id),
{
    let ghost pre = *state;
    if !state.guilds_map.contains_key(&guild_id) {
        return ;
    }
    state.guilds_map.remove(&guild_id);
    match find_id(&state.guilds_list, guild_id) {
        None => {
            proof {
                assert(pre.guilds_list@.contains(guild_id));
                assert(false);
            }
        },
        Some(i) => {
            proof {
                pre.guilds_list@.index_of_first_ensures(guild_id);
                let k = pre.guilds_list@.index_of_first(guild_id).unwrap();
                assert(pre.guilds_list@[k] == guild_id);
                assert(k == i);
                lemma_paired_remove(pre.guilds_list@, pre.guilds_map@, i as int);
            }
            state.guilds_list.remove(i);
            match state.current_guild {
                Some(id) => {
                    if id == guild_id {
                        state.current_guild = None;
                    }
                },
                None => {},
            }
            match state.guilds_select {
                Some(j) => {
                    if j == i {
                        state.guilds_select = None;
                    } else if j > i {
                        state.guilds_select = Some(j - 1);
                    }
                },
                None => {},
            }
        },
    }
    proof {
        assert forall|id: u64| #[trigger] final(state).guilds_map@.contains_key(id) implies {
            &&& final(state).guilds_map@[id].wf()
            &&& final(state).guilds_map@[id].id == id
        } by {
            assert(pre.guilds_map@.contains_key(id));
            assert(final(state).guilds_map@[id] == pre.guilds_map@[id]);
        }
    }
}

/// How a profile-updated event changes the store: only the fields present
/// in the update are patched; an unknown user id changes nothing.
pub open spec fn profile_updated(
    pre: AppState,
    post: AppState,
    user_id: u64,
    new_username: Option<Vec<char>>,
    new_is_bot: Option<bool>,
) -> bool {
    if pre.users@.contains_key(user_id) {
        let u0 = pre.users@[user_id];
        let u1 = Member {
            name: match new_username {
                Some(n) => n,
                None => u0.name,
            },
            is_bot: match new_is_bot {
                Some(b) => b,
                None => u0.is_bot,
            },
        };
        &&& post.users@ == pre.users@.insert(user_id, u1)
        &&& post.mode == pre.mode
        &&& post.guilds_map == pre.guilds_map
        &&& post.guilds_list == pre.guilds_list
        &&& post.guilds_select == pre.guilds_select
        &&& post.current_guild == pre.current_guild
        &&& post.current_user == pre.current_user
        &&& post.editing == pre.editing
        &&& post.input == pre.input
        &&& post.old_input == pre.old_input
        &&& post.command == pre.command
    } else {
        post == pre
    }
}

/// Patches the fields present in a profile update onto a known member;
/// unknown user ids are no-ops.
pub fn apply_profile_updated(
    state: &mut AppState,
    user_id: u64,
    new_username: Option<Vec<char>>,
    new_is_bot: Option<bool>,
)
    requires
        old(state).wf(),
    ensures
        final(state).wf(),
        profile_updated(*old(state), *final(state), user_id, new_username, new_is_bot),
{
    let ghost pre = *state;
    match map_get_mut(&mut state.users, user_id) {
        None => {},
        Some(user) => {
            match new_username {
                Some(n) => {
                    user.name = n;
                },
                None => {},
            }
            match new_is_bot {
                Some(b) => {
                    user.is_bot = b;
                },
                None => {},
            }
        },
    }
    proof {
        if pre.users@.contains_key(user_id) {
            assert(final(state).users@ =~= pre.users@.insert(
                user_id,
                final(state).users@[user_id],
            ));
        }
    }
}

/// Applies one inbound push event to the store.  Events are applied
/// independently and idempotently with respect to already-absent targets;
/// the result is the follow-up intent the caller should dispatch (fetching
/// an unknown author's profile), if any.
pub fn apply_event(state: &mut AppState, event: ChatEvent) -> (r: Option<ClientEvent>)
    requires
        old(state).wf(),
    ensures
        final(state).wf(),
        match event {
            ChatEvent::SentMessage { guild_id, channel_id, message_id, data } => {
                &&& message_applied(
                    *old(state),
                    *final(state),
                    guild_id,
                    channel_id,
                    message_id,
                    data,
                    usize::MAX,
                )
                &&& r == if old(state).users@.contains_key(data.author_id) {
                    None::<ClientEvent>
                } else {
                    Some(ClientEvent::GetUser(data.author_id))
                }
            },
            ChatEvent::EditedMessage { guild_id, channel_id, message_id, new_content, edited_at } => {
                &&& message_edited(
                    *old(state),
                    *final(state),
                    guild_id,
                    channel_id,
                    message_id,
                    new_content,
                    edited_at,
                )
                &&& r is None
            },
            ChatEvent::DeletedMessage { guild_id, channel_id, message_id } => {
                &&& message_deleted(*old(state), *final(state), guild_id, channel_id, message_id)
                &&& r is None
            },
            ChatEvent::GuildRemovedFromList { guild_id } => {
                &&& guild_removed(*old(state), *final(state), guild_id)
                &&& r is None
            },
            ChatEvent::ProfileUpdated { user_id, new_username, new_is_bot } => {
                &&& profile_updated(*old(state), *final(state), user_id, new_username, new_is_bot)
                &&& r is None
            },
            ChatEvent::Other => *final(state) == *old(state) && r is None,
        },
{
    match event {
        ChatEvent::SentMessage { guild_id, channel_id, message_id, data } => {
            match handle_message(state, data, guild_id, channel_id, message_id, usize::MAX) {
                Some(author_id) => Some(ClientEvent::GetUser(author_id)),
                None => None,
            }
        },
        ChatEvent::EditedMessage { guild_id, channel_id, message_id, new_content, edited_at } => {
            apply_edited_message(state, guild_id, channel_id, message_id, new_content, edited_at);
            None
        },
        ChatEvent::DeletedMessage { guild_id, channel_id, message_id } => {
            apply_deleted_message(state, guild_id, channel_id, message_id);
            None
        },
        ChatEvent::GuildRemovedFromList { guild_id } => {
            apply_guild_removed(state, guild_id);
            None
        },
        ChatEvent::ProfileUpdated { user_id, new_username, new_is_bot } => {
            apply_profile_updated(state, user_id, new_username, new_is_bot);
            None
        },
        ChatEvent::Other => None,
    }
}

} // verus!
