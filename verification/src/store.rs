//! The entity store: the in-memory mirror of remote guilds, channels,
//! messages and members, with ordered id lists paired with id-keyed maps
//! and selection/scroll cursors.
//!
//! Every ordered list and its paired map are kept as one logical structure
//! with two access paths: [`list_map_paired`] states the bijection, and the
//! per-type `wf` predicates bundle it with the cursor bounds of the data
//! model.  All mutating code in this crate preserves `wf`.

use vstd::prelude::*;
use std::collections::HashMap;
use crate::input_buffer::InputBuffer;

verus! {

broadcast use vstd::std_specs::hash::group_hash_axioms;

/// The current mode of the application.
#[derive(Copy, Clone, PartialEq, Eq, Debug)]
pub enum AppMode {
    /// Normal mode for text.
    TextNormal,
    /// Insert mode for text.
    TextInsert,
    /// Command mode to enter commands.
    Command,
    /// Scroll mode to scroll through messages.
    Scroll,
    /// Delete mode to confirm deleting the selected message.
    Delete,
    /// Guild select mode to select a guild.
    GuildSelect,
    /// Channel select mode to select a channel.
    ChannelSelect,
    /// Guild leave mode to confirm leaving a guild.
    GuildLeave,
}

impl Default for AppMode {
    fn default() -> (r: Self)
        ensures
            r == AppMode::TextNormal,
    {
        Self::TextNormal
    }
}

/// The contents of a received message.  Only text is materialized; other
/// content kinds are recognized by the sync engine but never stored.
pub enum MessageContent {
    /// A message composed of text.
    Text(Vec<char>),
}

/// A received message.
pub struct Message {
    /// The id of the message.
    pub id: u64,
    /// The user id of the author.
    pub author_id: u64,
    /// If present, overrides the author's display name.
    pub override_username: Option<Vec<char>>,
    /// The content of the message.
    pub content: MessageContent,
    /// The timestamp the message was created at.
    pub timestamp: u64,
    /// The timestamp the message was last edited at.
    pub edited_timestamp: Option<u64>,
}

/// A member of a guild.
pub struct Member {
    /// The display name of the member.
    pub name: Vec<char>,
    /// Whether the member is a bot.
    pub is_bot: bool,
}

/// A channel of a guild.
pub struct Channel {
    /// The id of the channel.
    pub id: u64,
    /// The id of the guild that contains this channel.
    pub guild_id: u64,
    /// The name of the channel.
    pub name: Vec<char>,
    /// The scroll offset: how many of the newest messages are hidden
    /// below the viewport bottom.
    pub scroll_selected: usize,
    /// The id-keyed map of messages in the channel.
    pub messages_map: HashMap<u64, Message>,
    /// The ordered list of message ids (oldest first).
    pub messages_list: Vec<u64>,
}

/// A guild.
pub struct Guild {
    /// The id of the guild.
    pub id: u64,
    /// The ordered list of channel ids.
    pub channels_list: Vec<u64>,
    /// The selected position in the channel list, if any.
    pub channels_select: Option<usize>,
    /// The id-keyed map of channels.
    pub channels_map: HashMap<u64, Channel>,
    /// The name of the guild.
    pub name: Vec<char>,
    /// The channel currently being viewed, if any.
    pub current_channel: Option<u64>,
}

/// The root of the entity store: the current state of the app.
pub struct AppState {
    /// The current mode the app is in.
    pub mode: AppMode,
    /// The id-keyed map of known users.
    pub users: HashMap<u64, Member>,
    /// The id-keyed map of guilds.
    pub guilds_map: HashMap<u64, Guild>,
    /// The ordered list of guild ids.
    pub guilds_list: Vec<u64>,
    /// The selected position in the guild list, if any.
    pub guilds_select: Option<usize>,
    /// The guild currently being viewed, if any.
    pub current_guild: Option<u64>,
    /// The id of the user using this application.
    pub current_user: u64,
    /// Whether the user is currently editing a message.
    pub editing: bool,
    /// The message input box.
    pub input: InputBuffer,
    /// The saved input box from before an edit began.
    pub old_input: InputBuffer,
    /// The command prompt.
    pub command: InputBuffer,
}

impl Default for AppState {
    /// An empty store in normal mode with empty buffers.
    fn default() -> (r: Self)
        ensures
            r.wf(),
            r.mode == AppMode::TextNormal,
            r.users@ == Map::<u64, Member>::empty(),
            r.guilds_map@ == Map::<u64, Guild>::empty(),
            r.guilds_list@ == Seq::<u64>::empty(),
            r.guilds_select is None,
            r.current_guild is None,
            r.current_user == 0,
            !r.editing,
            r.input@ == Seq::<char>::empty(),
            r.old_input@ == Seq::<char>::empty(),
            r.command@ == Seq::<char>::empty(),
    {
        AppState {
            mode: AppMode::TextNormal,
            users: HashMap::new(),
            guilds_map: HashMap::new(),
            guilds_list: Vec::new(),
            guilds_select: None,
            current_guild: None,
            current_user: 0,
            editing: false,
            input: InputBuffer::new(),
            old_input: InputBuffer::new(),
            command: InputBuffer::new(),
        }
    }
}

/// The ordered id list and the id-keyed map hold exactly the same ids,
/// each id at exactly one position of the list.
pub open spec fn list_map_paired<V>(list: Seq<u64>, map: Map<u64, V>) -> bool {
    &&& list.no_duplicates()
    &&& forall|id: u64| #[trigger] map.contains_key(id) ==> list.contains(id)
    &&& forall|i: int| 0 <= i < list.len() ==> map.contains_key(#[trigger] list[i])
}

impl Channel {
    /// Well-formedness: paired list and map, stored ids consistent, and
    /// the scroll offset never beyond the list length.
    pub open spec fn wf(&self) -> bool {
        &&& list_map_paired(self.messages_list@, self.messages_map@)
        &&& forall|id: u64| #[trigger] self.messages_map@.contains_key(id)
            ==> self.messages_map@[id].id == id
        &&& self.scroll_selected <= self.messages_list@.len()
    }
}

impl Guild {
    /// Well-formedness: paired list and map, well-formed channels that
    /// know their own and their guild's id, a selection inside the list,
    /// and a current channel present in the map.
    pub open spec fn wf(&self) -> bool {
        &&& list_map_paired(self.channels_list@, self.channels_map@)
        &&& forall|id: u64| #[trigger] self.channels_map@.contains_key(id) ==> {
            &&& self.channels_map@[id].wf()
            &&& self.channels_map@[id].id == id
            &&& self.channels_map@[id].guild_id == self.id
        }
        &&& match self.channels_select {
            Some(i) => i < self.channels_list@.len(),
            None => true,
        }
        &&& match self.current_channel {
            Some(id) => self.channels_map@.contains_key(id),
            None => true,
        }
    }

    /// The channel currently being viewed, if one is set and tracked.
    pub open spec fn spec_current_channel(&self) -> Option<Channel> {
        match self.current_channel {
            None => None,
            Some(id) => if self.channels_map@.contains_key(id) {
                Some(self.channels_map@[id])
            } else {
                None
            },
        }
    }

    /// Resolves the current channel against the channel map.
    pub fn current_channel(&self) -> (r: Option<&Channel>)
        ensures
            match r {
                Some(c) => self.spec_current_channel() == Some(*c),
                None => self.spec_current_channel() is None,
            },
    {
        match self.current_channel {
            None => None,
            Some(id) => self.channels_map.get(&id),
        }
    }

    /// Resolves the current channel against the channel map, for mutation.
    pub fn current_channel_mut(&mut self) -> (r: Option<&mut Channel>)
        ensures
            old(self).spec_current_channel() is None ==> r is None && *final(self) == *old(self),
            old(self).spec_current_channel() is Some ==> {
                &&& r is Some
                &&& Some(*r.unwrap()) == old(self).spec_current_channel()
                &&& final(self).channels_map@ == old(self).channels_map@.insert(
                    old(self).current_channel.unwrap(),
                    *final(r.unwrap()),
                )
                &&& (*final(r.unwrap()) == old(self).spec_current_channel().unwrap()
                    ==> *final(self) == *old(self))
                &&& final(self).id == old(self).id
                &&& final(self).channels_list == old(self).channels_list
                &&& final(self).channels_select == old(self).channels_select
                &&& final(self).name == old(self).name
                &&& final(self).current_channel == old(self).current_channel
            },
    {
        match self.current_channel {
            None => None,
            Some(id) => map_get_mut(&mut self.channels_map, id),
        }
    }
}

/// Everything of the state except the guild map is unchanged.
pub open spec fn same_except_guilds_map(pre: AppState, post: AppState) -> bool {
    &&& post.mode == pre.mode
    &&& post.users == pre.users
    &&& post.guilds_list == pre.guilds_list
    &&& post.guilds_select == pre.guilds_select
    &&& post.current_guild == pre.current_guild
    &&& post.current_user == pre.current_user
    &&& post.editing == pre.editing
    &&& post.input == pre.input
    &&& post.old_input == pre.old_input
    &&& post.command == pre.command
}

/// `post` is `pre` with the guild stored under `gid` replaced by `g`.
pub open spec fn guild_written(pre: AppState, post: AppState, gid: u64, g: Guild) -> bool {
    &&& same_except_guilds_map(pre, post)
    &&& post.guilds_map@ == pre.guilds_map@.insert(gid, g)
}

/// `post` is `pre` with channel `cid` of guild `gid` replaced by `c` and
/// everything else unchanged.
pub open spec fn channel_written(pre: AppState, post: AppState, gid: u64, cid: u64, c: Channel) -> bool {
    let g0 = pre.guilds_map@[gid];
    let g1 = post.guilds_map@[gid];
    &&& pre.guilds_map@.contains_key(gid)
    &&& post.guilds_map@.contains_key(gid)
    &&& guild_written(pre, post, gid, g1)
    &&& g1.id == g0.id
    &&& g1.channels_list == g0.channels_list
    &&& g1.channels_select == g0.channels_select
    &&& g1.name == g0.name
    &&& g1.current_channel == g0.current_channel
    &&& g1.channels_map@ == g0.channels_map@.insert(cid, c)
}

impl AppState {
    /// Well-formedness of the whole store: paired guild list and map,
    /// well-formed guilds that know their id, cursors inside their lists,
    /// a current guild present in the map, and well-formed input buffers.
    pub open spec fn wf(&self) -> bool {
        &&& list_map_paired(self.guilds_list@, self.guilds_map@)
        &&& forall|id: u64| #[trigger] self.guilds_map@.contains_key(id) ==> {
            &&& self.guilds_map@[id].wf()
            &&& self.guilds_map@[id].id == id
        }
        &&& match self.guilds_select {
            Some(i) => i < self.guilds_list@.len(),
            None => true,
        }
        &&& match self.current_guild {
            Some(id) => self.guilds_map@.contains_key(id),
            None => true,
        }
        &&& self.input.wf()
        &&& self.old_input.wf()
        &&& self.command.wf()
    }

    /// The guild currently being viewed, if one is set and tracked.
    pub open spec fn spec_current_guild(&self) -> Option<Guild> {
        match self.current_guild {
            None => None,
            Some(id) => if self.guilds_map@.contains_key(id) {
                Some(self.guilds_map@[id])
            } else {
                None
            },
        }
    }

    /// The current channel of the current guild, if both resolve.
    pub open spec fn spec_current_channel(&self) -> Option<Channel> {
        match self.spec_current_guild() {
            None => None,
            Some(g) => g.spec_current_channel(),
        }
    }

    /// The channel stored under `(gid, cid)`, if tracked.
    pub open spec fn spec_channel(&self, gid: u64, cid: u64) -> Option<Channel> {
        if self.guilds_map@.contains_key(gid)
            && self.guilds_map@[gid].channels_map@.contains_key(cid) {
            Some(self.guilds_map@[gid].channels_map@[cid])
        } else {
            None
        }
    }

    /// Resolves the current guild against the guild map.
    pub fn current_guild(&self) -> (r: Option<&Guild>)
        ensures
            match r {
                Some(g) => self.spec_current_guild() == Some(*g),
                None => self.spec_current_guild() is None,
            },
    {
        match self.current_guild {
            None => None,
            Some(id) => self.guilds_map.get(&id),
        }
    }

    /// Resolves the current channel by chasing the current-guild and
    /// current-channel pointers.
    pub fn current_channel(&self) -> (r: Option<&Channel>)
        ensures
            match r {
                Some(c) => self.spec_current_channel() == Some(*c),
                None => self.spec_current_channel() is None,
            },
    {
        match self.current_guild() {
            None => None,
            Some(g) => g.current_channel(),
        }
    }

    /// Resolves the current guild against the guild map, for mutation.
    pub fn current_guild_mut(&mut self) -> (r: Option<&mut Guild>)
        ensures
            old(self).spec_current_guild() is None ==> r is None && *final(self) == *old(self),
            old(self).spec_current_guild() is Some ==> {
                &&& r is Some
                &&& Some(*r.unwrap()) == old(self).spec_current_guild()
                &&& guild_written(
                    *old(self),
                    *final(self),
                    old(self).current_guild.unwrap(),
                    *final(r.unwrap()),
                )
                &&& (*final(r.unwrap()) == old(self).spec_current_guild().unwrap()
                    ==> *final(self) == *old(self))
            },
    {
        match self.current_guild {
            None => None,
            Some(id) => map_get_mut(&mut self.guilds_map, id),
        }
    }

    /// Resolves the current channel of the current guild, for mutation.
    pub fn current_channel_mut(&mut self) -> (r: Option<&mut Channel>)
        ensures
            old(self).spec_current_channel() is None ==> r is None && *final(self) == *old(self),
            old(self).spec_current_channel() is Some ==> {
                &&& r is Some
                &&& Some(*r.unwrap()) == old(self).spec_current_channel()
                &&& channel_written(
                    *old(self),
                    *final(self),
                    old(self).current_guild.unwrap(),
                    old(self).spec_current_guild().unwrap().current_channel.unwrap(),
                    *final(r.unwrap()),
                )
                &&& (*final(r.unwrap()) == old(self).spec_current_channel().unwrap()
                    ==> *final(self) == *old(self))
            },
    {
        match self.current_guild_mut() {
            None => None,
            Some(g) => g.current_channel_mut(),
        }
    }

    /// Looks up the channel `cid` of guild `gid`, for mutation.
    pub fn get_channel_mut(&mut self, guild_id: u64, channel_id: u64) -> (r: Option<&mut Channel>)
        ensures
            old(self).spec_channel(guild_id, channel_id) is None ==> r is None && *final(self)
                == *old(self),
            old(self).spec_channel(guild_id, channel_id) is Some ==> {
                &&& r is Some
                &&& Some(*r.unwrap()) == old(self).spec_channel(guild_id, channel_id)
                &&& channel_written(
                    *old(self),
                    *final(self),
                    guild_id,
                    channel_id,
                    *final(r.unwrap()),
                )
                &&& (*final(r.unwrap()) == old(self).spec_channel(guild_id, channel_id).unwrap()
                    ==> *final(self) == *old(self))
            },
    {
        match map_get_mut(&mut self.guilds_map, guild_id) {
            None => None,
            Some(g) => map_get_mut(&mut g.channels_map, channel_id),
        }
    }
}

/// In a well-formed store every present selection index is a valid
/// position into its paired ordered list, and every channel's scroll
/// offset stays within its message list.
pub proof fn lemma_wf_cursors_in_range(s: AppState)
    requires
        s.wf(),
    ensures
        s.guilds_select is Some ==> (s.guilds_select.unwrap() as int) < s.guilds_list@.len(),
        forall|gid: u64| #[trigger] s.guilds_map@.contains_key(gid) ==> (s.guilds_map@[gid].channels_select
            is Some ==> (s.guilds_map@[gid].channels_select.unwrap() as int)
            < s.guilds_map@[gid].channels_list@.len()),
        forall|gid: u64, cid: u64|
            s.guilds_map@.contains_key(gid) && #[trigger] s.guilds_map@[gid].channels_map@.contains_key(
                cid,
            ) ==> s.guilds_map@[gid].channels_map@[cid].scroll_selected
                <= s.guilds_map@[gid].channels_map@[cid].messages_list@.len(),
{
}

/// Inserting a fresh id into the list and its value into the map keeps the
/// two access paths paired.
pub proof fn lemma_paired_insert<V>(list: Seq<u64>, map: Map<u64, V>, i: int, id: u64, v: V)
    requires
        list_map_paired(list, map),
        !map.contains_key(id),
        0 <= i <= list.len(),
    ensures
        list_map_paired(list.insert(i, id), map.insert(id, v)),
{
    list.insert_ensures(i, id);
    let l2 = list.insert(i, id);
    let m2 = map.insert(id, v);
    assert forall|p: int, q: int|
        0 <= p < l2.len() && 0 <= q < l2.len() && p != q implies l2[p] != l2[q] by {
        if p != i && q != i {
            let p0: int = if p < i { p } else { p - 1 };
            let q0: int = if q < i { q } else { q - 1 };
            assert(l2[p] == list[p0]);
            assert(l2[q] == list[q0]);
        } else {
            let r: int = if p == i { q } else { p };
            let r0: int = if r < i { r } else { r - 1 };
            assert(l2[r] == list[r0]);
            assert(map.contains_key(list[r0]));
        }
    }
    assert forall|x: u64| #[trigger] m2.contains_key(x) implies l2.contains(x) by {
        if x == id {
            assert(l2[i] == id);
        } else {
            let j = choose|j: int| 0 <= j < list.len() && list[j] == x;
            if j < i {
                assert(l2[j] == x);
            } else {
                assert(l2[j + 1] == x);
            }
        }
    }
    assert forall|p: int| 0 <= p < l2.len() implies m2.contains_key(#[trigger] l2[p]) by {
        if p != i {
            let p0: int = if p < i { p } else { p - 1 };
            assert(l2[p] == list[p0]);
            assert(map.contains_key(list[p0]));
        }
    }
}

/// Removing an id's position from the list and its entry from the map
/// keeps the two access paths paired.
pub proof fn lemma_paired_remove<V>(list: Seq<u64>, map: Map<u64, V>, i: int)
    requires
        list_map_paired(list, map),
        0 <= i < list.len(),
    ensures
        list_map_paired(list.remove(i), map.remove(list[i])),
        !map.remove(list[i]).contains_key(list[i]),
{
    list.remove_ensures(i);
    let id = list[i];
    let l2 = list.remove(i);
    let m2 = map.remove(id);
    assert forall|p: int, q: int|
        0 <= p < l2.len() && 0 <= q < l2.len() && p != q implies l2[p] != l2[q] by {
        let p0: int = if p < i { p } else { p + 1 };
        let q0: int = if q < i { q } else { q + 1 };
        assert(l2[p] == list[p0]);
        assert(l2[q] == list[q0]);
    }
    assert forall|x: u64| #[trigger] m2.contains_key(x) implies l2.contains(x) by {
        let j = choose|j: int| 0 <= j < list.len() && list[j] == x;
        assert(j != i);
        if j < i {
            assert(l2[j] == x);
        } else {
            assert(l2[j - 1] == x);
        }
    }
    assert forall|p: int| 0 <= p < l2.len() implies m2.contains_key(#[trigger] l2[p]) by {
        let p0: int = if p < i { p } else { p + 1 };
        assert(l2[p] == list[p0]);
        assert(map.contains_key(list[p0]));
        assert(list[p0] != id);
    }
}

/// Replacing the value stored under an id already in the map leaves the
/// two access paths paired.
pub proof fn lemma_paired_update<V>(list: Seq<u64>, map: Map<u64, V>, id: u64, v: V)
    requires
        list_map_paired(list, map),
        map.contains_key(id),
    ensures
        list_map_paired(list, map.insert(id, v)),
{
}

/// Finds the first position of `id` in `list`, if any.
pub fn find_id(list: &Vec<u64>, id: u64) -> (r: Option<usize>)
    ensures
        match r {
            Some(i) => i < list@.len() && list@[i as int] == id && (forall|j: int|
                0 <= j < i ==> list@[j] != id),
            None => !list@.contains(id),
        },
{
    let mut i: usize = 0;
    while i < list.len()
        invariant
            0 <= i <= list@.len(),
            forall|j: int| 0 <= j < i ==> list@[j] != id,
        decreases list@.len() - i,
    {
        if list[i] == id {
            return Some(i);
        }
        i = i + 1;
    }
    None
}

/// A well-formed state stays well-formed when one tracked channel is
/// replaced by a well-formed channel with the same identity.
pub proof fn lemma_channel_written_wf(
    pre: AppState,
    post: AppState,
    gid: u64,
    cid: u64,
    c: Channel,
)
    requires
        pre.wf(),
        channel_written(pre, post, gid, cid, c),
        pre.guilds_map@[gid].channels_map@.contains_key(cid),
        c.wf(),
        c.id == cid,
        c.guild_id == gid,
    ensures
        post.wf(),
        post.spec_current_guild() is Some <==> pre.spec_current_guild() is Some,
        post.spec_current_channel() is Some <==> pre.spec_current_channel() is Some,
{
    let g0 = pre.guilds_map@[gid];
    let g1 = post.guilds_map@[gid];
    assert(g1.wf());
    assert forall|id: u64| #[trigger] post.guilds_map@.contains_key(id) implies {
        &&& post.guilds_map@[id].wf()
        &&& post.guilds_map@[id].id == id
    } by {
        assert(pre.guilds_map@.contains_key(id));
        if id != gid {
            assert(post.guilds_map@[id] == pre.guilds_map@[id]);
        }
    }
    assert forall|i: int| 0 <= i < post.guilds_list@.len() implies post.guilds_map@.contains_key(
        #[trigger] post.guilds_list@[i],
    ) by {
        assert(pre.guilds_map@.contains_key(pre.guilds_list@[i]));
    }
}

/// A well-formed state stays well-formed when one tracked guild is
/// replaced by a well-formed guild with the same id.
pub proof fn lemma_guild_written_wf(pre: AppState, post: AppState, gid: u64, g: Guild)
    requires
        pre.wf(),
        guild_written(pre, post, gid, g),
        pre.guilds_map@.contains_key(gid),
        g.wf(),
        g.id == gid,
    ensures
        post.wf(),
{
    assert forall|id: u64| #[trigger] post.guilds_map@.contains_key(id) implies {
        &&& post.guilds_map@[id].wf()
        &&& post.guilds_map@[id].id == id
    } by {
        assert(pre.guilds_map@.contains_key(id));
        if id != gid {
            assert(post.guilds_map@[id] == pre.guilds_map@[id]);
        }
    }
    assert forall|i: int| 0 <= i < post.guilds_list@.len() implies post.guilds_map@.contains_key(
        #[trigger] post.guilds_list@[i],
    ) by {
        assert(pre.guilds_map@.contains_key(pre.guilds_list@[i]));
    }
}

/// A state trivially writes its own tracked channel back unchanged.
pub proof fn lemma_channel_written_refl(s: AppState, gid: u64, cid: u64)
    requires
        s.guilds_map@.contains_key(gid),
        s.guilds_map@[gid].channels_map@.contains_key(cid),
    ensures
        channel_written(s, s, gid, cid, s.guilds_map@[gid].channels_map@[cid]),
{
    assert(s.guilds_map@.insert(gid, s.guilds_map@[gid]) =~= s.guilds_map@);
    assert(s.guilds_map@[gid].channels_map@.insert(
        cid,
        s.guilds_map@[gid].channels_map@[cid],
    ) =~= s.guilds_map@[gid].channels_map@);
}

/// Two successive writes to the same channel slot compose into one.
pub proof fn lemma_channel_written_trans(
    s0: AppState,
    s1: AppState,
    s2: AppState,
    gid: u64,
    cid: u64,
    c1: Channel,
    c2: Channel,
)
    requires
        channel_written(s0, s1, gid, cid, c1),
        channel_written(s1, s2, gid, cid, c2),
    ensures
        channel_written(s0, s2, gid, cid, c2),
{
    assert(s2.guilds_map@ =~= s0.guilds_map@.insert(gid, s2.guilds_map@[gid]));
    assert(s2.guilds_map@[gid].channels_map@ =~= s0.guilds_map@[gid].channels_map@.insert(
        cid,
        c2,
    ));
}

/// Relies on std's `HashMap::get_mut`: it hands out a mutable reference to
/// the value stored under `k` without touching any other entry, and leaves
/// the map untouched when `k` is absent.  vstd specifies the other
/// `HashMap` methods but not this one.
#[verifier::external_body]
pub(crate) fn map_get_mut<'a, V>(m: &'a mut HashMap<u64, V>, k: u64) -> (r: Option<&'a mut V>)
    ensures
        !old(m)@.contains_key(k) ==> r is None && *final(m) == *old(m),
        old(m)@.contains_key(k) ==> {
            &&& r is Some
            &&& *r.unwrap() == old(m)@[k]
            &&& final(m)@ == old(m)@.insert(k, *final(r.unwrap()))
            &&& (*final(r.unwrap()) == old(m)@[k] ==> *final(m) == *old(m))
        },
{
    m.get_mut(&k)
}

} // verus!
