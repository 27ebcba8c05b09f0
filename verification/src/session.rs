//! The session state of one simulated user: the room of interest, and for
//! each room the continuation token of its history and the messages that
//! the poll loop has received, in the order in which they came.

use vstd::prelude::*;
use crate::chance::choose_index;

verus! {

/// The largest number of messages, counted from the latest, that a
/// reaction picks from.
pub const RECENT_WINDOW: usize = 11;

/// A room's id with what is kept for the room.
#[derive(Debug)]
pub struct RoomEntry<V> {
    pub room_id: String,
    pub value: V,
}

/// The position of the first of `entries` that is for room `room`.
pub open spec fn entry_position<V>(entries: Seq<RoomEntry<V>>, room: Seq<char>) -> Option<int>
    decreases entries.len(),
{
    if entries.len() == 0 {
        None
    } else {
        match entry_position(entries.drop_last(), room) {
            Some(i) => Some(i),
            None => if entries.last().room_id@ == room {
                Some(entries.len() - 1)
            } else {
                None
            },
        }
    }
}

/// What `entry_position` finds is for `room`, nothing before it is, and
/// it finds none only where no entry is for `room`.
pub proof fn lemma_entry_position<V>(entries: Seq<RoomEntry<V>>, room: Seq<char>)
    ensures
        match entry_position(entries, room) {
            Some(i) => {
                &&& 0 <= i < entries.len()
                &&& entries[i].room_id@ == room
                &&& forall|j: int| 0 <= j < i ==> entries[j].room_id@ != room
            },
            None => forall|j: int| 0 <= j < entries.len() ==> entries[j].room_id@ != room,
        },
    decreases entries.len(),
{
    if entries.len() > 0 {
        lemma_entry_position(entries.drop_last(), room);
        assert(forall|j: int| 0 <= j < entries.len() - 1 ==> entries.drop_last()[j] == entries[j]);
    }
}

/// A value for each of some rooms, the rooms told apart by their ids.
#[derive(Debug)]
pub struct RoomMap<V> {
    entries: Vec<RoomEntry<V>>,
}

impl<V> RoomMap<V> {
    /// The value of room `room`, if it has one.
    pub closed spec fn value_of(&self, room: Seq<char>) -> Option<V> {
        match entry_position(self.entries@, room) {
            Some(i) => Some(self.entries@[i].value),
            None => None,
        }
    }

    /// A map without rooms.
    pub fn new() -> (map: RoomMap<V>)
        ensures
            forall|room: Seq<char>| (#[trigger] map.value_of(room)) is None,
    {
        RoomMap { entries: Vec::new() }
    }

    /// The place of room `room` in the map.
    fn find(&self, room: &String) -> (found: Option<usize>)
        ensures
            match found {
                Some(i) => {
                    &&& i < self.entries@.len()
                    &&& self.entries@[i as int].room_id@ == room@
                    &&& entry_position(self.entries@, room@) == Some(i as int)
                },
                None => entry_position(self.entries@, room@) is None,
            },
    {
        let mut i: usize = 0;
        while i < self.entries.len()
            invariant
                i <= self.entries@.len(),
                forall|j: int| 0 <= j < i ==> self.entries@[j].room_id@ != room@,
            decreases self.entries.len() - i,
        {
            if self.entries[i].room_id == *room {
                proof {
                    lemma_entry_position(self.entries@, room@);
                }
                return Some(i);
            }
            i += 1;
        }
        proof {
            lemma_entry_position(self.entries@, room@);
        }
        None
    }

    /// The value of room `room`, if it has one.
    pub fn get(&self, room: &String) -> (value: Option<&V>)
        ensures
            match value {
                Some(v) => self.value_of(room@) == Some(*v),
                None => self.value_of(room@) is None,
            },
    {
        match self.find(room) {
            Some(i) => Some(&self.entries[i].value),
            None => None,
        }
    }

    /// Gives room `room` the value `value`, in place of the one that it
    /// had, if it had one. No other room's value changes.
    pub fn insert(&mut self, room: String, value: V)
        ensures
            forall|r: Seq<char>|
                #[trigger] final(self).value_of(r) == if r == room@ {
                    Some(value)
                } else {
                    old(self).value_of(r)
                },
    {
        match self.find(&room) {
            Some(i) => {
                self.entries[i].value = value;
                proof {
                    assert forall|r: Seq<char>|
                        #[trigger] self.value_of(r) == if r == room@ {
                            Some(value)
                        } else {
                            old(self).value_of(r)
                        } by {
                        lemma_same_rooms(old(self).entries@, self.entries@, r);
                        lemma_entry_position(self.entries@, r);
                    }
                }
            },
            None => {
                self.entries.push(RoomEntry { room_id: room, value });
                proof {
                    assert(self.entries@.drop_last() =~= old(self).entries@);
                    assert forall|r: Seq<char>|
                        #[trigger] self.value_of(r) == if r == room@ {
                            Some(value)
                        } else {
                            old(self).value_of(r)
                        } by {
                        lemma_entry_position(old(self).entries@, r);
                    }
                }
            },
        }
    }
}

/// Two lists of entries that are for the same rooms, place by place, have
/// each room at the same position.
pub proof fn lemma_same_rooms<V>(a: Seq<RoomEntry<V>>, b: Seq<RoomEntry<V>>, room: Seq<char>)
    requires
        a.len() == b.len(),
        forall|j: int| 0 <= j < a.len() ==> a[j].room_id@ == b[j].room_id@,
    ensures
        entry_position(a, room) == entry_position(b, room),
    decreases a.len(),
{
    if a.len() > 0 {
        lemma_same_rooms(a.drop_last(), b.drop_last(), room);
    }
}

impl<M> RoomMap<Vec<M>> {
    /// The items of room `room`, in the order in which they were added:
    /// none for a room without a value.
    pub open spec fn items_of(&self, room: Seq<char>) -> Seq<M> {
        match self.value_of(room) {
            Some(items) => items@,
            None => Seq::empty(),
        }
    }

    /// Adds `item` after the items of room `room`. No other room's items change.
    pub fn append(&mut self, room: &String, item: M)
        ensures
            forall|r: Seq<char>|
                #[trigger] final(self).items_of(r) == if r == room@ {
                    old(self).items_of(r).push(item)
                } else {
                    old(self).items_of(r)
                },
    {
        match self.find(room) {
            Some(i) => {
                self.entries[i].value.push(item);
                proof {
                    assert forall|r: Seq<char>|
                        #[trigger] self.items_of(r) == if r == room@ {
                            old(self).items_of(r).push(item)
                        } else {
                            old(self).items_of(r)
                        } by {
                        lemma_same_rooms(old(self).entries@, self.entries@, r);
                        lemma_entry_position(self.entries@, r);
                    }
                }
            },
            None => {
                let mut items: Vec<M> = Vec::new();
                items.push(item);
                let ghost fresh = items;
                self.insert(room.clone(), items);
                proof {
                    assert(fresh@ =~= Seq::<M>::empty().push(item));
                    assert forall|r: Seq<char>|
                        #[trigger] self.items_of(r) == if r == room@ {
                            old(self).items_of(r).push(item)
                        } else {
                            old(self).items_of(r)
                        } by {
                        assert(self.value_of(r) == if r == room@ {
                            Some(fresh)
                        } else {
                            old(self).value_of(r)
                        });
                    }
                }
            },
        }
    }
}

/// Where the window of recent messages starts in a buffer of `len`
/// messages: the window holds the latest `RECENT_WINDOW` messages, or all
/// of them if they are fewer.
pub open spec fn window_start(len: int) -> int {
    if len > RECENT_WINDOW {
        len - RECENT_WINDOW
    } else {
        0
    }
}

/// Where the window of recent messages starts in a buffer of `len` messages.
pub fn recent_start(len: usize) -> (start: usize)
    ensures
        start == window_start(len as int),
        start <= len,
{
    if len > 10 {
        len - 11
    } else {
        0
    }
}

/// The session state of one user. `M` is what is kept of a message.
#[derive(Debug)]
pub struct SessionState<M> {
    room_id: Option<String>,
    room_tokens: RoomMap<String>,
    room_messages: RoomMap<Vec<M>>,
}

impl<M> SessionState<M> {
    /// The room of interest, if one has been chosen.
    pub closed spec fn current_room(&self) -> Option<Seq<char>> {
        match self.room_id {
            Some(id) => Some(id@),
            None => None,
        }
    }

    /// The continuation token of `room`'s history, if a page has been loaded.
    pub closed spec fn token_of(&self, room: Seq<char>) -> Option<Seq<char>> {
        match self.room_tokens.value_of(room) {
            Some(token) => Some(token@),
            None => None,
        }
    }

    /// The messages received in `room`, oldest first.
    pub closed spec fn messages_of(&self, room: Seq<char>) -> Seq<M> {
        self.room_messages.items_of(room)
    }

    /// The state at login: no room of interest, no token, no message.
    pub fn new() -> (state: SessionState<M>)
        ensures
            state.current_room() is None,
            forall|room: Seq<char>| (#[trigger] state.token_of(room)) is None,
            forall|room: Seq<char>| (#[trigger] state.messages_of(room)).len() == 0,
    {
        SessionState { room_id: None, room_tokens: RoomMap::new(), room_messages: RoomMap::new() }
    }

    /// Takes a message that the poll loop received in `room`: it goes
    /// after the messages that came before it. Nothing else changes.
    pub fn on_room_message(&mut self, room: &String, event: M)
        ensures
            final(self).current_room() == old(self).current_room(),
            forall|r: Seq<char>| #[trigger] final(self).token_of(r) == old(self).token_of(r),
            forall|r: Seq<char>|
                #[trigger] final(self).messages_of(r) == if r == room@ {
                    old(self).messages_of(r).push(event)
                } else {
                    old(self).messages_of(r)
                },
    {
        self.room_messages.append(room, event);
    }

    /// The room of interest, if one has been chosen.
    pub fn room_id(&self) -> (room: Option<&String>)
        ensures
            match room {
                Some(id) => self.current_room() == Some(id@),
                None => self.current_room() is None,
            },
    {
        match &self.room_id {
            Some(id) => Some(id),
            None => None,
        }
    }

    /// Starts to load a page of `room`'s history: the room becomes the
    /// room of interest. Returns the token to ask for the page from: the
    /// one that the last page of this room ended with, and none for the
    /// first page.
    pub fn begin_page(&mut self, room: &String) -> (from: Option<String>)
        ensures
            final(self).current_room() == Some(room@),
            forall|r: Seq<char>| #[trigger] final(self).token_of(r) == old(self).token_of(r),
            forall|r: Seq<char>| #[trigger] final(self).messages_of(r) == old(self).messages_of(r),
            match from {
                Some(token) => old(self).token_of(room@) == Some(token@),
                None => old(self).token_of(room@) is None,
            },
    {
        self.room_id = Some(room.clone());
        match self.room_tokens.get(room) {
            Some(token) => Some(token.clone()),
            None => None,
        }
    }

    /// Takes the end of a page of `room`'s history that was loaded: `end`
    /// is the token that the response ended with, if it had one. The
    /// room's token changes only if there is a new one.
    pub fn end_page(&mut self, room: String, end: Option<String>)
        ensures
            final(self).current_room() == old(self).current_room(),
            forall|r: Seq<char>|
                #[trigger] final(self).token_of(r) == if r == room@ && end is Some {
                    Some(end->0@)
                } else {
                    old(self).token_of(r)
                },
            forall|r: Seq<char>| #[trigger] final(self).messages_of(r) == old(self).messages_of(r),
    {
        match end {
            Some(token) => {
                self.room_tokens.insert(room, token);
            },
            None => {},
        }
    }

    /// The number of messages received in `room`.
    pub fn message_count(&self, room: &String) -> (n: usize)
        ensures
            n == self.messages_of(room@).len(),
    {
        match self.room_messages.get(room) {
            Some(messages) => messages.len(),
            None => 0,
        }
    }

    /// The latest message received in `room`, if any was.
    pub fn latest_message(&self, room: &String) -> (latest: Option<&M>)
        ensures
            match latest {
                Some(m) => self.messages_of(room@).len() > 0 && *m == self.messages_of(room@).last(),
                None => self.messages_of(room@).len() == 0,
            },
    {
        match self.room_messages.get(room) {
            Some(messages) => {
                if messages.len() > 0 {
                    Some(&messages[messages.len() - 1])
                } else {
                    None
                }
            },
            None => None,
        }
    }

    /// The message at place `pick` of the window of recent messages of
    /// `room`, if the window reaches that far.
    pub fn recent_message(&self, room: &String, pick: usize) -> (recent: Option<&M>)
        ensures
            ({
                let messages = self.messages_of(room@);
                let start = window_start(messages.len() as int);
                match recent {
                    Some(m) => start + pick < messages.len() && *m == messages[start + pick],
                    None => start + pick >= messages.len(),
                }
            }),
    {
        match self.room_messages.get(room) {
            Some(messages) => {
                let start = recent_start(messages.len());
                if pick < messages.len() - start {
                    Some(&messages[start + pick])
                } else {
                    None
                }
            },
            None => None,
        }
    }

    /// A message of `room` to react to: one of the window of recent
    /// messages, picked at random, or `None` if no message was received.
    pub fn pick_recent_message(&self, room: &String) -> (recent: Option<&M>)
        ensures
            ({
                let messages = self.messages_of(room@);
                match recent {
                    Some(m) => exists|i: int|
                        window_start(messages.len() as int) <= i < messages.len() && *m == #[trigger] messages[i],
                    None => messages.len() == 0,
                }
            }),
    {
        let n = self.message_count(room);
        let start = recent_start(n);
        match choose_index(n - start) {
            Some(pick) => {
                let recent = self.recent_message(room, pick);
                assert(recent is Some);
                recent
            },
            None => None,
        }
    }
}

} // verus!
