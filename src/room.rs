//! Read-only projections of a room, as the local cache last saw it: one
//! for a joined room, one for an entry of the room list.

use vstd::prelude::*;

use crate::tombstone::{RoomTombstoneEventContent, Tombstone};

verus! {

/// The user's membership in a room.
#[derive(PartialEq, Eq, Structural, Clone, Copy, Debug)]
pub enum RoomState {
    Joined,
    Left,
    Invited,
    Knocked,
    Banned,
}

/// The type a room's creation event gives it.
#[derive(PartialEq, Eq, Structural, Clone, Copy, Debug)]
pub enum RoomType {
    /// `m.space`.
    Space,
    /// A type outside the specification.
    Custom,
    /// Any other type the specification defines.
    Other,
}

pub open spec fn state_code(s: RoomState) -> u8 {
    match s {
        RoomState::Joined => 0,
        RoomState::Left => 1,
        RoomState::Invited => 2,
        RoomState::Knocked => 3,
        RoomState::Banned => 4,
    }
}

fn state_number(s: RoomState) -> (r: u8)
    ensures
        r == state_code(s),
{
    match s {
        RoomState::Joined => 0,
        RoomState::Left => 1,
        RoomState::Invited => 2,
        RoomState::Knocked => 3,
        RoomState::Banned => 4,
    }
}

pub open spec fn room_type_text(t: Option<RoomType>) -> Seq<char> {
    match t {
        Some(RoomType::Space) => seq!['m', '.', 's', 'p', 'a', 'c', 'e'],
        Some(RoomType::Custom) => seq!['c', 'u', 's', 't', 'o', 'm'],
        _ => Seq::empty(),
    }
}

fn room_type_string(t: Option<RoomType>) -> (r: String)
    ensures
        r@ == room_type_text(t),
{
    proof {
        reveal_strlit("m.space");
        reveal_strlit("custom");
    }
    match t {
        Some(RoomType::Space) => String::from_str("m.space"),
        Some(RoomType::Custom) => String::from_str("custom"),
        _ => String::new(),
    }
}

pub open spec fn name_or_id(name: Option<String>, id: String) -> Seq<char> {
    match name {
        Some(n) => n@,
        None => id@,
    }
}

pub open spec fn text_or_empty(t: Option<String>) -> Seq<char> {
    match t {
        Some(s) => s@,
        None => Seq::empty(),
    }
}

pub open spec fn opt_view(t: Option<String>) -> Option<Seq<char>> {
    match t {
        Some(s) => Some(s@),
        None => None,
    }
}

fn copy_opt(t: &Option<String>) -> (r: Option<String>)
    ensures
        opt_view(r) == opt_view(*t),
{
    match t {
        Some(s) => Some(s.clone()),
        None => None,
    }
}

/// A room the user knows of.
pub struct Room {
    pub room_id: String,
    /// The room's name, where it has one.
    pub name: Option<String>,
    pub topic: Option<String>,
    pub membership: RoomState,
    /// The type from the room's creation event.
    pub kind: Option<RoomType>,
    pub tombstone_content: Option<Tombstone>,
    pub unread_messages: u64,
    pub unread_mentions: u64,
    /// Tagged `m.favourite`.
    pub favourite: bool,
    /// Tagged `m.lowpriority`.
    pub low_priority: bool,
}

impl Room {
    pub fn id(&self) -> (r: String)
        ensures
            r@ == self.room_id@,
    {
        self.room_id.clone()
    }

    /// The state of the room: 0 joined, 1 left, 2 invited, 3 knocked, 4 banned.
    pub fn state(&self) -> (r: u8)
        ensures
            r == state_code(self.membership),
    {
        state_number(self.membership)
    }

    /// Whether the room's type is `m.space`.
    pub fn is_space(&self) -> (r: bool)
        ensures
            r == (self.kind == Some(RoomType::Space)),
    {
        self.kind == Some(RoomType::Space)
    }

    /// The room's type as its creation event gives it: `m.space`, `custom`,
    /// or empty.
    pub fn room_type(&self) -> (r: String)
        ensures
            r@ == room_type_text(self.kind),
    {
        room_type_string(self.kind)
    }

    /// The room's name, or its identifier where it has none.
    pub fn display_name(&self) -> (r: String)
        ensures
            r@ == name_or_id(self.name, self.room_id),
    {
        match &self.name {
            Some(n) => n.clone(),
            None => self.room_id.clone(),
        }
    }

    /// Whether the room has been replaced by another.
    pub fn is_tombstoned(&self) -> (r: bool)
        ensures
            r == self.tombstone_content is Some,
    {
        self.tombstone_content.is_some()
    }

    /// The room's tombstone, empty where it has none.
    pub fn tombstone(&self) -> (r: Box<RoomTombstoneEventContent>)
        ensures
            r.0 is Some == self.tombstone_content is Some,
            r.0 matches Some(t) ==> t.body@ == self.tombstone_content.unwrap().body@
                && t.replacement_room@ == self.tombstone_content.unwrap().replacement_room@,
    {
        match &self.tombstone_content {
            None => Box::new(RoomTombstoneEventContent::empty()),
            Some(t) => Box::new(RoomTombstoneEventContent(Some(t.copy()))),
        }
    }

    /// The room's topic, empty where it has none.
    pub fn topic(&self) -> (r: String)
        ensures
            r@ == text_or_empty(self.topic),
    {
        match &self.topic {
            Some(t) => t.clone(),
            None => String::new(),
        }
    }

    pub fn num_unread_messages(&self) -> (r: u64)
        ensures
            r == self.unread_messages,
    {
        self.unread_messages
    }

    pub fn num_unread_mentions(&self) -> (r: u64)
        ensures
            r == self.unread_mentions,
    {
        self.unread_mentions
    }

    /// Whether the room carries the `m.favourite` tag.
    pub fn is_favourite(&self) -> (r: bool)
        ensures
            r == self.favourite,
    {
        self.favourite
    }

    /// Whether the room carries the `m.lowpriority` tag.
    pub fn is_low_priority(&self) -> (r: bool)
        ensures
            r == self.low_priority,
    {
        self.low_priority
    }
}

/// An entry of the room list.
pub struct RoomListRoom {
    pub room_id: String,
    /// The room's name, where it has one.
    pub name: Option<String>,
    pub topic: Option<String>,
    pub membership: RoomState,
    /// The type from the room's creation event.
    pub kind: Option<RoomType>,
    pub tombstone_content: Option<Tombstone>,
    pub unread_messages: u64,
    pub unread_mentions: u64,
    /// Tagged `m.favourite`.
    pub favourite: bool,
    /// Tagged `m.lowpriority`.
    pub low_priority: bool,
    /// The room's canonical alias, where it has one.
    pub alias: Option<String>,
}

impl RoomListRoom {
    pub fn id(&self) -> (r: String)
        ensures
            r@ == self.room_id@,
    {
        self.room_id.clone()
    }

    /// The state of the room: 0 joined, 1 left, 2 invited, 3 knocked, 4 banned.
    pub fn state(&self) -> (r: u8)
        ensures
            r == state_code(self.membership),
    {
        state_number(self.membership)
    }

    /// Whether the room's type is `m.space`.
    pub fn is_space(&self) -> (r: bool)
        ensures
            r == (self.kind == Some(RoomType::Space)),
    {
        self.kind == Some(RoomType::Space)
    }

    /// The room's type as its creation event gives it: `m.space`, `custom`,
    /// or empty.
    pub fn room_type(&self) -> (r: String)
        ensures
            r@ == room_type_text(self.kind),
    {
        room_type_string(self.kind)
    }

    /// The room's name, or its identifier where it has none.
    pub fn display_name(&self) -> (r: String)
        ensures
            r@ == name_or_id(self.name, self.room_id),
    {
        match &self.name {
            Some(n) => n.clone(),
            None => self.room_id.clone(),
        }
    }

    /// Whether the room has been replaced by another.
    pub fn is_tombstoned(&self) -> (r: bool)
        ensures
            r == self.tombstone_content is Some,
    {
        self.tombstone_content.is_some()
    }

    /// The room's tombstone, empty where it has none.
    pub fn tombstone(&self) -> (r: Box<RoomTombstoneEventContent>)
        ensures
            r.0 is Some == self.tombstone_content is Some,
            r.0 matches Some(t) ==> t.body@ == self.tombstone_content.unwrap().body@
                && t.replacement_room@ == self.tombstone_content.unwrap().replacement_room@,
    {
        match &self.tombstone_content {
            None => Box::new(RoomTombstoneEventContent::empty()),
            Some(t) => Box::new(RoomTombstoneEventContent(Some(t.copy()))),
        }
    }

    /// The room's topic, empty where it has none.
    pub fn topic(&self) -> (r: String)
        ensures
            r@ == text_or_empty(self.topic),
    {
        match &self.topic {
            Some(t) => t.clone(),
            None => String::new(),
        }
    }

    pub fn num_unread_messages(&self) -> (r: u64)
        ensures
            r == self.unread_messages,
    {
        self.unread_messages
    }

    pub fn num_unread_mentions(&self) -> (r: u64)
        ensures
            r == self.unread_mentions,
    {
        self.unread_mentions
    }

    /// Whether the room carries the `m.favourite` tag.
    pub fn is_favourite(&self) -> (r: bool)
        ensures
            r == self.favourite,
    {
        self.favourite
    }

    /// Whether the room carries the `m.lowpriority` tag.
    pub fn is_low_priority(&self) -> (r: bool)
        ensures
            r == self.low_priority,
    {
        self.low_priority
    }

    /// The room's canonical alias, empty where it has none.
    pub fn canonical_alias(&self) -> (r: String)
        ensures
            r@ == text_or_empty(self.alias),
    {
        match &self.alias {
            Some(a) => a.clone(),
            None => String::new(),
        }
    }

    /// A copy of the entry.
    pub fn box_me(&self) -> (r: Box<RoomListRoom>)
        ensures
            r.room_id@ == self.room_id@,
            opt_view(r.name) == opt_view(self.name),
            opt_view(r.topic) == opt_view(self.topic),
            r.membership == self.membership,
            r.kind == self.kind,
            r.tombstone_content is Some == self.tombstone_content is Some,
            r.tombstone_content matches Some(t) ==> t.body@ == self.tombstone_content.unwrap().body@
                && t.replacement_room@ == self.tombstone_content.unwrap().replacement_room@,
            r.unread_messages == self.unread_messages,
            r.unread_mentions == self.unread_mentions,
            r.favourite == self.favourite,
            r.low_priority == self.low_priority,
            opt_view(r.alias) == opt_view(self.alias),
    {
        Box::new(RoomListRoom {
            room_id: self.room_id.clone(),
            name: copy_opt(&self.name),
            topic: copy_opt(&self.topic),
            membership: self.membership,
            kind: self.kind,
            tombstone_content: match &self.tombstone_content {
                Some(t) => Some(t.copy()),
                None => None,
            },
            unread_messages: self.unread_messages,
            unread_mentions: self.unread_mentions,
            favourite: self.favourite,
            low_priority: self.low_priority,
            alias: copy_opt(&self.alias),
        })
    }
}

} // verus!
